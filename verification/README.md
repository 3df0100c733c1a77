# runrun

A test runner whose decisions are verified with Verus.

Tests run on *contexts*. Each context type is built (asynchronously) from its
parent and names the list of its child contexts as a type-level list, so a
whole tree of contexts is run from one initial value. Around each test the
runner can put hooks: a failing `pre` hook stands in for the test, which is
then skipped, and a failing `post` hook stands in for a test that did not
fail. Tests can also be grouped in blocks between a `before` and an `after`
hook; when a block's `before` hook fails, everything else in it is skipped.

## Layout

- `src/` — the verified library.
  - `outcome` — statuses, test results, and the results that the values
    returned by test functions (`()`, `bool`, `Result`) stand for.
  - `hook` — hooked runs of one test, as a state machine; builders.
  - `hooks` — blocks of tests: which nodes run and which are skipped, and
    the results arranged in the block's shape; the block that wraps a list of
    tests between hooks.
  - `stream` — handing out the tests of a context, counting outcomes.
  - `eth` — the snapshot/revert hook for Ethereum development nodes.
  - `ty`, `exp` — type-level lists and numbers, maps over list types.
  - `derive` — the names of the slices that collect each context's tests.
- `app/` — the asynchronous side: contexts, test functions, the loops that
  await each test and feed its result to the library's state machines, the
  RPC calls of the Ethereum hook. The walk over the tree of contexts (which
  dispatches on the types of each context's list of children and awaits each
  context's build) is here too, and is not verified; the order of the tests
  within a context comes from the library.
- `tests/` — tests of the library.
