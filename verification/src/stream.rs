//! Running the tests of a context one after another, and counting their
//! outcomes.
use crate::outcome::Status;
use vstd::prelude::*;

verus! {

/// The number of times `st` occurs in `s`.
pub open spec fn count_status(s: Seq<Status>, st: Status) -> nat
    decreases s.len(),
{
    if s.len() == 0 {
        0
    } else {
        count_status(s.drop_last(), st) + if s.last() == st {
            1nat
        } else {
            0nat
        }
    }
}

/// How many tests passed, failed and were skipped.
#[derive(Debug, Clone, Copy, PartialEq, Eq, Structural)]
pub struct Tally {
    pub pass: usize,
    pub fail: usize,
    pub skip: usize,
}

/// `t` counts the outcomes in `s`.
pub open spec fn tallies(t: Tally, s: Seq<Status>) -> bool {
    &&& t.pass == count_status(s, Status::Pass)
    &&& t.fail == count_status(s, Status::Fail)
    &&& t.skip == count_status(s, Status::Skip)
}

proof fn lemma_counts_sum(s: Seq<Status>)
    ensures
        count_status(s, Status::Pass) + count_status(s, Status::Fail) + count_status(
            s,
            Status::Skip,
        ) == s.len(),
    decreases s.len(),
{
    if s.len() > 0 {
        lemma_counts_sum(s.drop_last());
    }
}

proof fn lemma_count_concat(a: Seq<Status>, b: Seq<Status>, st: Status)
    ensures
        count_status(a + b, st) == count_status(a, st) + count_status(b, st),
    decreases b.len(),
{
    if b.len() == 0 {
        assert(a + b =~= a);
    } else {
        lemma_count_concat(a, b.drop_last(), st);
        assert((a + b).drop_last() =~= a + b.drop_last());
    }
}

impl Tally {
    /// No test counted yet.
    pub fn new() -> (r: Tally)
        ensures
            tallies(r, Seq::empty()),
    {
        Tally { pass: 0, fail: 0, skip: 0 }
    }

    /// The number of tests counted.
    pub fn total(&self) -> (r: u128)
        ensures
            r == self.pass + self.fail + self.skip,
    {
        self.pass as u128 + self.fail as u128 + self.skip as u128
    }

    /// Counts one more test, with outcome `st`.
    pub fn record(&mut self, st: Status)
        requires
            old(self).pass + old(self).fail + old(self).skip < usize::MAX,
        ensures
            final(self).pass == old(self).pass + if st == Status::Pass {
                1int
            } else {
                0int
            },
            final(self).fail == old(self).fail + if st == Status::Fail {
                1int
            } else {
                0int
            },
            final(self).skip == old(self).skip + if st == Status::Skip {
                1int
            } else {
                0int
            },
            forall|s: Seq<Status>| tallies(*old(self), s) ==> tallies(*final(self), s.push(st)),
    {
        match st {
            Status::Pass => {
                self.pass = self.pass + 1;
            },
            Status::Fail => {
                self.fail = self.fail + 1;
            },
            Status::Skip => {
                self.skip = self.skip + 1;
            },
        }
        assert forall|s: Seq<Status>| tallies(*old(self), s) implies tallies(*self, s.push(st)) by {
            assert(s.push(st).drop_last() =~= s);
        }
    }

    /// Counts the outcomes in `statuses`.
    pub fn of(statuses: &[Status]) -> (r: Tally)
        ensures
            tallies(r, statuses@),
    {
        let mut t = Tally::new();
        let mut i: usize = 0;
        while i < statuses.len()
            invariant
                i <= statuses.len(),
                tallies(t, statuses@.subrange(0, i as int)),
            decreases statuses.len() - i,
        {
            proof {
                lemma_counts_sum(statuses@.subrange(0, i as int));
                assert(statuses@.subrange(0, i + 1) =~= statuses@.subrange(0, i as int).push(
                    statuses@[i as int],
                ));
            }
            t.record(statuses[i]);
            i = i + 1;
        }
        assert(statuses@.subrange(0, i as int) =~= statuses@);
        t
    }
}

/// Every test counted is counted once: passes, failures and skips add up to
/// the number of tests.
pub proof fn law_tally_counts_every_test(t: Tally, s: Seq<Status>)
    requires
        tallies(t, s),
    ensures
        t.pass + t.fail + t.skip == s.len(),
{
    lemma_counts_sum(s);
}

/// Counting two runs of tests one after the other adds their counts.
pub proof fn law_tally_adds_up(a: Seq<Status>, b: Seq<Status>, st: Status)
    ensures
        count_status(a + b, st) == count_status(a, st) + count_status(b, st),
{
    lemma_count_concat(a, b, st);
}

/// Drives a runner over a context and its children, counting the outcomes of
/// each context's tests.
#[derive(Debug, Clone)]
pub struct Driver<R> {
    runner: R,
}

impl<R> Driver<R> {
    pub fn new(runner: R) -> (r: Driver<R>)
        ensures
            r.runner() == runner,
    {
        Driver { runner }
    }

    pub closed spec fn runner(&self) -> R {
        self.runner
    }

    /// The runner that runs each test.
    pub fn get_runner(&self) -> (r: &R)
        ensures
            *r == self.runner(),
    {
        &self.runner
    }
}

/// One step of a test stream at position `pos`: the test there and the next
/// position, or nothing and the same position at the end.
pub open spec fn stream_step<T>(tests: Seq<T>, pos: nat) -> (Option<T>, nat) {
    if pos < tests.len() {
        (Some(tests[pos as int]), pos + 1)
    } else {
        (None, pos)
    }
}

/// What `k` steps of a test stream from position `pos` hand out.
pub open spec fn stream_run<T>(tests: Seq<T>, pos: nat, k: nat) -> Seq<Option<T>>
    decreases k,
{
    if k == 0 {
        Seq::empty()
    } else {
        seq![stream_step(tests, pos).0] + stream_run(tests, stream_step(tests, pos).1, (k - 1) as nat)
    }
}

proof fn lemma_stream_run<T>(tests: Seq<T>, pos: nat, k: nat)
    requires
        pos <= tests.len(),
    ensures
        stream_run(tests, pos, k).len() == k,
        forall|j: int|
            0 <= j < k ==> #[trigger] stream_run(tests, pos, k)[j] == if pos + j < tests.len() {
                Some(tests[pos + j])
            } else {
                None
            },
    decreases k,
{
    if k > 0 {
        let next = stream_step(tests, pos).1;
        lemma_stream_run(tests, next, (k - 1) as nat);
        let r = stream_run(tests, pos, k);
        assert forall|j: int| 0 <= j < k implies #[trigger] r[j] == if pos + j < tests.len() {
            Some(tests[pos + j])
        } else {
            None
        } by {
            if j > 0 {
                assert(r[j] == stream_run(tests, next, (k - 1) as nat)[j - 1]);
            }
        }
    }
}

/// A test stream hands out each of its tests once, in order, and then
/// nothing: its first `k` steps give the tests, and every step after them
/// gives `None`.
pub proof fn law_stream_hands_out_each_test_once<T>(tests: Seq<T>, k: nat)
    ensures
        stream_run(tests, 0, k).len() == k,
        forall|j: int|
            0 <= j < k ==> #[trigger] stream_run(tests, 0, k)[j] == if j < tests.len() {
                Some(tests[j])
            } else {
                None
            },
{
    lemma_stream_run(tests, 0, k);
}

/// Hands out the tests of a context, in order, each once, along with the
/// context they run on.
pub struct TestStream<'a, T, Ctx> {
    tests: &'a [T],
    pos: usize,
    ctx: Ctx,
}

impl<'a, T, Ctx> TestStream<'a, T, Ctx> {
    #[verifier::type_invariant]
    spec fn inv(&self) -> bool {
        self.pos <= self.tests@.len()
    }

    /// The tests, in order.
    pub closed spec fn tests(&self) -> Seq<T> {
        self.tests@
    }

    /// How many tests have been handed out.
    pub closed spec fn position(&self) -> nat {
        self.pos as nat
    }

    /// The context the tests run on.
    pub closed spec fn context(&self) -> Ctx {
        self.ctx
    }

    pub fn new(tests: &'a [T], ctx: Ctx) -> (r: TestStream<'a, T, Ctx>)
        ensures
            r.tests() == tests@,
            r.position() == 0,
            r.context() == ctx,
    {
        TestStream { tests, pos: 0, ctx }
    }

    /// The next test, if any is left.
    pub fn next(&mut self) -> (r: Option<&'a T>)
        ensures
            final(self).tests() == old(self).tests(),
            final(self).context() == old(self).context(),
            (
                match r {
                    Some(t) => Some(*t),
                    None => None,
                },
                final(self).position(),
            ) == stream_step(old(self).tests(), old(self).position()),
            old(self).position() <= old(self).tests().len(),
            old(self).position() < old(self).tests().len() ==> {
                &&& r matches Some(t) && *t == old(self).tests()[old(self).position() as int]
                &&& final(self).position() == old(self).position() + 1
            },
            old(self).position() == old(self).tests().len() ==> {
                &&& r is None
                &&& final(self).position() == old(self).position()
            },
    {
        proof {
            use_type_invariant(&*self);
        }
        if self.pos < self.tests.len() {
            let tests: &'a [T] = self.tests;
            let t = &tests[self.pos];
            self.pos = self.pos + 1;
            Some(t)
        } else {
            None
        }
    }

    /// The context the tests run on.
    pub fn ctx(&self) -> (r: &Ctx)
        ensures
            *r == self.context(),
    {
        &self.ctx
    }
}

/// Runs the tests of a context and then, in turn, those of each of its
/// children.
#[derive(Debug, Clone, Copy)]
pub struct Runner;

/// Marks the types that a map may be applied to.
pub trait Mark {}

pub enum FooFoo {
    Foo1,
    Foo2,
}

pub trait X {
    type Out;
}

} // verus!
