//! Hooks run before and after a test: a failing `pre` hook stands in for the
//! test, which is then skipped; a failing `post` hook stands in for a test
//! that did not fail.
use crate::outcome::{plain, Status, TestRes};
use vstd::prelude::*;

verus! {

/// Something that builds a runner part from a context.
///
/// `builds(base, out)` says that `out` is a value that `build` may return
/// from `base`.
pub trait Builder<T>: Sized {
    type This;

    spec fn builds(&self, base: T, out: Self::This) -> bool;

    fn build(self, base: &T) -> (r: Self::This)
        ensures
            self.builds(*base, r),
    ;
}

/// The innermost runner: it runs the test itself.
#[derive(Debug, Clone, Copy)]
pub struct Base;

/// Builds a `Base`.
pub struct BaseBuilder;

impl Base {
    pub fn builder() -> (r: BaseBuilder)
        ensures
            r == BaseBuilder,
    {
        BaseBuilder
    }
}

impl<T> Builder<T> for BaseBuilder {
    type This = Base;

    open spec fn builds(&self, base: T, out: Base) -> bool {
        true
    }

    fn build(self, base: &T) -> (r: Base) {
        Base
    }
}

/// Builds a `HookRun` from a builder of its inner runner and a builder of
/// its hook.
pub struct HookRunBuilder<IB, HB> {
    pub inner_builder: IB,
    pub hook_builder: HB,
}

impl<IB, HB, T> Builder<T> for HookRunBuilder<IB, HB> where IB: Builder<T>, HB: Builder<T> {
    type This = HookRun<IB::This, HB::This>;

    open spec fn builds(&self, base: T, out: Self::This) -> bool {
        &&& self.inner_builder.builds(base, out.inner)
        &&& self.hook_builder.builds(base, out.hook)
    }

    fn build(self, base: &T) -> (r: Self::This) {
        HookRun { inner: self.inner_builder.build(base), hook: self.hook_builder.build(base) }
    }
}

/// A hook that does nothing: both its hooks report a skipped result.
#[derive(Debug, Clone, Copy, Default)]
pub struct NoHook;

impl NoHook {
    pub fn new() -> (r: NoHook)
        ensures
            r == NoHook,
    {
        NoHook
    }

    pub fn pre(&mut self) -> (r: TestRes)
        ensures
            r@ == plain(Status::Skip),
    {
        TestRes::default()
    }

    pub fn post(&mut self) -> (r: TestRes)
        ensures
            r@ == plain(Status::Skip),
    {
        TestRes::default()
    }
}

/// A runner that runs a hook before and after each test that its inner
/// runner runs.
#[derive(Clone)]
pub struct HookRun<I, H> {
    pub inner: I,
    pub hook: H,
}

impl<I, H> HookRun<I, H> {
    pub fn new(inner: I, hook: H) -> (r: HookRun<I, H>)
        ensures
            r.inner == inner,
            r.hook == hook,
    {
        HookRun { inner, hook }
    }
}

// ---------------------------------------------------------------------------
// A hooked run of one test: run the `pre` hook; if it failed, skip the test
// and report the `pre` result; else run the test, then the `post` hook.

/// The result of a test run under a `post` hook: the `post` result when the
/// hook failed and the test did not, else the test's result.
pub open spec fn after_post(test: TestRes, post: TestRes) -> TestRes {
    if test.status != Status::Fail && post.status == Status::Fail {
        post
    } else {
        test
    }
}

/// The result of a hooked run, from the results of the `pre` hook, the test
/// and the `post` hook (the last two are not used when `pre` failed).
pub open spec fn hooked_result(pre: TestRes, test: TestRes, post: TestRes) -> TestRes {
    if pre.status == Status::Fail {
        pre
    } else {
        after_post(test, post)
    }
}

/// Combines a test's result with that of the `post` hook run after it.
pub fn after_post_hook(test: TestRes, post: TestRes) -> (r: TestRes)
    ensures
        r == after_post(test, post),
{
    if !test.status.is_fail() && post.status.is_fail() {
        post
    } else {
        test
    }
}

/// What a `pre` hook's result does to the test that follows it: a failing
/// result is reported in its place (`Some`), else the test goes ahead (`None`).
pub fn before_pre_hook(pre: TestRes) -> (r: Option<TestRes>)
    ensures
        r is Some <==> pre.status == Status::Fail,
        r matches Some(x) ==> x == pre,
{
    if pre.status.is_fail() {
        Some(pre)
    } else {
        None
    }
}

/// Whether a `post` hook runs after a test with this result: only after a
/// test that did not fail.
pub fn runs_post_hook(test: &TestRes) -> (r: bool)
    ensures
        r <==> test.status != Status::Fail,
{
    !test.status.is_fail()
}

/// The state of a hooked run.
pub enum HookRunState {
    /// Waiting for the result of the `pre` hook.
    AwaitPre,
    /// The `pre` hook failed with this result; waiting for the test to be skipped.
    AwaitSkip { pre: TestRes },
    /// Waiting for the result of the test.
    AwaitTest,
    /// Waiting for the result of the `post` hook after the test.
    AwaitPost { test: TestRes },
    /// The run is over.
    Done,
}

/// What the runner is to do next.
pub enum HookAction {
    RunPre,
    SkipTest,
    RunTest,
    RunPost,
    /// Report this result; the run is over.
    Finish(TestRes),
}

/// One transition of a hooked run: the state and the result of the last
/// action lead to the next state and action.
pub open spec fn hook_step(s: HookRunState, event: TestRes) -> (HookRunState, HookAction) {
    match s {
        HookRunState::AwaitPre => if event.status == Status::Fail {
            (HookRunState::AwaitSkip { pre: event }, HookAction::SkipTest)
        } else {
            (HookRunState::AwaitTest, HookAction::RunTest)
        },
        HookRunState::AwaitSkip { pre } => (HookRunState::Done, HookAction::Finish(pre)),
        HookRunState::AwaitTest => (HookRunState::AwaitPost { test: event }, HookAction::RunPost),
        HookRunState::AwaitPost { test } => (
            HookRunState::Done,
            HookAction::Finish(after_post(test, event)),
        ),
        HookRunState::Done => (HookRunState::Done, HookAction::Finish(event)),
    }
}

impl HookRunState {
    /// The start of a hooked run: run the `pre` hook.
    pub fn start() -> (r: (HookRunState, HookAction))
        ensures
            r.0 == HookRunState::AwaitPre,
            r.1 == HookAction::RunPre,
    {
        (HookRunState::AwaitPre, HookAction::RunPre)
    }

    /// Takes the result of the last action and says what to do next.
    pub fn step(self, event: TestRes) -> (r: (HookRunState, HookAction))
        requires
            !(self is Done),
        ensures
            r == hook_step(self, event),
    {
        match self {
            HookRunState::AwaitPre => {
                if event.status.is_fail() {
                    (HookRunState::AwaitSkip { pre: event }, HookAction::SkipTest)
                } else {
                    (HookRunState::AwaitTest, HookAction::RunTest)
                }
            },
            HookRunState::AwaitSkip { pre } => (HookRunState::Done, HookAction::Finish(pre)),
            HookRunState::AwaitTest => (HookRunState::AwaitPost { test: event }, HookAction::RunPost),
            HookRunState::AwaitPost { test } => {
                let r = after_post_hook(test, event);
                (HookRunState::Done, HookAction::Finish(r))
            },
            HookRunState::Done => (HookRunState::Done, HookAction::Finish(event)),
        }
    }
}

// ---------------------------------------------------------------------------
// Laws of hooked runs.

/// A failing `pre` hook: the test is skipped (never run), the `post` hook is
/// not run, and the run reports the `pre` result, whatever the skip gave.
pub proof fn law_failed_pre_skips_test(pre: TestRes, skipped: TestRes)
    requires
        pre.status == Status::Fail,
    ensures
        hook_step(HookRunState::AwaitPre, pre) == (
            HookRunState::AwaitSkip { pre },
            HookAction::SkipTest,
        ),
        hook_step(HookRunState::AwaitSkip { pre }, skipped) == (
            HookRunState::Done,
            HookAction::Finish(pre),
        ),
{
}

/// A `pre` hook that does not fail: the test is run, then the `post` hook,
/// and the run reports `hooked_result`.
pub proof fn law_hooked_run(pre: TestRes, test: TestRes, post: TestRes)
    requires
        pre.status != Status::Fail,
    ensures
        hook_step(HookRunState::AwaitPre, pre) == (HookRunState::AwaitTest, HookAction::RunTest),
        hook_step(HookRunState::AwaitTest, test) == (
            HookRunState::AwaitPost { test },
            HookAction::RunPost,
        ),
        hook_step(HookRunState::AwaitPost { test }, post) == (
            HookRunState::Done,
            HookAction::Finish(hooked_result(pre, test, post)),
        ),
{
}

/// A failing test is reported as such, whatever its `post` hook gives; a
/// test that did not fail is reported as the `post` hook's failure when that
/// hook fails, else as itself.
pub proof fn law_post_hook_never_hides_failure(test: TestRes, post: TestRes)
    ensures
        test.status == Status::Fail ==> after_post(test, post) == test,
        test.status != Status::Fail && post.status == Status::Fail ==> after_post(test, post)
            == post,
        post.status != Status::Fail ==> after_post(test, post) == test,
{
}

/// A hook that does nothing (its `pre` and `post` report skipped results,
/// as `NoHook`'s do) leaves a test as it is: the test is run once, never
/// skipped, and the run reports the test's own result.
pub proof fn law_no_hook_is_transparent(pre: TestRes, test: TestRes, post: TestRes)
    requires
        pre@ == plain(Status::Skip),
        post@ == plain(Status::Skip),
    ensures
        hooked_result(pre, test, post) == test,
        hook_step(HookRunState::AwaitPre, pre) == (HookRunState::AwaitTest, HookAction::RunTest),
        hook_step(HookRunState::AwaitTest, test) == (
            HookRunState::AwaitPost { test },
            HookAction::RunPost,
        ),
        hook_step(HookRunState::AwaitPost { test }, post) == (
            HookRunState::Done,
            HookAction::Finish(test),
        ),
{
}

} // verus!
