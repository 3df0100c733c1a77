use runrun::hook::{
    after_post_hook, before_pre_hook, runs_post_hook, Base, BaseBuilder, Builder, HookAction,
    HookRun, HookRunBuilder, HookRunState, NoHook,
};
use runrun::outcome::{Status, TestRes};

fn res(status: Status, trace: &str) -> TestRes {
    TestRes { status, trace: trace.to_string() }
}

fn finish(a: HookAction) -> TestRes {
    match a {
        HookAction::Finish(r) => r,
        _ => panic!("expected the run to finish"),
    }
}

#[test]
fn failing_pre_skips_test() {
    let (s, a) = HookRunState::start();
    assert!(matches!(a, HookAction::RunPre));
    let (s, a) = s.step(res(Status::Fail, "pre"));
    assert!(matches!(a, HookAction::SkipTest));
    let (s, a) = s.step(res(Status::Skip, "skipped"));
    assert!(matches!(s, HookRunState::Done));
    let r = finish(a);
    assert_eq!(r.status, Status::Fail);
    assert_eq!(r.trace, "pre");
}

#[test]
fn passing_test_with_failing_post() {
    let (s, _) = HookRunState::start();
    let (s, a) = s.step(res(Status::Pass, "pre"));
    assert!(matches!(a, HookAction::RunTest));
    let (s, a) = s.step(res(Status::Pass, "test"));
    assert!(matches!(a, HookAction::RunPost));
    let (_, a) = s.step(res(Status::Fail, "post"));
    let r = finish(a);
    assert_eq!(r.status, Status::Fail);
    assert_eq!(r.trace, "post");
}

#[test]
fn failing_test_not_hidden_by_post() {
    let (s, _) = HookRunState::start();
    let (s, _) = s.step(res(Status::Skip, "pre"));
    let (s, _) = s.step(res(Status::Fail, "test"));
    let (_, a) = s.step(res(Status::Fail, "post"));
    let r = finish(a);
    assert_eq!(r.trace, "test");
}

#[test]
fn passing_post_keeps_test_result() {
    let (s, _) = HookRunState::start();
    let (s, _) = s.step(res(Status::Pass, "pre"));
    let (s, _) = s.step(res(Status::Skip, "test"));
    let (_, a) = s.step(res(Status::Pass, "post"));
    let r = finish(a);
    assert_eq!(r.status, Status::Skip);
    assert_eq!(r.trace, "test");
}

#[test]
fn stream_hook_decisions() {
    assert!(before_pre_hook(res(Status::Pass, "")).is_none());
    assert!(before_pre_hook(res(Status::Skip, "")).is_none());
    let gate = before_pre_hook(res(Status::Fail, "pre failed")).unwrap();
    assert_eq!(gate.trace, "pre failed");
    assert!(runs_post_hook(&res(Status::Pass, "")));
    assert!(runs_post_hook(&res(Status::Skip, "")));
    assert!(!runs_post_hook(&res(Status::Fail, "")));
    assert_eq!(after_post_hook(res(Status::Pass, "t"), res(Status::Fail, "p")).trace, "p");
    assert_eq!(after_post_hook(res(Status::Fail, "t"), res(Status::Fail, "p")).trace, "t");
    assert_eq!(after_post_hook(res(Status::Skip, "t"), res(Status::Pass, "p")).trace, "t");
}

#[test]
fn no_hook_reports_skips() {
    let mut h = NoHook::new();
    assert_eq!(h.pre().status, Status::Skip);
    assert_eq!(h.post().status, Status::Skip);
}

#[test]
fn builders_build_hooked_runs() {
    let b = HookRunBuilder { inner_builder: Base::builder(), hook_builder: BaseBuilder };
    let run: HookRun<Base, Base> = b.build(&7u32);
    let _inner: Base = run.inner;
    let r = HookRun::new(1u8, 2u16);
    assert_eq!(r.inner, 1u8);
    assert_eq!(r.hook, 2u16);
}

#[test]
fn no_hook_run_reports_the_test() {
    let mut h = NoHook::new();
    let (s, _) = HookRunState::start();
    let (s, a) = s.step(h.pre());
    assert!(matches!(a, HookAction::RunTest));
    let (s, a) = s.step(res(Status::Fail, "test"));
    assert!(matches!(a, HookAction::RunPost));
    let (_, a) = s.step(h.post());
    let r = finish(a);
    assert_eq!(r.status, Status::Fail);
    assert_eq!(r.trace, "test");
}
