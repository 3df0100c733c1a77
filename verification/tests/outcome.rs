use runrun::outcome::{Status, Test, TestRes};

#[test]
fn status_predicates() {
    assert!(Status::Pass.is_pass());
    assert!(!Status::Pass.is_fail());
    assert!(!Status::Pass.is_skip());
    assert!(Status::Fail.is_fail());
    assert!(!Status::Fail.is_pass());
    assert!(Status::Skip.is_skip());
    assert!(!Status::Skip.is_fail());
}

#[test]
fn defaults_are_skipped() {
    assert_eq!(Status::default(), Status::Skip);
    let r = TestRes::default();
    assert_eq!(r.status, Status::Skip);
    assert_eq!(r.trace, "");
}

#[test]
fn unit_passes() {
    let r = Test::<u8>::run(&(), 3u8);
    assert_eq!(r.status, Status::Pass);
    assert_eq!(r.trace, "");
    assert_eq!(Test::<u8>::skip(&()).status, Status::Skip);
}

#[test]
fn bool_passes_or_fails() {
    assert_eq!(Test::<()>::run(&true, ()).status, Status::Pass);
    assert_eq!(Test::<()>::run(&false, ()).status, Status::Fail);
    assert_eq!(Test::<()>::skip(&false).status, Status::Skip);
}

#[test]
fn ok_result_is_its_test() {
    let ok: Result<bool, String> = Ok(false);
    assert_eq!(Test::<()>::run(&ok, ()).status, Status::Fail);
    let ok: Result<(), String> = Ok(());
    assert_eq!(Test::<()>::run(&ok, ()).status, Status::Pass);
    assert_eq!(Test::<()>::skip(&ok).status, Status::Skip);
}

#[test]
fn err_result_fails() {
    let err: Result<(), String> = Err("boom".to_string());
    let r = Test::<()>::run(&err, ());
    assert_eq!(r.status, Status::Fail);
    assert_eq!(r.trace, "Test of Err value. We should provide real traces for these.");
    let s = Test::<()>::skip(&err);
    assert_eq!(s.status, Status::Fail);
    assert_eq!(s.trace, "Skip of Err value. We should provide real traces for these.");
}

#[test]
fn references_and_boxes_delegate() {
    let b = true;
    assert_eq!(Test::<()>::run(&&b, ()).status, Status::Pass);
    let boxed: Box<bool> = Box::new(false);
    assert_eq!(Test::<()>::run(&boxed, ()).status, Status::Fail);
}

#[test]
fn duplicate_copies_fields() {
    let r = TestRes { status: Status::Fail, trace: "why".to_string() };
    let d = r.duplicate();
    assert_eq!(d.status, Status::Fail);
    assert_eq!(d.trace, "why");
    let w = TestRes::with_status(Status::Pass);
    assert_eq!(w.status, Status::Pass);
    assert_eq!(w.trace, "");
}
