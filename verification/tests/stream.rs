use runrun::outcome::Status;
use runrun::stream::{Driver, Tally, TestStream};

#[test]
fn tally_counts_outcomes() {
    let t = Tally::of(&[Status::Pass, Status::Fail, Status::Pass, Status::Skip, Status::Pass]);
    assert_eq!(t, Tally { pass: 3, fail: 1, skip: 1 });
    assert_eq!(t.total(), 5);
    let e = Tally::of(&[]);
    assert_eq!(e, Tally::new());
    assert_eq!(e.total(), 0);
}

#[test]
fn tally_record_adds_one() {
    let mut t = Tally::new();
    t.record(Status::Fail);
    t.record(Status::Fail);
    t.record(Status::Skip);
    assert_eq!(t, Tally { pass: 0, fail: 2, skip: 1 });
}

#[test]
fn tally_of_concatenation_adds() {
    let a = [Status::Pass, Status::Skip];
    let b = [Status::Pass, Status::Fail, Status::Fail];
    let ab = [Status::Pass, Status::Skip, Status::Pass, Status::Fail, Status::Fail];
    let (ta, tb, tab) = (Tally::of(&a), Tally::of(&b), Tally::of(&ab));
    assert_eq!(tab.pass, ta.pass + tb.pass);
    assert_eq!(tab.fail, ta.fail + tb.fail);
    assert_eq!(tab.skip, ta.skip + tb.skip);
}

#[test]
fn test_stream_yields_in_order() {
    let tests = [10u32, 20, 30];
    let mut s = TestStream::new(&tests, "ctx");
    assert_eq!(*s.ctx(), "ctx");
    assert_eq!(s.next(), Some(&10));
    assert_eq!(s.next(), Some(&20));
    assert_eq!(s.next(), Some(&30));
    assert_eq!(s.next(), None);
    assert_eq!(s.next(), None);
}

#[test]
fn driver_keeps_runner() {
    let d = Driver::new(5u8);
    assert_eq!(*d.get_runner(), 5u8);
}

#[test]
fn test_stream_whole_run() {
    let tests = ["a", "b"];
    let mut s = TestStream::new(&tests, 0u8);
    let got: Vec<Option<&&str>> = (0..5).map(|_| s.next()).collect();
    assert_eq!(got, vec![Some(&"a"), Some(&"b"), None, None, None]);
    assert_eq!(*s.ctx(), 0u8);
}
