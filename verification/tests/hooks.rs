use runrun::hooks::{Action, Block, BlockRes, HookRunner, Hooks, Request, Res};
use runrun::outcome::{Status, TestRes};

fn res(status: Status, trace: &str) -> TestRes {
    TestRes { status, trace: trace.to_string() }
}

fn leaf(before: &'static str, t: &'static str, after: &'static str) -> Block<&'static str> {
    Block::new(before, Action::Test(t), after)
}

fn sample() -> Block<&'static str> {
    Block::new("b", Action::Block(vec![leaf("b1", "t1", "a1"), leaf("b2", "t2", "a2")]), "a")
}

/// Drives a run, answering each run request with `answer(node)` and each
/// skip request with a skipped result; returns the requests made.
fn drive(
    run: &mut runrun::hooks::BlockRun<'_, &'static str>,
    answer: impl Fn(&str) -> Status,
) -> Vec<(bool, &'static str)> {
    let mut seen = Vec::new();
    loop {
        let (skipped, node) = match run.next() {
            None => break,
            Some(Request::Run(n)) => (false, *n),
            Some(Request::Skip(n)) => (true, *n),
        };
        seen.push((skipped, node));
        let r = if skipped { res(Status::Skip, node) } else { res(answer(node), node) };
        run.feed(r);
    }
    seen
}

fn traces(r: &BlockRes) -> Vec<String> {
    let mut v = vec![r.before.trace.clone()];
    match &r.test {
        Res::Test(x) => v.push(x.trace.clone()),
        Res::Block(rs) => {
            for b in rs {
                v.extend(traces(b));
            }
        }
    }
    v.push(r.after.trace.clone());
    v
}

#[test]
fn sizes_count_every_node() {
    let b = sample();
    assert_eq!(b.size(), 8);
    assert_eq!(b.checked_size(), Some(8));
    assert_eq!(*b.node(0), "b");
    assert_eq!(*b.node(2), "t1");
    assert_eq!(*b.node(4), "b2");
    assert_eq!(*b.node(7), "a");
}

#[test]
fn all_run_when_nothing_fails() {
    let b = sample();
    let mut run = b.run_block();
    let seen = drive(&mut run, |_| Status::Pass);
    let expected: Vec<(bool, &str)> =
        ["b", "b1", "t1", "a1", "b2", "t2", "a2", "a"].iter().map(|n| (false, *n)).collect();
    assert_eq!(seen, expected);
    let r = run.finish();
    assert_eq!(traces(&r), vec!["b", "b1", "t1", "a1", "b2", "t2", "a2", "a"]);
    assert_eq!(r.before.status, Status::Pass);
}

#[test]
fn failing_before_each_skips_its_test_only() {
    let b = sample();
    let mut run = b.run_block();
    let seen = drive(&mut run, |n| if n == "b1" || n == "t2" { Status::Fail } else { Status::Pass });
    assert_eq!(
        seen,
        vec![
            (false, "b"),
            (false, "b1"),
            (true, "t1"),
            (true, "a1"),
            (false, "b2"),
            (false, "t2"),
            (false, "a2"),
            (false, "a"),
        ]
    );
    let r = run.finish();
    match &r.test {
        Res::Block(rs) => {
            assert_eq!(rs.len(), 2);
            assert_eq!(rs[0].before.status, Status::Fail);
            match &rs[0].test {
                Res::Test(x) => assert_eq!(x.status, Status::Skip),
                Res::Block(_) => panic!("expected a test result"),
            }
            assert_eq!(rs[0].after.status, Status::Skip);
            match &rs[1].test {
                Res::Test(x) => assert_eq!(x.status, Status::Fail),
                Res::Block(_) => panic!("expected a test result"),
            }
        }
        Res::Test(_) => panic!("expected block results"),
    }
}

#[test]
fn failing_outer_before_skips_everything_else() {
    let b = sample();
    let mut run = b.run_block();
    let seen = drive(&mut run, |_| Status::Fail);
    assert_eq!(seen[0], (false, "b"));
    assert!(seen[1..].iter().all(|(skipped, _)| *skipped));
    assert_eq!(seen.len(), 8);
    let r = run.finish();
    assert_eq!(r.after.status, Status::Skip);
}

#[test]
fn skipped_block_skips_everything() {
    let b = sample();
    let mut run = b.skip_block();
    let seen = drive(&mut run, |_| Status::Pass);
    assert!(seen.iter().all(|(skipped, _)| *skipped));
    assert_eq!(seen.len(), 8);
    let r = run.finish();
    assert_eq!(traces(&r), vec!["b", "b1", "t1", "a1", "b2", "t2", "a2", "a"]);
}

#[test]
fn empty_block_list_has_only_hooks() {
    let b: Block<&'static str> = Block::new("b", Action::Block(vec![]), "a");
    assert_eq!(b.size(), 2);
    let mut run = b.run_block();
    let seen = drive(&mut run, |_| Status::Pass);
    assert_eq!(seen, vec![(false, "b"), (false, "a")]);
}

#[derive(Clone)]
struct Named;

impl Hooks<&'static str> for Named {
    type Base = ();
    fn new(_base: ()) -> Self {
        Named
    }
    fn before(&mut self) -> &'static str {
        "before"
    }
    fn before_each(&mut self) -> &'static str {
        "before_each"
    }
    fn after_each(&mut self) -> &'static str {
        "after_each"
    }
    fn after(&mut self) -> &'static str {
        "after"
    }
}

#[test]
fn to_block_wraps_each_test() {
    let mut runner: HookRunner<Named> = HookRunner::new::<&'static str>(());
    let block = runner.to_block(&["t1", "t2", "t3"]);
    assert_eq!(block.before, "before");
    assert_eq!(block.after, "after");
    assert_eq!(block.size(), 11);
    let nodes: Vec<&str> = (0..11).map(|k| *block.node(k)).collect();
    assert_eq!(
        nodes,
        vec![
            "before",
            "before_each",
            "t1",
            "after_each",
            "before_each",
            "t2",
            "after_each",
            "before_each",
            "t3",
            "after_each",
            "after"
        ]
    );
}
