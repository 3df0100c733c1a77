use vstd::prelude::*;

verus! {

/// The outcome of a single test or hook.
#[derive(Debug, Clone, Copy, PartialEq, Eq, Structural)]
pub enum Status {
    Pass,
    Fail,
    Skip,
}

impl Status {
    pub fn is_pass(&self) -> (r: bool)
        ensures
            r <==> *self == Status::Pass,
    {
        match self {
            Status::Pass => true,
            _ => false,
        }
    }

    pub fn is_fail(&self) -> (r: bool)
        ensures
            r <==> *self == Status::Fail,
    {
        match self {
            Status::Fail => true,
            _ => false,
        }
    }

    pub fn is_skip(&self) -> (r: bool)
        ensures
            r <==> *self == Status::Skip,
    {
        match self {
            Status::Skip => true,
            _ => false,
        }
    }
}

impl Default for Status {
    /// A test that was not run is skipped.
    fn default() -> (r: Self)
        ensures
            r == Status::Skip,
    {
        Status::Skip
    }
}

/// The result of running (or skipping) a test: its status and a trace
/// describing what happened.
#[derive(Debug)]
pub struct TestRes {
    pub status: Status,
    pub trace: String,
}

impl View for TestRes {
    type V = (Status, Seq<char>);

    open spec fn view(&self) -> (Status, Seq<char>) {
        (self.status, self.trace@)
    }
}

/// A result with the given status and an empty trace.
pub open spec fn plain(status: Status) -> (Status, Seq<char>) {
    (status, Seq::<char>::empty())
}

/// Trace of a test whose value was an `Err`.
pub open spec fn err_run_trace() -> Seq<char> {
    "Test of Err value. We should provide real traces for these."@
}

/// Trace of a skipped test whose value was an `Err`.
pub open spec fn err_skip_trace() -> Seq<char> {
    "Skip of Err value. We should provide real traces for these."@
}

impl Default for TestRes {
    fn default() -> (r: Self)
        ensures
            r@ == plain(Status::Skip),
    {
        TestRes { status: Status::Skip, trace: String::new() }
    }
}

impl TestRes {
    /// A result with the given status and an empty trace.
    pub fn with_status(status: Status) -> (r: TestRes)
        ensures
            r@ == plain(status),
    {
        TestRes { status, trace: String::new() }
    }

    /// A field-by-field copy of this result.
    pub fn duplicate(&self) -> (r: TestRes)
        ensures
            r == *self,
    {
        TestRes { status: self.status, trace: self.trace.clone() }
    }
}

/// Something whose evaluation yields a test result: the values that test
/// functions return (`()`, `bool`, `Result`), and references or boxes of them.
///
/// `run_spec` and `skip_spec` say what `run` and `skip` give back.
pub trait Test<In> {
    spec fn run_spec(&self, args: In) -> (Status, Seq<char>);

    /// Unless a test says otherwise, skipping it reports `Skip`.
    open spec fn skip_spec(&self) -> (Status, Seq<char>) {
        plain(Status::Skip)
    }

    fn run(&self, args: In) -> (r: TestRes)
        ensures
            r@ == self.run_spec(args),
    ;

    fn skip(&self) -> (r: TestRes)
        ensures
            r@ == self.skip_spec(),
    ;
}

/// `()` is a passing test.
impl<In> Test<In> for () {
    open spec fn run_spec(&self, args: In) -> (Status, Seq<char>) {
        plain(Status::Pass)
    }

    fn run(&self, args: In) -> (r: TestRes) {
        TestRes::with_status(Status::Pass)
    }

    fn skip(&self) -> (r: TestRes) {
        TestRes::default()
    }
}

/// `true` is a passing test, `false` a failing one.
impl<In> Test<In> for bool {
    open spec fn run_spec(&self, args: In) -> (Status, Seq<char>) {
        plain(if *self { Status::Pass } else { Status::Fail })
    }

    fn run(&self, args: In) -> (r: TestRes) {
        let status = if *self { Status::Pass } else { Status::Fail };
        TestRes::with_status(status)
    }

    fn skip(&self) -> (r: TestRes) {
        TestRes::default()
    }
}

/// An `Ok` value is the test it holds; an `Err` value fails, whether run or skipped.
impl<T: Test<In>, E, In> Test<In> for Result<T, E> {
    open spec fn run_spec(&self, args: In) -> (Status, Seq<char>) {
        match self {
            Ok(t) => t.run_spec(args),
            Err(_) => (Status::Fail, err_run_trace()),
        }
    }

    open spec fn skip_spec(&self) -> (Status, Seq<char>) {
        match self {
            Ok(t) => t.skip_spec(),
            Err(_) => (Status::Fail, err_skip_trace()),
        }
    }

    fn run(&self, args: In) -> (r: TestRes) {
        match self {
            Ok(t) => t.run(args),
            Err(_) => {
                let trace = String::from_str("Test of Err value. We should provide real traces for these.");
                proof {
                    reveal_strlit("Test of Err value. We should provide real traces for these.");
                }
                TestRes { status: Status::Fail, trace }
            },
        }
    }

    fn skip(&self) -> (r: TestRes) {
        match self {
            Ok(t) => t.skip(),
            Err(_) => {
                let trace = String::from_str("Skip of Err value. We should provide real traces for these.");
                proof {
                    reveal_strlit("Skip of Err value. We should provide real traces for these.");
                }
                TestRes { status: Status::Fail, trace }
            },
        }
    }
}

/// A reference to a test is that test.
impl<'a, T: Test<In>, In> Test<In> for &'a T {
    open spec fn run_spec(&self, args: In) -> (Status, Seq<char>) {
        (**self).run_spec(args)
    }

    open spec fn skip_spec(&self) -> (Status, Seq<char>) {
        (**self).skip_spec()
    }

    fn run(&self, args: In) -> (r: TestRes) {
        (**self).run(args)
    }

    fn skip(&self) -> (r: TestRes) {
        (**self).skip()
    }
}

/// A mutable reference to a test is that test.
impl<'a, T: Test<In>, In> Test<In> for &'a mut T {
    open spec fn run_spec(&self, args: In) -> (Status, Seq<char>) {
        (**self).run_spec(args)
    }

    open spec fn skip_spec(&self) -> (Status, Seq<char>) {
        (**self).skip_spec()
    }

    fn run(&self, args: In) -> (r: TestRes) {
        (**self).run(args)
    }

    fn skip(&self) -> (r: TestRes) {
        (**self).skip()
    }
}

/// A boxed test is that test.
impl<T: Test<In>, In> Test<In> for Box<T> {
    open spec fn run_spec(&self, args: In) -> (Status, Seq<char>) {
        (**self).run_spec(args)
    }

    open spec fn skip_spec(&self) -> (Status, Seq<char>) {
        (**self).skip_spec()
    }

    fn run(&self, args: In) -> (r: TestRes) {
        (**self).run(args)
    }

    fn skip(&self) -> (r: TestRes) {
        (**self).skip()
    }
}

/// A reference to a test is that test: running or skipping it gives what
/// the test itself gives.
pub proof fn law_reference_is_the_test<T: Test<In>, In>(t: &T, args: In)
    ensures
        <&T as Test<In>>::run_spec(&t, args) == <T as Test<In>>::run_spec(t, args),
        <&T as Test<In>>::skip_spec(&t) == <T as Test<In>>::skip_spec(t),
{
}

/// A mutable reference to a test is that test: running or skipping it gives
/// what the test itself gives.
pub proof fn law_mut_reference_is_the_test<'a, T: Test<In>, In>(t: &'a mut T, args: In)
    ensures
        <&'a mut T as Test<In>>::run_spec(&old(t), args) == <T as Test<In>>::run_spec(
            &*old(t),
            args,
        ),
        <&'a mut T as Test<In>>::skip_spec(&old(t)) == <T as Test<In>>::skip_spec(&*old(t)),
{
}

/// A boxed test is that test: running or skipping the box gives what the
/// test inside gives.
pub proof fn law_box_is_the_test<T: Test<In>, In>(b: Box<T>, args: In)
    ensures
        <Box<T> as Test<In>>::run_spec(&b, args) == <T as Test<In>>::run_spec(&*b, args),
        <Box<T> as Test<In>>::skip_spec(&b) == <T as Test<In>>::skip_spec(&*b),
{
}

} // verus!
