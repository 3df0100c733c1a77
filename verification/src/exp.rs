//! Small traits over type-level lists: walking a list, naming types, and
//! types that stand for the next type in a chain.
use crate::ty::{One, TCons, TList, TNil, Take1, TakeFn, Zero};
use vstd::prelude::*;

verus! {

pub trait Trait1<T> {
    fn inner() -> T;
}

pub trait Trait2 {
    fn act();

    fn new() -> usize;
}

/// The name of a type, for display.
pub trait Print {
    spec fn name_spec() -> Seq<char>;

    fn name() -> (r: &'static str)
        ensures
            r@ == Self::name_spec(),
    ;
}

impl Print for usize {
    open spec fn name_spec() -> Seq<char> {
        "usize"@
    }

    fn name() -> (r: &'static str) {
        proof {
            reveal_strlit("usize");
        }
        "usize"
    }
}

impl Print for u8 {
    open spec fn name_spec() -> Seq<char> {
        "u8"@
    }

    fn name() -> (r: &'static str) {
        proof {
            reveal_strlit("u8");
        }
        "u8"
    }
}

/// The type that follows a type in a chain.
pub trait NextFn {
    type Out;
}

impl NextFn for usize {
    type Out = u8;
}

impl NextFn for u8 {
    type Out = TNil;
}

pub type Next<T> = <T as NextFn>::Out;

/// The line that a walk over a type-level list prints at each element.
pub open spec fn walk_line_spec() -> Seq<char> {
    "foo"@
}

/// The line that a walk over a type-level list prints at each element.
pub fn walk_line() -> (r: &'static str)
    ensures
        r@ == walk_line_spec(),
{
    proof {
        reveal_strlit("foo");
    }
    "foo"
}

/// Walks a type-level list to its end, which yields nothing. The walk
/// passes each element once, printing `walk_line()` there; `steps` says how
/// many lines that is (the printing itself is the caller's).
pub trait IterIter: TList {
    fn ret() -> (r: Option<()>)
        ensures
            r is None,
    ;

    /// The number of elements the walk passes: the length of the list, when
    /// it fits in a `usize`.
    fn steps() -> (r: Option<usize>)
        ensures
            r is Some <==> Self::len() <= usize::MAX,
            r matches Some(n) ==> n == Self::len(),
    ;
}

impl<H, T: IterIter> IterIter for TCons<H, T> {
    fn ret() -> (r: Option<()>) {
        T::ret()
    }

    fn steps() -> (r: Option<usize>) {
        match T::steps() {
            Some(n) => n.checked_add(1),
            None => None,
        }
    }
}

impl IterIter for TNil {
    fn ret() -> (r: Option<()>) {
        None
    }

    fn steps() -> (r: Option<usize>) {
        Some(0)
    }
}

/// Walks the list `T`, which has a first element.
pub fn map_fn<T>() -> (r: Option<()>)
    where
        T: TakeFn<One> + IterIter,
        Take1<T>: TakeFn<Zero>,
    ensures
        r is None,
{
    T::ret()
}

fn foo<T>()
    where
        T: Trait2 + TakeFn<One>,
{
    let _ = T::new();
}

/// A stream over the types of a list.
pub trait RealStream {}

/// A function of a value `args` and a type `T`, called through a shared
/// reference.
pub trait FnTImm<T, Args> {
    type Out;

    fn call(&self, args: Args) -> Self::Out;
}

/// A list together with a function over its types.
pub struct ConsStream<F, H, T> {
    lst: TCons<H, T>,
    f: F,
}

} // verus!
