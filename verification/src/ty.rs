//! Type-level lists and natural numbers, and maps of a function over the
//! types of a list. The contexts that tests run on form such lists: each
//! context names the list of its child contexts.
use core::marker::PhantomData;
use vstd::prelude::*;

verus! {

/// The type-level natural number 0.
pub struct Zero;

/// The type-level successor of `N`.
pub struct Succ<N>(pub PhantomData<N>);

pub type One = Succ<Zero>;

/// A type-level natural number, with its value.
pub trait Nat {
    spec fn value() -> nat;

    fn n() -> (r: usize)
        requires
            Self::value() <= usize::MAX,
        ensures
            r == Self::value(),
    ;
}

impl Nat for Zero {
    open spec fn value() -> nat {
        0
    }

    fn n() -> (r: usize) {
        0
    }
}

impl<P: Nat> Nat for Succ<P> {
    open spec fn value() -> nat {
        1 + P::value()
    }

    fn n() -> (r: usize) {
        1 + P::n()
    }
}

/// The type-level number for the constant `N`.
pub trait U<const N: usize> {
    type Nat;
}

/// Turns the constants 0, 1 and 2 into type-level numbers.
pub struct Converter;

impl U<0> for Converter {
    type Nat = Zero;
}

impl U<1> for Converter {
    type Nat = Succ<Zero>;
}

impl U<2> for Converter {
    type Nat = Succ<Succ<Zero>>;
}

/// The predecessor of a nonzero type-level number.
pub trait PredFn {
    type Out;
}

impl<N> PredFn for Succ<N> {
    type Out = N;
}

pub type Pred<N> = <N as PredFn>::Out;

/// The empty list.
pub struct TNil;

/// The list with first element `head` and the rest `tail`.
pub struct TCons<H, T> {
    pub head: H,
    pub tail: T,
}

/// A type-level list, with its length.
pub trait TList {
    spec fn len() -> nat;
}

impl TList for TNil {
    open spec fn len() -> nat {
        0
    }
}

impl<H, T: TList> TList for TCons<H, T> {
    open spec fn len() -> nat {
        1 + T::len()
    }
}

/// The list of the child types of a type: for a context, the contexts that
/// are built from it.
pub trait ChildTypesFn {
    type Out;
}

pub type ChildTypes<T> = <T as ChildTypesFn>::Out;

/// A nonempty list.
pub trait Elem {}

impl<H, T: Elem> Elem for TCons<H, T> {}

impl<H> Elem for TCons<H, TNil> {}

/// The first element of a nonempty list.
pub trait HeadFn: Sized {
    type Out;

    spec fn head_of(&self) -> Self::Out;

    fn head(self) -> (r: Self::Out)
        ensures
            r == self.head_of(),
    ;
}

impl<H, T> HeadFn for TCons<H, T> {
    type Out = H;

    open spec fn head_of(&self) -> H {
        self.head
    }

    fn head(self) -> (r: H) {
        self.head
    }
}

pub type Head<T> = <T as HeadFn>::Out;

/// A nonempty list without its first element.
pub trait TailFn: Sized {
    type Out;

    spec fn tail_of(&self) -> Self::Out;

    fn tail(self) -> (r: Self::Out)
        ensures
            r == self.tail_of(),
    ;
}

impl<H, T> TailFn for TCons<H, T> {
    type Out = T;

    open spec fn tail_of(&self) -> T {
        self.tail
    }

    fn tail(self) -> (r: T) {
        self.tail
    }
}

pub type Tail<T> = <T as TailFn>::Out;

/// The first `N` elements of a list.
pub trait TakeFn<N>: Sized {
    type Out;
    type Rest;

    spec fn taken(&self) -> Self::Out;

    fn take(self) -> (r: Self::Out)
        ensures
            r == self.taken(),
    ;
}

impl<T> TakeFn<Zero> for T {
    type Out = TNil;
    type Rest = T;

    open spec fn taken(&self) -> TNil {
        TNil
    }

    fn take(self) -> (r: TNil) {
        TNil
    }
}

impl<N, H, T> TakeFn<N> for TCons<H, T> where N: PredFn, T: TakeFn<Pred<N>> {
    type Out = TCons<H, <T as TakeFn<Pred<N>>>::Out>;
    type Rest = <T as TakeFn<Pred<N>>>::Rest;

    open spec fn taken(&self) -> Self::Out {
        TCons { head: self.head, tail: self.tail.taken() }
    }

    fn take(self) -> (r: Self::Out) {
        TCons { head: self.head, tail: self.tail.take() }
    }
}

pub type Take<N, T> = <T as TakeFn<N>>::Out;

pub type Take1<T> = Take<One, T>;

/// A list without its first `N` elements.
pub trait DropFn<N>: Sized {
    type Out;

    spec fn dropped(&self) -> Self::Out;

    fn drop(self) -> (r: Self::Out)
        ensures
            r == self.dropped(),
    ;
}

impl<T> DropFn<Zero> for T {
    type Out = T;

    open spec fn dropped(&self) -> T {
        *self
    }

    fn drop(self) -> (r: T) {
        self
    }
}

impl<N, H, T> DropFn<N> for TCons<H, T> where N: PredFn, T: DropFn<Pred<N>> {
    type Out = <T as DropFn<Pred<N>>>::Out;

    open spec fn dropped(&self) -> Self::Out {
        self.tail.dropped()
    }

    fn drop(self) -> (r: Self::Out) {
        self.tail.drop()
    }
}

pub type Drop<N, T> = <T as DropFn<N>>::Out;

pub type Drop1<T> = Drop<One, T>;

/// Appending a list `R` to a list.
pub trait AppendFn<R>: Sized {
    type Out;

    spec fn appended(self, r: R) -> Self::Out;
}

impl<R> AppendFn<R> for TNil {
    type Out = R;

    open spec fn appended(self, r: R) -> R {
        r
    }
}

impl<H, T, R> AppendFn<R> for TCons<H, T> where T: AppendFn<R> {
    type Out = TCons<H, <T as AppendFn<R>>::Out>;

    open spec fn appended(self, r: R) -> Self::Out {
        TCons { head: self.head, tail: self.tail.appended(r) }
    }
}

/// Taking the first `N` elements of a list and dropping them are two halves
/// of the list.
pub trait TakeDrop<N>: TakeFn<N> + DropFn<N> where
    <Self as TakeFn<N>>::Out: AppendFn<<Self as DropFn<N>>::Out, Out = Self>,
 {
    /// The first `N` elements of a list, followed by the rest, are the list.
    proof fn law_take_drop_rebuild(self)
        ensures
            self.taken().appended(self.dropped()) == self,
    ;
}

impl<T> TakeDrop<Zero> for T {
    proof fn law_take_drop_rebuild(self) {
    }
}

impl<N, H, T> TakeDrop<N> for TCons<H, T> where
    N: PredFn,
    T: TakeDrop<Pred<N>>,
    <T as TakeFn<Pred<N>>>::Out: AppendFn<<T as DropFn<Pred<N>>>::Out, Out = T>,
 {
    proof fn law_take_drop_rebuild(self) {
        self.tail.law_take_drop_rebuild();
    }
}

/// A function of a value `args` and a type `T`.
///
/// `call_ok(args, out)` says that `out` is a value that `call` may return
/// for `args`; a function that says nothing more admits every value.
pub trait FnTSync<T, Args> {
    type Out;

    open spec fn call_ok(&self, args: Args, out: Self::Out) -> bool {
        true
    }

    fn call(&self, args: Args) -> (r: Self::Out)
        ensures
            self.call_ok(args, r),
    ;
}

/// Maps a function over the types of a list, into the list of its results.
///
/// `map_ok(f, args, out)` says that `out` is the list of results that `map`
/// may return: one result of `f` per type of the list, in order.
pub trait MapFn<F, Args> {
    type Out;

    spec fn map_ok(f: &F, args: Args, out: Self::Out) -> bool;

    fn map(f: &F, args: Args) -> (r: Self::Out)
        ensures
            Self::map_ok(f, args, r),
    ;
}

impl<F, Args, H, T> MapFn<F, Args> for TCons<H, T> where
    T: MapFn<F, Args> + Elem + HeadFn,
    F: FnTSync<H, Args>,
    Args: Clone,
 {
    type Out = TCons<<F as FnTSync<H, Args>>::Out, <T as MapFn<F, Args>>::Out>;

    /// The head is a result of `f` for the first type, on a clone of `args`;
    /// the tail is the map over the rest of the list.
    open spec fn map_ok(f: &F, args: Args, out: Self::Out) -> bool {
        &&& exists|a: Args| cloned(args, a) && <F as FnTSync<H, Args>>::call_ok(f, a, out.head)
        &&& <T as MapFn<F, Args>>::map_ok(f, args, out.tail)
    }

    fn map(f: &F, args: Args) -> (r: Self::Out) {
        let a = args.clone();
        let head = <F as FnTSync<H, Args>>::call(f, a);
        assert(cloned(args, a));
        TCons { head, tail: <T as MapFn<F, Args>>::map(f, args) }
    }
}

impl<F, Args, H> MapFn<F, Args> for TCons<H, TNil> where F: FnTSync<H, Args> {
    type Out = TCons<<F as FnTSync<H, Args>>::Out, TNil>;

    /// The only element is a result of `f` for the one type, on `args`.
    open spec fn map_ok(f: &F, args: Args, out: Self::Out) -> bool {
        <F as FnTSync<H, Args>>::call_ok(f, args, out.head)
    }

    fn map(f: &F, args: Args) -> (r: Self::Out) {
        TCons { head: <F as FnTSync<H, Args>>::call(f, args), tail: TNil }
    }
}

impl<F, Args> MapFn<F, Args> for TNil {
    type Out = TNil;

    open spec fn map_ok(f: &F, args: Args, out: TNil) -> bool {
        true
    }

    fn map(f: &F, args: Args) -> TNil {
        TNil
    }
}

/// Maps a function over the types of a list, into a vector of its results,
/// one per type, in order.
pub trait MapToIter<F, Args>: TList {
    type Item;

    /// `out` is a value that `f` may give, on a clone of `args`, for the
    /// type at position `i` of the list.
    spec fn item_ok(f: &F, args: Args, i: int, out: Self::Item) -> bool;

    fn map_to_iter(f: &F, args: Args) -> (r: Vec<Self::Item>)
        ensures
            r.len() == Self::len(),
            forall|i: int| 0 <= i < r.len() ==> #[trigger] Self::item_ok(f, args, i, r@[i]),
    ;
}

impl<F, Args, H, T> MapToIter<F, Args> for TCons<H, T> where
    F: FnTSync<H, Args>,
    T: MapToIter<F, Args, Item = <F as FnTSync<H, Args>>::Out> + HeadFn,
    Args: Clone,
 {
    type Item = <F as FnTSync<H, Args>>::Out;

    /// Position 0 is the head type; the rest are the tail's.
    open spec fn item_ok(f: &F, args: Args, i: int, out: Self::Item) -> bool {
        if i == 0 {
            exists|a: Args| cloned(args, a) && #[trigger] f.call_ok(a, out)
        } else {
            T::item_ok(f, args, i - 1, out)
        }
    }

    fn map_to_iter(f: &F, args: Args) -> (r: Vec<Self::Item>) {
        let a = args.clone();
        let head = <F as FnTSync<H, Args>>::call(f, a);
        assert(cloned(args, a));
        let mut rest = <T as MapToIter<F, Args>>::map_to_iter(f, args);
        let ghost rest0 = rest@;
        let mut v = Vec::new();
        v.push(head);
        v.append(&mut rest);
        assert forall|i: int| 0 <= i < v.len() implies #[trigger] Self::item_ok(f, args, i, v@[i]) by {
            if i > 0 {
                assert(v@[i] == rest0[i - 1]);
            }
        }
        v
    }
}

impl<F, Args, H> MapToIter<F, Args> for TCons<H, TNil> where F: FnTSync<H, Args>, Args: Clone {
    type Item = <F as FnTSync<H, Args>>::Out;

    open spec fn item_ok(f: &F, args: Args, i: int, out: Self::Item) -> bool {
        i == 0 && exists|a: Args| cloned(args, a) && #[trigger] f.call_ok(a, out)
    }

    fn map_to_iter(f: &F, args: Args) -> (r: Vec<Self::Item>) {
        let a = args.clone();
        let head = <F as FnTSync<H, Args>>::call(f, a);
        assert(cloned(args, a));
        let mut v = Vec::new();
        v.push(head);
        v
    }
}

/// Over the empty list, the map gives nothing.
impl<F, Args> MapToIter<F, Args> for TNil where F: FnTSync<TNil, Args> {
    type Item = <F as FnTSync<TNil, Args>>::Out;

    open spec fn item_ok(f: &F, args: Args, i: int, out: Self::Item) -> bool {
        false
    }

    fn map_to_iter(f: &F, args: Args) -> (r: Vec<Self::Item>) {
        Vec::new()
    }
}

/// Builds a value from `args` for a type `T` that the caller picks.
///
/// `builds_ok::<T>(args, out)` says that `out` is a value that `build::<T>`
/// may return for `args`; a builder that says nothing more admits every value.
pub trait BuilderTSync<Args> {
    type Out;

    open spec fn builds_ok<T>(&self, args: Args, out: Self::Out) -> bool {
        true
    }

    fn build<T>(&self, args: Args) -> (r: Self::Out)
        ensures
            self.builds_ok::<T>(args, r),
    ;
}

/// A builder applied to the type at a position of a list.
///
/// `built_at(f, args, i, out)` says that `out` is a value that `f` may build
/// from `args` for the type at position `i` of the list.
pub trait MapNextSync<F, Args>: TList where F: BuilderTSync<Args> {
    spec fn built_at(f: &F, args: Args, i: int, out: F::Out) -> bool;

    /// The result of `F` for the type at position `i`, if the list has one.
    fn map_next(f: &F, args: Args, i: usize) -> (r: Option<F::Out>)
        ensures
            r is Some <==> i < Self::len(),
            r matches Some(x) ==> Self::built_at(f, args, i as int, x),
    ;
}

impl<F, Args> MapNextSync<F, Args> for TNil where F: BuilderTSync<Args> {
    open spec fn built_at(f: &F, args: Args, i: int, out: F::Out) -> bool {
        false
    }

    fn map_next(f: &F, args: Args, i: usize) -> (r: Option<F::Out>) {
        None
    }
}

impl<F, Args, H, T> MapNextSync<F, Args> for TCons<H, T> where
    F: BuilderTSync<Args>,
    T: MapNextSync<F, Args>,
 {
    /// Position 0 is the head type; the rest are the tail's.
    open spec fn built_at(f: &F, args: Args, i: int, out: F::Out) -> bool {
        if i == 0 {
            f.builds_ok::<H>(args, out)
        } else {
            T::built_at(f, args, i - 1, out)
        }
    }

    fn map_next(f: &F, args: Args, i: usize) -> (r: Option<F::Out>) {
        if i == 0 {
            Some(f.build::<H>(args))
        } else {
            T::map_next(f, args, i - 1)
        }
    }
}

/// One step of a map of `f` over the types of `Lst` at position `pos`:
/// while a type is left, a value that `f` may build for it (on a clone of
/// `args`) and the next position; at the end, nothing and the same position.
pub open spec fn map_step_ok<F, Args, Lst>(
    f: F,
    args: Args,
    pos: nat,
    out: Option<F::Out>,
    next: nat,
) -> bool where F: BuilderTSync<Args>, Lst: MapNextSync<F, Args>, Args: Clone {
    &&& (out is Some <==> pos < Lst::len())
    &&& (out matches Some(x) ==> exists|a: Args|
        cloned(args, a) && #[trigger] Lst::built_at(&f, a, pos as int, x))
    &&& next == if pos < Lst::len() {
        pos + 1
    } else {
        pos
    }
}

/// `outs` are the results of successive steps of a map of `f` over the
/// types of `Lst`, from position `pos`.
pub open spec fn map_run_ok<F, Args, Lst>(
    f: F,
    args: Args,
    pos: nat,
    outs: Seq<Option<F::Out>>,
) -> bool where F: BuilderTSync<Args>, Lst: MapNextSync<F, Args>, Args: Clone
    decreases outs.len(),
{
    if outs.len() == 0 {
        true
    } else {
        let next = if pos < Lst::len() {
            pos + 1
        } else {
            pos
        };
        &&& map_step_ok::<F, Args, Lst>(f, args, pos, outs[0], next)
        &&& map_run_ok::<F, Args, Lst>(f, args, next, outs.drop_first())
    }
}

proof fn lemma_map_run<F, Args, Lst>(f: F, args: Args, pos: nat, outs: Seq<Option<F::Out>>)
    where
        F: BuilderTSync<Args>,
        Lst: MapNextSync<F, Args>,
        Args: Clone,
    requires
        map_run_ok::<F, Args, Lst>(f, args, pos, outs),
    ensures
        forall|j: int|
            0 <= j < outs.len() ==> {
                &&& (pos + j < Lst::len() ==> (#[trigger] outs[j] matches Some(x) && exists|a: Args|
                    cloned(args, a) && #[trigger] Lst::built_at(&f, a, pos + j, x)))
                &&& (pos + j >= Lst::len() ==> outs[j] is None)
            },
    decreases outs.len(),
{
    if outs.len() > 0 {
        let next = if pos < Lst::len() {
            pos + 1
        } else {
            pos
        };
        lemma_map_run::<F, Args, Lst>(f, args, next, outs.drop_first());
        assert forall|j: int| 0 < j < outs.len() implies outs[j] == outs.drop_first()[j - 1] by {}
        if pos >= Lst::len() {
            assert forall|j: int| 0 <= j < outs.len() implies outs[j] is None by {
                if j > 0 {
                    assert(outs[j] == outs.drop_first()[j - 1]);
                }
            }
        }
    }
}

/// A map of a builder over the types of a list, run from its start, gives
/// for each type of the list in turn a value that the builder may build for
/// it (on a clone of the arguments), and nothing after the last type.
pub proof fn law_map_t_sync_builds_each_type_in_order<F, Args, Lst>(
    f: F,
    args: Args,
    outs: Seq<Option<F::Out>>,
)
    where
        F: BuilderTSync<Args>,
        Lst: MapNextSync<F, Args>,
        Args: Clone,
    requires
        map_run_ok::<F, Args, Lst>(f, args, 0, outs),
    ensures
        forall|j: int|
            0 <= j < outs.len() && j < Lst::len() ==> (#[trigger] outs[j] matches Some(x) && exists|
                a: Args,
            | cloned(args, a) && #[trigger] Lst::built_at(&f, a, j, x)),
        forall|j: int| 0 <= j < outs.len() && j >= Lst::len() ==> #[trigger] outs[j] is None,
{
    lemma_map_run::<F, Args, Lst>(f, args, 0, outs);
}

/// Maps a builder over the types of the list `Lst`, one type per call of
/// `next`, in order.
pub struct MapTSync<F, Args, Lst> {
    pub f: F,
    pub args: Args,
    /// How many types have been mapped.
    pub pos: usize,
    pub lst: PhantomData<Lst>,
}

impl<F, Args, Lst> MapTSync<F, Args, Lst> where F: BuilderTSync<Args>, Lst: MapNextSync<F, Args> {
    pub fn new(f: F, args: Args) -> (r: MapTSync<F, Args, Lst>)
        ensures
            r.f == f,
            r.args == args,
            r.pos == 0,
    {
        MapTSync { f, args, pos: 0, lst: PhantomData }
    }

    /// The result of the builder for the next type of the list, if any is
    /// left.
    pub fn next(&mut self) -> (r: Option<F::Out>)
        where
            Args: Clone,
        requires
            old(self).pos < usize::MAX,
        ensures
            r is Some <==> old(self).pos < Lst::len(),
            r matches Some(x) ==> exists|a: Args|
                cloned(old(self).args, a) && #[trigger] Lst::built_at(
                    &old(self).f,
                    a,
                    old(self).pos as int,
                    x,
                ),
            map_step_ok::<F, Args, Lst>(
                old(self).f,
                old(self).args,
                old(self).pos as nat,
                r,
                final(self).pos as nat,
            ),
            final(self).f == old(self).f,
            final(self).args == old(self).args,
            final(self).pos == if old(self).pos < Lst::len() {
                old(self).pos + 1
            } else {
                old(self).pos as int
            },
    {
        let a = self.args.clone();
        assert(cloned(self.args, a));
        let r = Lst::map_next(&self.f, a, self.pos);
        if r.is_some() {
            self.pos = self.pos + 1;
        }
        r
    }
}

/// `F` can be applied to every type of the list `Lst`.
pub trait MapAll<Args, Lst> {}

impl<F, Args> MapAll<Args, TNil> for F {}

impl<Args, F, H, T> MapAll<Args, TCons<H, T>> for F where F: FnTSync<H, Args> + MapAll<Args, T> {}

/// Mapping a builder over a list builds, at position 0, for the list's first
/// type, and at each later position `i`, what the rest of the list builds at
/// `i - 1`; the empty list builds nothing anywhere.
pub proof fn law_map_next_builds_for_each_type<F, Args, H, T>(f: &F, args: Args, i: int, out: F::Out)
    where
        F: BuilderTSync<Args>,
        T: MapNextSync<F, Args>,
    ensures
        <TCons<H, T> as MapNextSync<F, Args>>::built_at(f, args, 0, out) == f.builds_ok::<H>(
            args,
            out,
        ),
        i > 0 ==> <TCons<H, T> as MapNextSync<F, Args>>::built_at(f, args, i, out)
            == T::built_at(f, args, i - 1, out),
        !<TNil as MapNextSync<F, Args>>::built_at(f, args, i, out),
{
}

/// Mapping a function over a list into a vector gives, at position 0, a
/// result of the function for the list's first type (on a clone of the
/// arguments), and at each later position `i`, what the rest of the list
/// gives at `i - 1`; the empty list gives nothing.
pub proof fn law_map_to_iter_orders_by_type<F, Args, H, T>(f: &F, args: Args, i: int, out: <F as FnTSync<H, Args>>::Out)
    where
        F: FnTSync<H, Args>,
        T: MapToIter<F, Args, Item = <F as FnTSync<H, Args>>::Out> + HeadFn,
        Args: Clone,
    ensures
        <TCons<H, T> as MapToIter<F, Args>>::item_ok(f, args, 0, out) == exists|a: Args|
            cloned(args, a) && #[trigger] f.call_ok(a, out),
        i > 0 ==> <TCons<H, T> as MapToIter<F, Args>>::item_ok(f, args, i, out) == T::item_ok(
            f,
            args,
            i - 1,
            out,
        ),
        <TCons<H, TNil> as MapToIter<F, Args>>::item_ok(f, args, 0, out) == exists|a: Args|
            cloned(args, a) && #[trigger] f.call_ok(a, out),
        i != 0 ==> !<TCons<H, TNil> as MapToIter<F, Args>>::item_ok(f, args, i, out),
{
}

/// The empty list maps to an empty vector: no position holds a result.
pub proof fn law_map_to_iter_empty<F, Args>(f: &F, args: Args, i: int, out: <F as FnTSync<TNil, Args>>::Out)
    where
        F: FnTSync<TNil, Args>,
    ensures
        !<TNil as MapToIter<F, Args>>::item_ok(f, args, i, out),
        <TNil as TList>::len() == 0,
{
}

/// Mapping a function over a list into a list of results puts a result of
/// the function for the first type (on a clone of the arguments) at the head,
/// and the map over the rest of the list at the tail.
pub proof fn law_map_fn_head_then_tail<F, Args, H, T>(
    f: &F,
    args: Args,
    out: TCons<<F as FnTSync<H, Args>>::Out, <T as MapFn<F, Args>>::Out>,
)
    where
        T: MapFn<F, Args> + Elem + HeadFn,
        F: FnTSync<H, Args>,
        Args: Clone,
    ensures
        <TCons<H, T> as MapFn<F, Args>>::map_ok(f, args, out) == (
            (exists|a: Args| cloned(args, a) && #[trigger] f.call_ok(a, out.head))
                && T::map_ok(f, args, out.tail)),
{
}

} // verus!
