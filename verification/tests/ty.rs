use runrun::exp::{map_fn, IterIter, Print};
use runrun::ty::{
    BuilderTSync, DropFn, FnTSync, HeadFn, MapFn, MapTSync, MapToIter, Nat, One, Succ, TCons,
    TNil, TailFn, TakeFn, Zero,
};

type L3 = TCons<u8, TCons<u16, TCons<u32, TNil>>>;

fn l3() -> L3 {
    TCons { head: 1u8, tail: TCons { head: 2u16, tail: TCons { head: 3u32, tail: TNil } } }
}

#[test]
fn head_and_tail() {
    assert_eq!(l3().head(), 1u8);
    assert_eq!(l3().tail().head(), 2u16);
}

#[test]
fn take_and_drop() {
    let t: TCons<u8, TCons<u16, TNil>> = <L3 as TakeFn<Succ<One>>>::take(l3());
    assert_eq!(t.head, 1u8);
    assert_eq!(t.tail.head, 2u16);
    let d: TCons<u32, TNil> = <L3 as DropFn<Succ<One>>>::drop(l3());
    assert_eq!(d.head, 3u32);
    let none: TNil = <L3 as TakeFn<Zero>>::take(l3());
    let _ = none;
}

#[test]
fn nat_values() {
    assert_eq!(<Zero as Nat>::n(), 0);
    assert_eq!(<Succ<Succ<One>> as Nat>::n(), 3);
}

struct Size;

impl<T> FnTSync<T, usize> for Size {
    type Out = usize;
    fn call(&self, args: usize) -> usize {
        args * std::mem::size_of::<T>()
    }
}

#[test]
fn map_over_types() {
    let m = <L3 as MapFn<Size, usize>>::map(&Size, 10);
    assert_eq!(m.head, 10);
    assert_eq!(m.tail.head, 20);
    assert_eq!(m.tail.tail.head, 40);
    let v = <L3 as MapToIter<Size, usize>>::map_to_iter(&Size, 1);
    assert_eq!(v, vec![1, 2, 4]);
}

struct Count;

impl BuilderTSync<u32> for Count {
    type Out = u32;
    fn build<T>(&self, args: u32) -> u32 {
        args + std::mem::size_of::<T>() as u32
    }
}

#[test]
fn map_t_sync_steps_through_types() {
    let mut m = MapTSync::<Count, u32, L3>::new(Count, 100);
    assert_eq!(m.next(), Some(101));
    assert_eq!(m.next(), Some(102));
    assert_eq!(m.next(), Some(104));
    assert_eq!(m.next(), None);
    assert_eq!(m.pos, 3);
}

#[test]
fn walking_a_list_yields_nothing() {
    assert_eq!(map_fn::<L3>(), None);
    assert_eq!(<TNil as IterIter>::ret(), None);
}

#[test]
fn print_names() {
    assert_eq!(<usize as Print>::name(), "usize");
    assert_eq!(<u8 as Print>::name(), "u8");
}

#[test]
fn map_to_iter_over_empty_list_is_empty() {
    let v = <TNil as MapToIter<Size, usize>>::map_to_iter(&Size, 5);
    assert!(v.is_empty());
}

struct NoopBuilder;

impl BuilderTSync<()> for NoopBuilder {
    type Out = usize;
    fn build<T>(&self, _args: ()) -> usize {
        1
    }
}

#[test]
fn map_t_sync_builds_once_per_type() {
    struct Ctx1;
    struct Ctx2;
    let mut m = MapTSync::<NoopBuilder, (), TCons<Ctx1, TCons<Ctx2, TNil>>>::new(NoopBuilder, ());
    assert_eq!(m.next(), Some(1));
    assert_eq!(m.next(), Some(1));
    assert_eq!(m.next(), None);
    assert_eq!(m.next(), None);
}

#[test]
fn take_and_drop_rebuild_the_list() {
    let t: TCons<u8, TNil> = <L3 as TakeFn<One>>::take(l3());
    let d: TCons<u16, TCons<u32, TNil>> = <L3 as DropFn<One>>::drop(l3());
    assert_eq!((t.head, d.head, d.tail.head), (1u8, 2u16, 3u32));
}

#[test]
fn walk_passes_each_element() {
    assert_eq!(<L3 as IterIter>::steps(), Some(3));
    assert_eq!(<TNil as IterIter>::steps(), Some(0));
    assert_eq!(runrun::exp::walk_line(), "foo");
}
