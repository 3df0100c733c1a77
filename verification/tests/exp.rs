use runrun::ty::{TCons, TNil, Take1, TakeFn, One};

#[test]
fn test_exp() {
    // in between every print statement, want to print something else
    type T = TCons<usize, TCons<u8, TCons<usize, TNil>>>;
    type Next1 = Take1<T>;
    type Next2 = Take1<Next1>;
    type Next3 = Take1<Next2>;
    let list: T = TCons { head: 1usize, tail: TCons { head: 2u8, tail: TCons { head: 3usize, tail: TNil } } };
    let n1: Next1 = <T as TakeFn<One>>::take(list);
    let n2: Next2 = <Next1 as TakeFn<One>>::take(n1);
    let n3: Next3 = <Next2 as TakeFn<One>>::take(n2);
    assert_eq!(n3.head, 1usize);
}
