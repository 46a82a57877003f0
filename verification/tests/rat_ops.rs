use frameview::rat::Rat;

#[test]
fn new_reduces_to_canonical_form() {
    let r = Rat::new(2, 4);
    assert_eq!((r.n, r.d), (1, 2));
    let r = Rat::new(-900, 100000);
    assert_eq!((r.n, r.d), (-9, 1000));
    let r = Rat::new(0, 7);
    assert_eq!((r.n, r.d), (0, 1));
}

#[test]
fn exact_field_operations() {
    let third = Rat::new(1, 3);
    let sixth = Rat::new(1, 6);
    let sum = third.plus(sixth);
    assert_eq!((sum.n, sum.d), (1, 2));
    let diff = third.minus(sixth);
    assert_eq!((diff.n, diff.d), (1, 6));
    let prod = Rat::new(2, 3).times(Rat::new(3, 4));
    assert_eq!((prod.n, prod.d), (1, 2));
    let quot = Rat::new(1, 2).div_by(Rat::new(-3, 4));
    assert_eq!((quot.n, quot.d), (-2, 3));
}

#[test]
fn comparisons_and_extrema() {
    let a = Rat::new(1, 3);
    let b = Rat::new(1, 2);
    assert!(a.lt(b));
    assert!(!b.lt(a));
    assert!(!a.lt(a));
    let mn = a.min_with(b);
    assert_eq!((mn.n, mn.d), (1, 3));
    let mx = a.max_with(b);
    assert_eq!((mx.n, mx.d), (1, 2));
    let neg = Rat::new(-7, 2);
    assert!(neg.lt(a));
}

#[test]
fn from_int_is_whole() {
    let r = Rat::from_int(-5);
    assert_eq!((r.n, r.d), (-5, 1));
}
