use difference::plus_equals_slice;
use difference::Abelian;
use difference::IsZero;
use difference::Monoid;
use difference::Multiply;
use difference::Present;
use difference::Semigroup;
use difference::WrappingI32;
use difference::WrappingI64;
use difference::WrappingI8;

#[test]
fn test_semigroup_vec() {
    let mut a = vec![1, 2, 3];
    plus_equals_slice(&mut a, [1, 1, 1, 1].as_slice());
    assert_eq!(vec![2, 3, 4, 1], a);
}

#[test]
fn monoid_zero_is_zero_for_integers() {
    let z64: i64 = Monoid::zero();
    assert!(z64.is_zero());
    let zu32: u32 = Monoid::zero();
    assert!(zu32.is_zero());
    let zw: WrappingI64 = Monoid::zero();
    assert!(zw.is_zero());
}

#[test]
fn monoid_plus_zero_is_identity() {
    let mut x: i64 = 42;
    let z: i64 = Monoid::zero();
    x.plus_equals(&z);
    assert_eq!(x, 42);

    let mut v: Vec<i64> = vec![7, -3];
    let zv: Vec<i64> = Monoid::zero();
    v.plus_equals(&zv);
    assert_eq!(v, vec![7, -3]);
    assert!(zv.is_zero());
}

#[test]
fn abelian_negate_then_add_cancels() {
    let mut x: i32 = 17;
    let original_x: i32 = x.twin();
    x.negate();
    x.plus_equals(&original_x);
    assert!(x.is_zero());

    let mut w = WrappingI32 { value: -95 };
    let original_w = w.twin();
    w.negate();
    w.plus_equals(&original_w);
    assert!(w.is_zero());

    let mut v: Vec<i64> = vec![5, -9, 0];
    let original_v = v.twin();
    v.negate();
    assert_eq!(v, vec![-5, 9, 0]);
    v.plus_equals(&original_v);
    assert!(v.is_zero());
}

#[test]
fn semigroup_addition_grouping_orders_agree() {
    let x: i64 = 11;
    let y: i64 = -4;
    let z: i64 = 30;

    let mut left: i64 = x;
    left.plus_equals(&y);
    left.plus_equals(&z);

    let mut right_tail: i64 = y;
    right_tail.plus_equals(&z);
    let mut right: i64 = x;
    right.plus_equals(&right_tail);

    assert_eq!(left, right);

    let vx: Vec<u16> = vec![1, 2];
    let vy: Vec<u16> = vec![10, 20, 30];
    let vz: Vec<u16> = vec![100];

    let mut vleft = vx.twin();
    vleft.plus_equals(&vy);
    vleft.plus_equals(&vz);

    let mut vright_tail = vy.twin();
    vright_tail.plus_equals(&vz);
    let mut vright = vx.twin();
    vright.plus_equals(&vright_tail);

    assert_eq!(vleft, vright);
    assert_eq!(vleft, vec![111, 22, 30]);
}

#[test]
fn semigroup_addition_commutes() {
    let mut ab: u64 = 6;
    ab.plus_equals(&9);
    let mut ba: u64 = 9;
    ba.plus_equals(&6);
    assert_eq!(ab, ba);
}

#[test]
fn tuple_is_zero_is_componentwise_conjunction() {
    assert!((0i64, 0u32).is_zero());
    assert!(!(1i64, 0u32).is_zero());
    assert!(!(0i64, 7u32).is_zero());
    assert!(().is_zero());
    assert!((0i8,).is_zero());
    assert!((0i8, 0i16, 0i32).is_zero());
    assert!(!(0i8, 0i16, 0i32, 1i64).is_zero());
}

#[test]
fn tuple_operations_act_componentwise() {
    let mut pair: (i64, i32) = (3, -2);
    pair.negate();
    assert_eq!(pair, (-3, 2));

    pair.plus_equals(&(1, 1));
    assert_eq!(pair, (-2, 3));

    let zp: (i64, i32) = Monoid::zero();
    assert_eq!(zp, (0, 0));
    assert!(zp.is_zero());

    let product = (2i64, 5i64).multiply(&4i64);
    assert_eq!(product, (8, 20));

    let mut quad: (i8, i16, i32, i64) = (1, 2, 3, 4);
    quad.plus_equals(&(1, 1, 1, 1));
    assert_eq!(quad, (2, 3, 4, 5));
}

#[test]
fn present_is_never_zero() {
    assert!(!Present.is_zero());
}

#[test]
fn present_multiply_clones_its_operand() {
    let payload = String::from("record");
    let copy = Present.multiply(&payload);
    assert_eq!(copy, payload);

    let n: u64 = 12;
    assert_eq!(Present.multiply(&n), 12);
}

#[test]
fn present_plus_equals_keeps_presence() {
    let mut p = Present;
    p.plus_equals(&Present);
    assert_eq!(p, Present);
}

#[test]
fn vector_growth_pairwise_then_cloned_tail() {
    let mut a: Vec<i64> = vec![1, 2, 3];
    a.plus_equals(&vec![1, 1, 1, 1]);
    assert_eq!(a, vec![2, 3, 4, 1]);
}

#[test]
fn vector_growth_equal_lengths_has_no_append() {
    let mut a: Vec<i32> = vec![5, 5];
    a.plus_equals(&vec![1, 2]);
    assert_eq!(a, vec![6, 7]);
}

#[test]
fn vector_growth_empty_left_operand_clones_everything() {
    let mut a: Vec<i32> = Vec::new();
    a.plus_equals(&vec![9, 9]);
    assert_eq!(a, vec![9, 9]);
}

#[test]
fn vector_longer_left_operand_keeps_its_tail() {
    let mut a: Vec<i32> = vec![1, 2, 3];
    plus_equals_slice(&mut a, [10].as_slice());
    assert_eq!(a, vec![11, 2, 3]);
}

#[test]
fn vector_is_zero_checks_every_element() {
    let empty: Vec<i64> = Vec::new();
    assert!(empty.is_zero());
    assert!(vec![0i64, 0i64].is_zero());
    assert!(!vec![0i64, 4i64].is_zero());
}

#[test]
fn vector_multiply_maps_every_element() {
    let v: Vec<i64> = vec![1, -2, 3];
    assert_eq!(v.multiply(&10), vec![10, -20, 30]);

    let empty: Vec<i64> = Vec::new();
    assert_eq!(empty.multiply(&10), Vec::<i64>::new());
}

#[test]
fn wrapping_addition_wraps_at_the_extremes() {
    let mut w = WrappingI64 { value: i64::MAX };
    w.plus_equals(&WrappingI64 { value: 1 });
    assert_eq!(w.value, i64::MIN);

    let mut small = WrappingI8 { value: i8::MIN };
    small.plus_equals(&WrappingI8 { value: -1 });
    assert_eq!(small.value, i8::MAX);
}

#[test]
fn wrapping_negation_and_multiplication_wrap() {
    let mut w = WrappingI32 { value: i32::MIN };
    w.negate();
    assert_eq!(w.value, i32::MIN);

    let p = WrappingI8 { value: 64 }.multiply(&WrappingI8 { value: 2 });
    assert_eq!(p.value, -128);
}

#[test]
fn integer_multiply_is_ordinary_multiplication() {
    assert_eq!(6i64.multiply(&7), 42);
    assert_eq!(6u8.multiply(&7), 42);
    assert_eq!((-3i16).multiply(&5), -15);
}

#[test]
fn twin_copies_the_value() {
    let x: i64 = -31;
    assert_eq!(x.twin(), -31);
    let v: Vec<u32> = vec![1, 2, 3];
    assert_eq!(v.twin(), vec![1, 2, 3]);
}
