use fun_ops::arith::{
    difference, narrow, product, quotient, stack_pointer_value, sum, widen, Outcome,
    STATUS_FAILED, STATUS_OK,
};

#[test]
fn status_codes() {
    assert_eq!(STATUS_OK, 0);
    assert_eq!(STATUS_FAILED, 1);
}

#[test]
fn sum_of_two() {
    assert_eq!(sum(40, 2), 42);
    assert_eq!(sum(-40, 2), -38);
    assert_eq!(sum(i64::MAX, i64::MIN), -1);
}

#[test]
fn sum_wraps() {
    assert_eq!(sum(i64::MAX, 1), i64::MIN);
    assert_eq!(sum(i64::MIN, -1), i64::MAX);
    assert_eq!(sum(i64::MAX, i64::MAX), -2);
    assert_eq!(sum(i64::MIN, i64::MIN), 0);
    assert_eq!(sum(9_223_372_036_854_775_000, 1_000), -9_223_372_036_854_775_616);
}

#[test]
fn quotient_of_least_by_minus_one() {
    assert_eq!(quotient(i64::MIN, -1), Outcome { value: 0, status: 1 });
    assert_eq!(quotient(i64::MIN, 1), Outcome { value: i64::MIN, status: 0 });
    assert_eq!(quotient(i64::MIN + 1, -1), Outcome { value: i64::MAX, status: 0 });
    assert_eq!(quotient(i64::MAX, -1), Outcome { value: -i64::MAX, status: 0 });
}

#[test]
fn difference_wraps() {
    assert_eq!(difference(7, 3), 4);
    assert_eq!(difference(i64::MIN, 1), i64::MAX);
    assert_eq!(difference(i64::MAX, i64::MIN), -1);
    assert_eq!(difference(-2, i64::MAX), i64::MAX);
}

#[test]
fn product_saturates() {
    assert_eq!(product(3, 4), 12);
    assert_eq!(product(5, 1), 5);
    assert_eq!(product(1, 5), 5);
    assert_eq!(product(-3, 4), -12);
    assert_eq!(product(0, i64::MIN), 0);
    assert_eq!(product(i64::MAX, i64::MAX), i64::MAX);
    assert_eq!(product(i64::MIN, i64::MIN), i64::MAX);
    assert_eq!(product(i64::MIN, 2), i64::MIN);
    assert_eq!(product(4_294_967_296, 2_147_483_648), i64::MAX);
    assert_eq!(product(4_294_967_296, -2_147_483_648), i64::MIN);
    assert_eq!(product(4_294_967_296, 2_147_483_647), 9_223_372_032_559_808_512);
}

#[test]
fn quotient_truncates() {
    assert_eq!(quotient(9, 4), Outcome { value: 2, status: 0 });
    assert_eq!(quotient(-9, 4), Outcome { value: -2, status: 0 });
    assert_eq!(quotient(9, -4), Outcome { value: -2, status: 0 });
    assert_eq!(quotient(-9, -4), Outcome { value: 2, status: 0 });
    assert_eq!(quotient(3, 4), Outcome { value: 0, status: 0 });
    assert_eq!(quotient(-3, 4), Outcome { value: 0, status: 0 });
    assert_eq!(quotient(i64::MIN, i64::MIN), Outcome { value: 1, status: 0 });
    assert_eq!(quotient(i64::MAX, i64::MIN), Outcome { value: 0, status: 0 });
}

#[test]
fn quotient_by_zero() {
    assert_eq!(quotient(5, 0), Outcome { value: 0, status: 1 });
    assert_eq!(quotient(0, 0), Outcome { value: 0, status: 1 });
    assert_eq!(quotient(i64::MIN, 0), Outcome { value: 0, status: 1 });
}

#[test]
fn stack_pointer_value_of_a_field() {
    assert_eq!(stack_pointer_value(Some(2)), Outcome { value: 2, status: 0 });
    assert_eq!(stack_pointer_value(Some(-2)), Outcome { value: -2, status: 0 });
    assert_eq!(stack_pointer_value(None), Outcome { value: 0, status: 1 });
}

#[test]
fn widen_keeps_the_value() {
    assert_eq!(widen(0), 0);
    assert_eq!(widen(-1), -1);
    assert_eq!(widen(i32::MAX), 2_147_483_647);
    assert_eq!(widen(i32::MIN), -2_147_483_648);
}

#[test]
fn narrow_keeps_the_low_bits() {
    assert_eq!(narrow(0), 0);
    assert_eq!(narrow(-1), -1);
    assert_eq!(narrow(2_147_483_647), i32::MAX);
    assert_eq!(narrow(2_147_483_648), i32::MIN);
    assert_eq!(narrow(4_294_967_295), -1);
    assert_eq!(narrow(4_294_967_296), 0);
    assert_eq!(narrow(-2_147_483_649), i32::MAX);
    assert_eq!(narrow(i64::MAX), -1);
    assert_eq!(narrow(i64::MIN), 0);
}
