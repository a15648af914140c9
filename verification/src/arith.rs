//! The arithmetic of the opcode handlers, on plain 64-bit values.

use vstd::arithmetic::div_mod::{
    lemma_div_is_ordered_by_denominator, lemma_div_pos_is_pos, lemma_fundamental_div_mod,
    lemma_mod_bound,
};
use vstd::prelude::*;

verus! {

/// Whether `x` can be held in a signed 64-bit integer.
pub open spec fn fits_i64(x: int) -> bool {
    i64::MIN <= x <= i64::MAX
}

/// The signed 64-bit value congruent to `x` modulo 2^64: what two's-complement
/// wraparound makes of `x`.
pub open spec fn wrap_i64(x: int) -> int {
    (x + 0x8000_0000_0000_0000) % 0x1_0000_0000_0000_0000 - 0x8000_0000_0000_0000
}

/// The signed 32-bit value congruent to `x` modulo 2^32: what is left of `x`
/// when only its low 32 bits are kept.
pub open spec fn wrap_i32(x: int) -> int {
    (x + 0x8000_0000) % 0x1_0000_0000 - 0x8000_0000
}

/// `x` clamped to the signed 64-bit range.
pub open spec fn clamp_i64(x: int) -> int {
    if x < i64::MIN {
        i64::MIN as int
    } else if x > i64::MAX {
        i64::MAX as int
    } else {
        x
    }
}

/// The quotient of `a` by `b` rounded toward zero, for `b != 0`.
pub open spec fn trunc_div(a: int, b: int) -> int
    recommends
        b != 0,
{
    if a == 0 {
        0
    } else if a > 0 && b > 0 {
        a / b
    } else if a < 0 && b < 0 {
        (-a) / (-b)
    } else if a < 0 {
        -((-a) / b)
    } else {
        -(a / (-b))
    }
}

/// Whether `a` can be divided by `b` within the signed 64-bit range: `b` is
/// not zero, and the quotient is not that of the least value by -1, which is
/// one more than the greatest value.
pub open spec fn divisible(a: int, b: int) -> bool {
    b != 0 && !(a == i64::MIN && b == -1)
}

/// What dividing `a` by `b` leaves on the stack: the quotient rounded toward
/// zero, or the placeholder 0 where `a` cannot be divided by `b`.
pub open spec fn quotient_or_zero(a: int, b: int) -> int {
    if divisible(a, b) {
        trunc_div(a, b)
    } else {
        0
    }
}

/// The status of dividing `a` by `b`.
pub open spec fn quotient_status(a: int, b: int) -> i32 {
    if divisible(a, b) {
        STATUS_OK
    } else {
        STATUS_FAILED
    }
}

/// The status a handler returns when it has done its work.
pub const STATUS_OK: i32 = 0;

/// The status a handler returns when it could not do its work and left a
/// placeholder behind.
pub const STATUS_FAILED: i32 = 1;

/// What a handler that may fail leaves behind: the value it pushes and the
/// status it returns.
#[derive(Clone, Copy, Debug, PartialEq, Eq, Structural)]
pub struct Outcome {
    pub value: i64,
    pub status: i32,
}

/// `i64::saturating_mul` of std: the product of the two operands where it fits
/// in 64 bits, and otherwise the bound of the signed 64-bit range that the
/// product lies beyond.
pub assume_specification[ i64::saturating_mul ](x: i64, y: i64) -> (r: i64)
    ensures
        r == clamp_i64(x * y),
;

/// The magnitude of `x`.
pub open spec fn abs(x: int) -> int {
    if x < 0 {
        -x
    } else {
        x
    }
}

/// Wrapping keeps a value that fits, and otherwise gives the one value of the
/// signed 64-bit range that differs from `x` by a multiple of 2^64.
pub proof fn lemma_wrap_i64(x: int)
    ensures
        fits_i64(wrap_i64(x)),
        (wrap_i64(x) - x) % 0x1_0000_0000_0000_0000 == 0,
        fits_i64(x) ==> wrap_i64(x) == x,
{
}

/// Narrowing keeps a value that fits in 32 bits, and otherwise gives the one
/// value of the signed 32-bit range that differs from `x` by a multiple of
/// 2^32.
pub proof fn lemma_wrap_i32(x: int)
    ensures
        i32::MIN <= wrap_i32(x) <= i32::MAX,
        (wrap_i32(x) - x) % 0x1_0000_0000 == 0,
        i32::MIN <= x <= i32::MAX ==> wrap_i32(x) == x,
{
}

/// Rounding toward zero: the quotient times the divisor differs from the
/// dividend by a remainder that is smaller in magnitude than the divisor and
/// has the dividend's sign.
pub proof fn lemma_trunc_div_remainder(a: int, b: int)
    requires
        b != 0,
    ensures
        abs(a - b * trunc_div(a, b)) < abs(b),
        a >= 0 ==> a - b * trunc_div(a, b) >= 0,
        a <= 0 ==> a - b * trunc_div(a, b) <= 0,
{
    let m = abs(a);
    let n = abs(b);
    lemma_fundamental_div_mod(m, n);
    lemma_mod_bound(m, n);
    let q = m / n;
    assert(m == n * q + m % n);
    if a != 0 {
        if (a > 0) == (b > 0) {
            assert(trunc_div(a, b) == q);
            assert(b * q == if b > 0 { n * q } else { -(n * q) }) by (nonlinear_arith)
                requires
                    n == abs(b),
            ;
        } else {
            assert(trunc_div(a, b) == -q);
            assert(b * (-q) == if b > 0 { -(n * q) } else { n * q }) by (nonlinear_arith)
                requires
                    n == abs(b),
            ;
        }
    } else {
        assert(b * 0 == 0);
    }
}

/// A quotient rounded toward zero is no larger in magnitude than its dividend,
/// and fits in 64 bits unless the least value is divided by -1.
pub proof fn lemma_trunc_div_fits(a: int, b: int)
    requires
        fits_i64(a),
        divisible(a, b),
    ensures
        fits_i64(trunc_div(a, b)),
        abs(trunc_div(a, b)) <= abs(a),
{
    let m = abs(a);
    let n = abs(b);
    lemma_div_pos_is_pos(m, n);
    lemma_div_is_ordered_by_denominator(m, 1, n);
    if n >= 2 {
        lemma_div_is_ordered_by_denominator(m, 2, n);
    }
}

/// The sum of `a` and `b`, wrapped around the signed 64-bit range.
pub fn sum(a: i64, b: i64) -> (r: i64)
    ensures
        r == wrap_i64(a + b),
        fits_i64(a + b) ==> r == a + b,
{
    a.wrapping_add(b)
}

/// The difference of `a` and `b`, wrapped around the signed 64-bit range.
pub fn difference(a: i64, b: i64) -> (r: i64)
    ensures
        r == wrap_i64(a - b),
        fits_i64(a - b) ==> r == a - b,
{
    a.wrapping_sub(b)
}

/// The product of `a` and `b`, held at the nearest bound of the signed 64-bit
/// range where it lies beyond it.
pub fn product(a: i64, b: i64) -> (r: i64)
    ensures
        r == clamp_i64(a * b),
        fits_i64(a * b) ==> r == a * b,
{
    a.saturating_mul(b)
}

/// The quotient of `a` by `b`, rounded toward zero. A zero divisor gives the
/// placeholder 0 and the failure status, and so does the least value divided
/// by -1, whose quotient no 64-bit value holds.
pub fn quotient(a: i64, b: i64) -> (r: Outcome)
    ensures
        r.value == quotient_or_zero(a as int, b as int),
        r.status == quotient_status(a as int, b as int),
        divisible(a as int, b as int) ==> r.value == trunc_div(a as int, b as int) && r.status
            == STATUS_OK,
        !divisible(a as int, b as int) ==> r.value == 0 && r.status == STATUS_FAILED,
{
    proof {
        if divisible(a as int, b as int) {
            lemma_trunc_div_fits(a as int, b as int);
        }
    }
    match a.checked_div(b) {
        Some(q) => Outcome { value: q, status: STATUS_OK },
        None => Outcome { value: 0, status: STATUS_FAILED },
    }
}

/// What reading the host's stack-pointer field gives to push: the field
/// sign-extended to 64 bits, or, where the field could not be reached, the
/// placeholder 0 and the failure status.
pub fn stack_pointer_value(field: Option<i32>) -> (r: Outcome)
    ensures
        r == match field {
            Some(sp) => (Outcome { value: sp as i64, status: STATUS_OK }),
            None => (Outcome { value: 0, status: STATUS_FAILED }),
        },
{
    match field {
        Some(sp) => Outcome { value: widen(sp), status: STATUS_OK },
        None => Outcome { value: 0, status: STATUS_FAILED },
    }
}

/// `x` sign-extended from 32 to 64 bits.
pub fn widen(x: i32) -> (r: i64)
    ensures
        r == x,
{
    x as i64
}

/// The low 32 bits of `x`, read as a signed value.
pub fn narrow(x: i64) -> (r: i32)
    ensures
        r == wrap_i32(x as int),
        i32::MIN <= x <= i32::MAX ==> r == x,
{
    let r: i32 = #[verifier::truncate]
    (x as i32);
    assert(r == (x + 0x8000_0000) % 0x1_0000_0000 - 0x8000_0000) by (bit_vector)
        requires
            r == (x as i32),
    ;
    r
}

} // verus!
