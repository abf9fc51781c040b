//! Checked fixed-point arithmetic.
//!
//! Every intermediate computation in the fulfillment engine is exact integer
//! arithmetic; an overflow or a division by zero is a fatal error that aborts
//! the whole invocation, never a silent clamp.

use vstd::prelude::*;
use vstd::arithmetic::div_mod::lemma_div_is_ordered;

use crate::errors::ErrorCode;

verus! {

/// A quotient of a product by a factor at least as large as the multiplier
/// never exceeds the multiplicand: `e * x / y <= e` when `x <= y`.
pub proof fn lemma_mul_div_le(e: int, x: int, y: int)
    requires
        0 <= e,
        0 <= x <= y,
        0 < y,
    ensures
        e * x / y <= e,
{
    assert(e * x <= e * y) by (nonlinear_arith)
        requires
            0 <= e,
            x <= y,
    ;
    lemma_div_is_ordered(e * x, e * y, y);
    assert(e * y / y == e) by (nonlinear_arith)
        requires
            0 < y,
    ;
}

/// Dividing a product by its own factor gives back the multiplicand.
pub proof fn lemma_mul_div_exact(a: int, b: int)
    requires
        0 < b,
    ensures
        a * b / b == a,
{
    assert(a * b / b == a) by (nonlinear_arith)
        requires
            0 < b,
    ;
}

/// Division by a positive divisor preserves order of the dividends.
pub proof fn lemma_div_ordered(a: int, b: int, d: int)
    requires
        a <= b,
        0 < d,
    ensures
        a / d <= b / d,
{
    lemma_div_is_ordered(a, b, d);
}

/// Sum of two unsigned 128-bit amounts, or a math error on overflow.
pub fn add_u128(a: u128, b: u128) -> (r: Result<u128, ErrorCode>)
    ensures
        a + b <= u128::MAX ==> r == Ok::<u128, ErrorCode>((a + b) as u128),
        a + b > u128::MAX ==> r == Err::<u128, ErrorCode>(ErrorCode::MathError),
{
    match a.checked_add(b) {
        Some(v) => Ok(v),
        None => Err(ErrorCode::MathError),
    }
}

/// Difference of two unsigned 128-bit amounts, or a math error on underflow.
pub fn sub_u128(a: u128, b: u128) -> (r: Result<u128, ErrorCode>)
    ensures
        b <= a ==> r == Ok::<u128, ErrorCode>((a - b) as u128),
        b > a ==> r == Err::<u128, ErrorCode>(ErrorCode::MathError),
{
    match a.checked_sub(b) {
        Some(v) => Ok(v),
        None => Err(ErrorCode::MathError),
    }
}

/// Product of two unsigned 128-bit amounts, or a math error on overflow.
pub fn mul_u128(a: u128, b: u128) -> (r: Result<u128, ErrorCode>)
    ensures
        a * b <= u128::MAX ==> r == Ok::<u128, ErrorCode>((a * b) as u128),
        a * b > u128::MAX ==> r == Err::<u128, ErrorCode>(ErrorCode::MathError),
{
    match a.checked_mul(b) {
        Some(v) => Ok(v),
        None => Err(ErrorCode::MathError),
    }
}

/// Quotient of two unsigned 128-bit amounts (truncated toward zero), or a
/// math error when the divisor is zero.
pub fn div_u128(a: u128, b: u128) -> (r: Result<u128, ErrorCode>)
    ensures
        b != 0 ==> r == Ok::<u128, ErrorCode>((a / b) as u128),
        b == 0 ==> r == Err::<u128, ErrorCode>(ErrorCode::MathError),
{
    if b == 0 {
        Err(ErrorCode::MathError)
    } else {
        Ok(a / b)
    }
}

/// Sum of two signed 128-bit amounts, or a math error when the exact result
/// does not fit in an `i128`.
pub fn add_i128(a: i128, b: i128) -> (r: Result<i128, ErrorCode>)
    ensures
        i128::MIN <= a + b <= i128::MAX ==> r == Ok::<i128, ErrorCode>((a + b) as i128),
        !(i128::MIN <= a + b <= i128::MAX) ==> r == Err::<i128, ErrorCode>(ErrorCode::MathError),
{
    match a.checked_add(b) {
        Some(v) => Ok(v),
        None => Err(ErrorCode::MathError),
    }
}

/// Difference of two signed 128-bit amounts, or a math error when the exact
/// result does not fit in an `i128`.
pub fn sub_i128(a: i128, b: i128) -> (r: Result<i128, ErrorCode>)
    ensures
        i128::MIN <= a - b <= i128::MAX ==> r == Ok::<i128, ErrorCode>((a - b) as i128),
        !(i128::MIN <= a - b <= i128::MAX) ==> r == Err::<i128, ErrorCode>(ErrorCode::MathError),
{
    match a.checked_sub(b) {
        Some(v) => Ok(v),
        None => Err(ErrorCode::MathError),
    }
}

/// Sum of two unsigned 64-bit amounts, or a math error on overflow.
pub fn add_u64(a: u64, b: u64) -> (r: Result<u64, ErrorCode>)
    ensures
        a + b <= u64::MAX ==> r == Ok::<u64, ErrorCode>((a + b) as u64),
        a + b > u64::MAX ==> r == Err::<u64, ErrorCode>(ErrorCode::MathError),
{
    match a.checked_add(b) {
        Some(v) => Ok(v),
        None => Err(ErrorCode::MathError),
    }
}

/// Sum of two signed 64-bit amounts, or a math error when the exact result
/// does not fit in an `i64`.
pub fn add_i64(a: i64, b: i64) -> (r: Result<i64, ErrorCode>)
    ensures
        i64::MIN <= a + b <= i64::MAX ==> r == Ok::<i64, ErrorCode>((a + b) as i64),
        !(i64::MIN <= a + b <= i64::MAX) ==> r == Err::<i64, ErrorCode>(ErrorCode::MathError),
{
    match a.checked_add(b) {
        Some(v) => Ok(v),
        None => Err(ErrorCode::MathError),
    }
}

/// A `u128` amount as an `i128`, or a math error when it does not fit.
pub fn u128_to_i128(a: u128) -> (r: Result<i128, ErrorCode>)
    ensures
        a <= i128::MAX ==> r == Ok::<i128, ErrorCode>(a as i128),
        a > i128::MAX ==> r == Err::<i128, ErrorCode>(ErrorCode::MathError),
{
    if a <= 0x7fff_ffff_ffff_ffff_ffff_ffff_ffff_ffff {
        Ok(a as i128)
    } else {
        Err(ErrorCode::MathError)
    }
}

/// A `u128` amount as a `u64`, or a math error when it does not fit.
pub fn u128_to_u64(a: u128) -> (r: Result<u64, ErrorCode>)
    ensures
        a <= u64::MAX ==> r == Ok::<u64, ErrorCode>(a as u64),
        a > u64::MAX ==> r == Err::<u64, ErrorCode>(ErrorCode::MathError),
{
    if a <= 0xffff_ffff_ffff_ffff {
        Ok(a as u64)
    } else {
        Err(ErrorCode::MathError)
    }
}

/// A `u128` amount as an `i64`, or a math error when it does not fit.
pub fn u128_to_i64(a: u128) -> (r: Result<i64, ErrorCode>)
    ensures
        a <= i64::MAX ==> r == Ok::<i64, ErrorCode>(a as i64),
        a > i64::MAX ==> r == Err::<i64, ErrorCode>(ErrorCode::MathError),
{
    if a <= 0x7fff_ffff_ffff_ffff {
        Ok(a as i64)
    } else {
        Err(ErrorCode::MathError)
    }
}

} // verus!
