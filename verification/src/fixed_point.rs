//! Signed 64-bit fixed-point arithmetic, carried as raw bits.
//!
//! The board's equations use `fixed::FixedI64` with 32 fractional bits (`Q32`)
//! and with 31 fractional bits (`Q31`). A value is held here as its raw `i64`
//! bit pattern; every operation on it is a call into the `fixed` crate, whose
//! effect on the bits is stated in the contract of the wrapper that makes it.
use vstd::prelude::*;
use fixed::types::extra::{U31, U32};
use fixed::FixedI64;

verus! {

/// 2^32, the scale of a `Q32` value.
pub open spec fn q32_one() -> int {
    4294967296
}

/// 2^31, the scale of a `Q31` value.
pub open spec fn q31_one() -> int {
    2147483648
}

/// Whether an integer fits in an `i64`.
pub open spec fn fits_i64(x: int) -> bool {
    i64::MIN <= x <= i64::MAX
}

/// Absolute value on mathematical integers.
pub open spec fn abs_int(x: int) -> int {
    if x < 0 {
        -x
    } else {
        x
    }
}

/// Integer division rounding toward zero, as Rust's `/` does on signed integers.
pub open spec fn trunc_div(a: int, b: int) -> int {
    if b == 0 {
        0
    } else if (a >= 0) == (b > 0) {
        abs_int(a) / abs_int(b)
    } else {
        -(abs_int(a) / abs_int(b))
    }
}

/// `10^n`.
pub open spec fn pow10(n: nat) -> nat
    decreases n,
{
    if n == 0 {
        1
    } else {
        10 * pow10((n - 1) as nat)
    }
}

/// `r` is the base-10 logarithm of `v`, rounded down.
pub open spec fn is_ilog10(v: int, r: int) -> bool {
    r >= 0 && pow10(r as nat) <= v < 10 * pow10(r as nat)
}

/// Bits of the quotient of two fixed-point numbers with `frac` fractional
/// bits: the dividend is widened and shifted left by `frac`, then divided
/// rounding toward zero.
pub open spec fn fixed_div_bits(a: int, b: int, scale: int) -> int {
    trunc_div(a * scale, b)
}

/// Value of `saturating_to_num` into an integer type ranging over `[0, max]`:
/// fractional bits are discarded (rounding toward minus infinity) and the
/// result is clamped.
pub open spec fn saturate_floor(bits: int, scale: int, max: int) -> int {
    let f = bits / scale;
    if f < 0 {
        0
    } else if f > max {
        max
    } else {
        f
    }
}

/// Bits of `FixedI64::<U32>::LOG10_E`: the 128-bit constant shifted right to
/// keep 32 fractional bits.
pub open spec fn q32_log10_e_bits() -> int {
    1865280596
}

/// `FixedI64::<U32>::from(i32)`: the integer shifted left by 32 bits.
#[verifier::external_body]
pub(crate) fn q32_from_i32(n: i32) -> (bits: i64)
    ensures
        bits == n * q32_one(),
{
    FixedI64::<U32>::from(n).to_bits()
}

/// `FixedI64::<U32>::from(u16)`: the integer shifted left by 32 bits.
#[verifier::external_body]
pub(crate) fn q32_from_u16(n: u16) -> (bits: i64)
    ensures
        bits == n * q32_one(),
{
    FixedI64::<U32>::from(n).to_bits()
}

/// `FixedI64::<U32>::int_log10`, for values of at least one: the base-10
/// logarithm of the integer part, rounded down. (The crate panics on values
/// that are not positive; values between zero and one are not needed here.)
#[verifier::external_body]
pub(crate) fn q32_int_log10(bits: i64) -> (r: i32)
    requires
        bits >= q32_one(),
    ensures
        is_ilog10((bits as int) / q32_one(), r as int),
{
    FixedI64::<U32>::from_bits(bits).int_log10()
}

/// `FixedI64::<U32>::LOG10_E`.
#[verifier::external_body]
pub(crate) fn q32_log10_e() -> (bits: i64)
    ensures
        bits == q32_log10_e_bits(),
{
    FixedI64::<U32>::LOG10_E.to_bits()
}

/// `Div` of two `FixedI64::<U32>` values. The crate panics on a zero divisor,
/// and, with debug assertions, on a quotient that does not fit.
#[verifier::external_body]
pub(crate) fn q32_div(a: i64, b: i64) -> (bits: i64)
    requires
        b != 0,
        fits_i64(fixed_div_bits(a as int, b as int, q32_one())),
    ensures
        bits == fixed_div_bits(a as int, b as int, q32_one()),
{
    (FixedI64::<U32>::from_bits(a) / FixedI64::<U32>::from_bits(b)).to_bits()
}

/// `FixedI64::<U32>::checked_div`: `None` on a zero divisor or when the
/// quotient does not fit.
#[verifier::external_body]
pub(crate) fn q32_checked_div(a: i64, b: i64) -> (r: Option<i64>)
    ensures
        b == 0 ==> r is None,
        b != 0 && fits_i64(fixed_div_bits(a as int, b as int, q32_one())) ==> r == Some(
            fixed_div_bits(a as int, b as int, q32_one()) as i64,
        ),
        b != 0 && !fits_i64(fixed_div_bits(a as int, b as int, q32_one())) ==> r is None,
{
    match FixedI64::<U32>::from_bits(a).checked_div(FixedI64::<U32>::from_bits(b)) {
        Some(q) => Some(q.to_bits()),
        None => None,
    }
}

/// `Mul<i64>` of a `FixedI64::<U32>` (and `Mul<FixedI64>` of an `i64`, which
/// the crate forwards to it): the bits multiplied by the integer; overflow
/// panics with debug assertions.
#[verifier::external_body]
pub(crate) fn q32_mul_int(a: i64, k: i64) -> (bits: i64)
    requires
        fits_i64(a * k),
    ensures
        bits == a * k,
{
    (FixedI64::<U32>::from_bits(a) * k).to_bits()
}

/// `Div<i64>` of a `FixedI64::<U32>`: the bits divided by the integer,
/// rounding toward zero.
#[verifier::external_body]
pub(crate) fn q32_div_int(a: i64, k: i64) -> (bits: i64)
    requires
        k != 0,
        !(a == i64::MIN && k == -1),
    ensures
        bits == trunc_div(a as int, k as int),
{
    (FixedI64::<U32>::from_bits(a) / k).to_bits()
}

/// `Add` of two `FixedI64::<U32>` values: the sum of the bits.
#[verifier::external_body]
pub(crate) fn q32_add(a: i64, b: i64) -> (bits: i64)
    requires
        fits_i64(a + b),
    ensures
        bits == a + b,
{
    (FixedI64::<U32>::from_bits(a) + FixedI64::<U32>::from_bits(b)).to_bits()
}

/// `Sub` of two `FixedI64::<U32>` values: the difference of the bits.
#[verifier::external_body]
pub(crate) fn q32_sub(a: i64, b: i64) -> (bits: i64)
    requires
        fits_i64(a - b),
    ensures
        bits == a - b,
{
    (FixedI64::<U32>::from_bits(a) - FixedI64::<U32>::from_bits(b)).to_bits()
}

/// `FixedI64::<U32>::abs`: the absolute value of the bits (panics on the
/// minimum with debug assertions).
#[verifier::external_body]
pub(crate) fn q32_abs(a: i64) -> (bits: i64)
    requires
        a != i64::MIN,
    ensures
        bits == abs_int(a as int),
{
    FixedI64::<U32>::from_bits(a).abs().to_bits()
}

/// `FixedI64::<U32>::saturating_to_num::<u16>`.
#[verifier::external_body]
pub(crate) fn q32_saturating_to_u16(bits: i64) -> (r: u16)
    ensures
        r == saturate_floor(bits as int, q32_one(), u16::MAX as int),
{
    FixedI64::<U32>::from_bits(bits).saturating_to_num::<u16>()
}

/// `FixedI64::<U31>::from(u32)`: the integer shifted left by 31 bits.
#[verifier::external_body]
pub(crate) fn q31_from_u32(n: u32) -> (bits: i64)
    ensures
        bits == n * q31_one(),
{
    FixedI64::<U31>::from(n).to_bits()
}

/// `FixedI64::<U31>::from(i32)`: the integer shifted left by 31 bits.
#[verifier::external_body]
pub(crate) fn q31_from_i32(n: i32) -> (bits: i64)
    ensures
        bits == n * q31_one(),
{
    FixedI64::<U31>::from(n).to_bits()
}

/// `Div` of two `FixedI64::<U31>` values. The crate panics on a zero divisor,
/// and, with debug assertions, on a quotient that does not fit.
#[verifier::external_body]
pub(crate) fn q31_div(a: i64, b: i64) -> (bits: i64)
    requires
        b != 0,
        fits_i64(fixed_div_bits(a as int, b as int, q31_one())),
    ensures
        bits == fixed_div_bits(a as int, b as int, q31_one()),
{
    (FixedI64::<U31>::from_bits(a) / FixedI64::<U31>::from_bits(b)).to_bits()
}

/// `Div<i64>` of a `FixedI64::<U31>`: the bits divided by the integer,
/// rounding toward zero.
#[verifier::external_body]
pub(crate) fn q31_div_int(a: i64, k: i64) -> (bits: i64)
    requires
        k != 0,
        !(a == i64::MIN && k == -1),
    ensures
        bits == trunc_div(a as int, k as int),
{
    (FixedI64::<U31>::from_bits(a) / k).to_bits()
}

/// `Sub` of two `FixedI64::<U31>` values: the difference of the bits.
#[verifier::external_body]
pub(crate) fn q31_sub(a: i64, b: i64) -> (bits: i64)
    requires
        fits_i64(a - b),
    ensures
        bits == a - b,
{
    (FixedI64::<U31>::from_bits(a) - FixedI64::<U31>::from_bits(b)).to_bits()
}

/// `FixedI64::<U31>::saturating_to_num::<u32>`.
#[verifier::external_body]
pub(crate) fn q31_saturating_to_u32(bits: i64) -> (r: u32)
    ensures
        r == saturate_floor(bits as int, q31_one(), u32::MAX as int),
{
    FixedI64::<U31>::from_bits(bits).saturating_to_num::<u32>()
}

/// `FixedI64::<U32>::const_from_int`: the integer shifted left by 32 bits;
/// the crate panics when it does not fit.
#[verifier::external_body]
pub(crate) fn q32_const_from_int(n: i64) -> (bits: i64)
    requires
        fits_i64(n * q32_one()),
    ensures
        bits == n * q32_one(),
{
    FixedI64::<U32>::const_from_int(n).to_bits()
}

/// `FixedI64::<U32>::unwrapped_add`: the sum of the bits; the crate panics
/// on overflow whatever the build profile.
#[verifier::external_body]
#[allow(deprecated)]
pub(crate) fn q32_unwrapped_add(a: i64, b: i64) -> (bits: i64)
    requires
        fits_i64(a + b),
    ensures
        bits == a + b,
{
    FixedI64::<U32>::from_bits(a).unwrapped_add(FixedI64::<U32>::from_bits(b)).to_bits()
}

/// `FixedI64::<U32>::unwrapped_div`: the quotient, rounding toward zero; the
/// crate panics on a zero divisor or on overflow whatever the build profile.
#[verifier::external_body]
#[allow(deprecated)]
pub(crate) fn q32_unwrapped_div(a: i64, b: i64) -> (bits: i64)
    requires
        b != 0,
        fits_i64(fixed_div_bits(a as int, b as int, q32_one())),
    ensures
        bits == fixed_div_bits(a as int, b as int, q32_one()),
{
    FixedI64::<U32>::from_bits(a).unwrapped_div(FixedI64::<U32>::from_bits(b)).to_bits()
}

/// `FixedI64::<U32>::unwrapped_div_int`: the bits divided by the integer,
/// rounding toward zero; the crate panics on a zero divisor or on overflow.
#[verifier::external_body]
#[allow(deprecated)]
pub(crate) fn q32_unwrapped_div_int(a: i64, k: i64) -> (bits: i64)
    requires
        k != 0,
        !(a == i64::MIN && k == -1),
    ensures
        bits == trunc_div(a as int, k as int),
{
    FixedI64::<U32>::from_bits(a).unwrapped_div_int(k).to_bits()
}

/// `FixedI64::<U32>::unwrapped_mul_int`: the bits multiplied by the integer;
/// the crate panics on overflow.
#[verifier::external_body]
#[allow(deprecated)]
pub(crate) fn q32_unwrapped_mul_int(a: i64, k: i64) -> (bits: i64)
    requires
        fits_i64(a * k),
    ensures
        bits == a * k,
{
    FixedI64::<U32>::from_bits(a).unwrapped_mul_int(k).to_bits()
}

/// `FixedI64::<U32>::to_num::<u32>()`: the fractional bits are discarded,
/// rounding toward minus infinity; with debug assertions the crate panics
/// when the result does not fit.
#[verifier::external_body]
pub(crate) fn q32_to_u32(bits: i64) -> (r: u32)
    requires
        0 <= (bits as int) / q32_one() <= u32::MAX,
    ensures
        r == (bits as int) / q32_one(),
{
    FixedI64::<U32>::from_bits(bits).to_num::<u32>()
}

/// `FixedI64::<U32>::to_num::<i32>()`: the fractional bits are discarded,
/// rounding toward minus infinity; with debug assertions the crate panics
/// when the result does not fit.
#[verifier::external_body]
pub(crate) fn q32_to_i32(bits: i64) -> (r: i32)
    requires
        i32::MIN <= (bits as int) / q32_one() <= i32::MAX,
    ensures
        r == (bits as int) / q32_one(),
{
    FixedI64::<U32>::from_bits(bits).to_num::<i32>()
}

/// What `FixedI64::<U32>::from_str` makes of a decimal string: the bits of
/// the value rounded to the nearest (ties to even), or `None` where the string
/// is not a number or the value does not fit.
pub uninterp spec fn q32_parsed(s: Seq<char>) -> Option<i64>;

/// `FixedI64::<U32>::from_str`, the non-panicking form of `lit`: parses a
/// decimal string. Only the name of the result is stated.
#[verifier::external_body]
pub(crate) fn q32_from_str(s: &str) -> (r: Option<i64>)
    ensures
        r == q32_parsed(s@),
{
    match FixedI64::<U32>::from_str(s) {
        Ok(v) => Some(v.to_bits()),
        Err(_) => None,
    }
}

/// `FixedI64::<U32>::frac`: the fractional part, `self - floor(self)`, whose
/// bits are the bits modulo 2^32.
#[verifier::external_body]
pub(crate) fn q32_frac(bits: i64) -> (r: i64)
    ensures
        r == (bits as int) % q32_one(),
{
    FixedI64::<U32>::from_bits(bits).frac().to_bits()
}

} // verus!
