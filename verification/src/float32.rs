//! Arithmetic on IEEE 754 binary32 values carried as `u32` bit patterns.
//!
//! Verified code never holds a machine float: a channel value is the bit
//! pattern of a binary32 number. The classification predicates below are
//! plain arithmetic on the pattern. The four arithmetic operations and the
//! integer conversion are performed by `rustc_apfloat`, a pure-integer
//! IEEE 754 implementation whose results are a function of the operand bit
//! patterns alone, and are named here by uninterpreted spec functions.

use vstd::prelude::*;

use rustc_apfloat::Float;
use rustc_apfloat::ieee::Single;

verus! {

/// Bit pattern of the binary32 value one.
pub const ONE_BITS: u32 = 0x3F80_0000;

/// Bit pattern of binary32 positive infinity; every larger magnitude is a NaN.
pub const INF_BITS: u32 = 0x7F80_0000;

/// Bit pattern of the binary32 value negative zero: the sign bit alone.
pub const SIGN_BITS: u32 = 0x8000_0000;

/// The bit pattern with the sign bit cleared: the encoded magnitude.
pub open spec fn abs_bits(b: u32) -> u32 {
    if b >= SIGN_BITS {
        (b - SIGN_BITS) as u32
    } else {
        b
    }
}

/// True when the bit pattern has its sign bit set.
pub open spec fn sign_negative_bits(b: u32) -> bool {
    b >= SIGN_BITS
}

/// True when the bit pattern encodes a NaN.
pub open spec fn is_nan_bits(b: u32) -> bool {
    abs_bits(b) > INF_BITS
}

/// True when the bit pattern encodes a zero, a subnormal or a normal number.
pub open spec fn is_finite_bits(b: u32) -> bool {
    abs_bits(b) < INF_BITS
}

/// True when the bit pattern encodes a zero of either sign.
pub open spec fn is_zero_bits(b: u32) -> bool {
    abs_bits(b) == 0
}

/// The zero whose sign is the exclusive or of the two operand signs.
pub open spec fn signed_zero_bits(a: u32, b: u32) -> u32 {
    if sign_negative_bits(a) == sign_negative_bits(b) {
        0u32
    } else {
        SIGN_BITS
    }
}

/// Equality of the encoded numbers: NaN equals nothing, the two zeros are
/// one number, and any other number has one encoding.
pub open spec fn f32_eq_bits(a: u32, b: u32) -> bool {
    &&& !is_nan_bits(a)
    &&& !is_nan_bits(b)
    &&& (a == b || (is_zero_bits(a) && is_zero_bits(b)))
}

/// Sum of the two encoded numbers, rounded to nearest, ties to even.
pub uninterp spec fn add_bits(a: u32, b: u32) -> u32;

/// Difference of the two encoded numbers, rounded to nearest, ties to even.
pub uninterp spec fn sub_bits(a: u32, b: u32) -> u32;

/// Product of the two encoded numbers, rounded to nearest, ties to even.
pub uninterp spec fn mul_bits(a: u32, b: u32) -> u32;

/// Quotient of the two encoded numbers, rounded to nearest, ties to even.
pub uninterp spec fn div_bits(a: u32, b: u32) -> u32;

/// The binary32 value nearest to the given integer.
pub uninterp spec fn from_u64_bits(x: u64) -> u32;

/// Relies on rustc_apfloat's `Single` addition: IEEE 754 binary32 sum,
/// rounded to nearest even, a function of the operand bit patterns alone.
/// A zero operand leaves the other operand's number unchanged, and a NaN
/// operand gives a NaN.
#[verifier::external_body]
pub(crate) fn f32_add(a: u32, b: u32) -> (r: u32)
    ensures
        r == add_bits(a, b),
        is_nan_bits(a) || is_nan_bits(b) ==> is_nan_bits(r),
        is_zero_bits(a) && !is_nan_bits(b) ==> f32_eq_bits(r, b),
        is_zero_bits(b) && !is_nan_bits(a) ==> f32_eq_bits(r, a),
{
    (Single::from_bits(a as u128) + Single::from_bits(b as u128)).value.to_bits() as u32
}

/// Relies on rustc_apfloat's `Single` subtraction: IEEE 754 binary32
/// difference, rounded to nearest even, a function of the operand bit
/// patterns alone. Subtracting positive zero changes nothing, a finite
/// number minus itself is positive zero, and a NaN operand gives a NaN.
#[verifier::external_body]
pub(crate) fn f32_sub(a: u32, b: u32) -> (r: u32)
    ensures
        r == sub_bits(a, b),
        is_nan_bits(a) || is_nan_bits(b) ==> is_nan_bits(r),
        b == 0 && !is_nan_bits(a) ==> r == a,
        a == b && is_finite_bits(a) ==> r == 0,
{
    (Single::from_bits(a as u128) - Single::from_bits(b as u128)).value.to_bits() as u32
}

/// Relies on rustc_apfloat's `Single` multiplication: IEEE 754 binary32
/// product, rounded to nearest even, a function of the operand bit patterns
/// alone. One is a unit, a zero times a finite number is the zero whose
/// sign is the exclusive or of the operand signs, and a NaN operand gives
/// a NaN.
#[verifier::external_body]
pub(crate) fn f32_mul(a: u32, b: u32) -> (r: u32)
    ensures
        r == mul_bits(a, b),
        is_nan_bits(a) || is_nan_bits(b) ==> is_nan_bits(r),
        a == ONE_BITS && !is_nan_bits(b) ==> r == b,
        b == ONE_BITS && !is_nan_bits(a) ==> r == a,
        is_zero_bits(a) && is_finite_bits(b) ==> r == signed_zero_bits(a, b),
        is_zero_bits(b) && is_finite_bits(a) ==> r == signed_zero_bits(a, b),
{
    (Single::from_bits(a as u128) * Single::from_bits(b as u128)).value.to_bits() as u32
}

/// Relies on rustc_apfloat's `Single` division: IEEE 754 binary32 quotient,
/// rounded to nearest even, a function of the operand bit patterns alone.
/// Dividing by one changes nothing, a finite nonzero number over itself is
/// one, a zero over any other non-NaN nonzero number is the zero whose sign
/// is the exclusive or of the operand signs, and a NaN operand gives a NaN.
#[verifier::external_body]
pub(crate) fn f32_div(a: u32, b: u32) -> (r: u32)
    ensures
        r == div_bits(a, b),
        is_nan_bits(a) || is_nan_bits(b) ==> is_nan_bits(r),
        b == ONE_BITS && !is_nan_bits(a) ==> r == a,
        a == b && is_finite_bits(a) && !is_zero_bits(a) ==> r == ONE_BITS,
        is_zero_bits(a) && !is_nan_bits(b) && !is_zero_bits(b) ==> r == signed_zero_bits(a, b),
{
    (Single::from_bits(a as u128) / Single::from_bits(b as u128)).value.to_bits() as u32
}

/// Relies on rustc_apfloat's `Single` conversion from an unsigned integer:
/// the nearest binary32 value, which is finite, has a clear sign bit, is
/// zero only for zero, and is one for one.
#[verifier::external_body]
pub(crate) fn u64_to_f32(x: u64) -> (r: u32)
    ensures
        r == from_u64_bits(x),
        is_finite_bits(r),
        !sign_negative_bits(r),
        x == 0 ==> r == 0,
        x == 1 ==> r == ONE_BITS,
        x != 0 ==> !is_zero_bits(r),
{
    Single::from_u128(x as u128).value.to_bits() as u32
}

} // verus!
