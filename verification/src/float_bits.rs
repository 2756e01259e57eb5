//! IEEE-754 binary64 values carried as their raw bit patterns.
//!
//! Prices and sizes travel through the library as the `u64` that
//! `f64::to_bits` yields; every comparison the trading logic makes is
//! computed here on those bits and specified by the sign/exponent/mantissa
//! reading of the standard.

use vstd::prelude::*;

verus! {

/// The sign bit of a binary64 value.
pub const SIGN_BIT: u64 = 0x8000_0000_0000_0000;

/// Every bit but the sign bit (the magnitude).
pub const MAGNITUDE_BITS: u64 = 0x7FFF_FFFF_FFFF_FFFF;

/// The exponent field.
pub const EXPONENT_BITS: u64 = 0x7FF0_0000_0000_0000;

/// The mantissa (fraction) field.
pub const MANTISSA_BITS: u64 = 0x000F_FFFF_FFFF_FFFF;

/// The bit pattern of `+0.0`.
pub const POSITIVE_ZERO: u64 = 0;

/// The value has its sign bit set (this includes `-0.0` and negative NaNs).
pub open spec fn sign_set(bits: u64) -> bool {
    bits & SIGN_BIT != 0
}

/// The magnitude of the value: its bits with the sign cleared.
pub open spec fn magnitude(bits: u64) -> u64 {
    bits & MAGNITUDE_BITS
}

/// NaN: all exponent bits set and a non-zero mantissa.
pub open spec fn is_nan(bits: u64) -> bool {
    bits & EXPONENT_BITS == EXPONENT_BITS && bits & MANTISSA_BITS != 0
}

/// Finite: the exponent field is not all ones (neither infinite nor NaN).
pub open spec fn is_finite(bits: u64) -> bool {
    bits & EXPONENT_BITS != EXPONENT_BITS
}

/// `+0.0` or `-0.0`.
pub open spec fn is_zero(bits: u64) -> bool {
    magnitude(bits) == 0
}

/// The numeric `<` of IEEE-754: false whenever a NaN takes part, the two
/// zeros are equal, and among values of one sign the magnitude bits order
/// them (ascending for positive values, descending for negative ones).
pub open spec fn float_lt(a: u64, b: u64) -> bool {
    &&& !is_nan(a)
    &&& !is_nan(b)
    &&& !(is_zero(a) && is_zero(b))
    &&& if sign_set(a) && !sign_set(b) {
        true
    } else if !sign_set(a) && sign_set(b) {
        false
    } else if !sign_set(a) {
        magnitude(a) < magnitude(b)
    } else {
        magnitude(b) < magnitude(a)
    }
}

/// The numeric `==` of IEEE-754: equal bits, or both zeros; never for NaN.
pub open spec fn float_eq(a: u64, b: u64) -> bool {
    !is_nan(a) && !is_nan(b) && (a == b || (is_zero(a) && is_zero(b)))
}

/// The numeric `<=` of IEEE-754.
pub open spec fn float_le(a: u64, b: u64) -> bool {
    float_lt(a, b) || float_eq(a, b)
}

/// The numeric `>` of IEEE-754.
pub open spec fn float_gt(a: u64, b: u64) -> bool {
    float_lt(b, a)
}

/// The value is `<= 0.0` (false for NaN).
pub open spec fn float_le_zero(bits: u64) -> bool {
    float_le(bits, POSITIVE_ZERO)
}

/// The value is finite and `> 0.0`: a usable order size or price.
pub open spec fn positive_finite(bits: u64) -> bool {
    is_finite(bits) && !float_le_zero(bits)
}

/// Numeric `a < b` on two binary64 bit patterns.
pub fn f64_lt(a: u64, b: u64) -> (r: bool)
    ensures
        r == float_lt(a, b),
{
    let a_nan = a & EXPONENT_BITS == EXPONENT_BITS && a & MANTISSA_BITS != 0;
    let b_nan = b & EXPONENT_BITS == EXPONENT_BITS && b & MANTISSA_BITS != 0;
    if a_nan || b_nan {
        return false;
    }
    let a_mag = a & MAGNITUDE_BITS;
    let b_mag = b & MAGNITUDE_BITS;
    if a_mag == 0 && b_mag == 0 {
        return false;
    }
    let a_neg = a & SIGN_BIT != 0;
    let b_neg = b & SIGN_BIT != 0;
    if a_neg && !b_neg {
        true
    } else if !a_neg && b_neg {
        false
    } else if !a_neg {
        a_mag < b_mag
    } else {
        b_mag < a_mag
    }
}

/// Numeric `a <= b` on two binary64 bit patterns.
pub fn f64_le(a: u64, b: u64) -> (r: bool)
    ensures
        r == float_le(a, b),
{
    let a_nan = a & EXPONENT_BITS == EXPONENT_BITS && a & MANTISSA_BITS != 0;
    let b_nan = b & EXPONENT_BITS == EXPONENT_BITS && b & MANTISSA_BITS != 0;
    if a_nan || b_nan {
        return false;
    }
    if a == b || (a & MAGNITUDE_BITS == 0 && b & MAGNITUDE_BITS == 0) {
        return true;
    }
    f64_lt(a, b)
}

/// Numeric `a > b` on two binary64 bit patterns.
pub fn f64_gt(a: u64, b: u64) -> (r: bool)
    ensures
        r == float_gt(a, b),
{
    f64_lt(b, a)
}

/// Numeric `x <= 0.0`.
pub fn f64_le_zero(x: u64) -> (r: bool)
    ensures
        r == float_le_zero(x),
{
    f64_le(x, POSITIVE_ZERO)
}

/// `f64::is_finite` on a bit pattern.
pub fn f64_is_finite(x: u64) -> (r: bool)
    ensures
        r == is_finite(x),
{
    x & EXPONENT_BITS != EXPONENT_BITS
}

} // verus!
