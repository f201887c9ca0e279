//! IEEE double values carried as their 64-bit patterns.
//!
//! Verus has no model of floating point, so every probability in this crate
//! travels as the bit pattern of an IEEE double, held in a `u64`.  The
//! arithmetic on such patterns is delegated to `rustc_apfloat`, a software
//! implementation of IEEE-754 binary64 with round-to-nearest-even, behind
//! trusted wrappers; each operation's result is named by an uninterpreted
//! spec function, so contracts can pin results down exactly.
//!
//! For a non-negative, non-NaN double, the unsigned order of the bit
//! patterns agrees with the numeric order of the values; in particular a
//! pattern at most `BITS_ONE` is exactly a value in [0, 1].

use vstd::prelude::*;

use rustc_apfloat::ieee::Double;
use rustc_apfloat::Float;

verus! {

/// Bit pattern of the double 1.0.
pub const BITS_ONE: u64 = 0x3FF0_0000_0000_0000;

/// Bit pattern of the double +0.0.
pub const BITS_ZERO: u64 = 0;

/// Bit pattern of +infinity.
pub const BITS_INF: u64 = 0x7FF0_0000_0000_0000;

/// Bit pattern of the quiet NaN that `f64::NAN` denotes.
pub const BITS_NAN: u64 = 0x7FF8_0000_0000_0000;

/// Bit pattern of the tolerance constant 1.0 - 1e-4 (named EPSILON by the
/// two-sided convention): the fraction of the observed table's probability
/// that bounds the opposite tail's inclusion band.
pub const BITS_EPSILON: u64 = 0x3FEF_FF2E_48E8_A71E;

/// Bit pattern of the double 1.0 - (1.0 - 1e-4): the relative distance
/// under which the observed table counts as sitting at the mode.
pub const BITS_MODE_TOL: u64 = 0x3F1A_36E2_EB1C_4000;

pub uninterp spec fn add_bits(x: u64, y: u64) -> u64;

pub uninterp spec fn sub_bits(x: u64, y: u64) -> u64;

pub uninterp spec fn mul_bits(x: u64, y: u64) -> u64;

pub uninterp spec fn div_bits(x: u64, y: u64) -> u64;

pub uninterp spec fn lt_bits(x: u64, y: u64) -> bool;

pub uninterp spec fn le_bits(x: u64, y: u64) -> bool;

pub uninterp spec fn double_of_u64(x: u64) -> u64;

/// Relies on rustc_apfloat's IEEE double addition (round to nearest, ties to
/// even): a pure function of the two operand bit patterns.
#[verifier::external_body]
pub(crate) fn f_add(x: u64, y: u64) -> (r: u64)
    ensures
        r == add_bits(x, y),
{
    (Double::from_bits(x as u128) + Double::from_bits(y as u128)).value.to_bits() as u64
}

/// Relies on rustc_apfloat's IEEE double subtraction (round to nearest, ties
/// to even): a pure function of the two operand bit patterns.
#[verifier::external_body]
pub(crate) fn f_sub(x: u64, y: u64) -> (r: u64)
    ensures
        r == sub_bits(x, y),
{
    (Double::from_bits(x as u128) - Double::from_bits(y as u128)).value.to_bits() as u64
}

/// Relies on rustc_apfloat's IEEE double multiplication (round to nearest,
/// ties to even): a pure function of the two operand bit patterns.
#[verifier::external_body]
pub(crate) fn f_mul(x: u64, y: u64) -> (r: u64)
    ensures
        r == mul_bits(x, y),
{
    (Double::from_bits(x as u128) * Double::from_bits(y as u128)).value.to_bits() as u64
}

/// Relies on rustc_apfloat's IEEE double division (round to nearest, ties to
/// even): a pure function of the two operand bit patterns.
#[verifier::external_body]
pub(crate) fn f_div(x: u64, y: u64) -> (r: u64)
    ensures
        r == div_bits(x, y),
{
    (Double::from_bits(x as u128) / Double::from_bits(y as u128)).value.to_bits() as u64
}

/// Relies on rustc_apfloat's IEEE double comparison: `<` on the values the
/// two patterns denote, false whenever either is NaN.
#[verifier::external_body]
pub(crate) fn f_lt(x: u64, y: u64) -> (r: bool)
    ensures
        r == lt_bits(x, y),
{
    Double::from_bits(x as u128) < Double::from_bits(y as u128)
}

/// Relies on rustc_apfloat's IEEE double comparison: `<=` on the values the
/// two patterns denote, false whenever either is NaN.
#[verifier::external_body]
pub(crate) fn f_le(x: u64, y: u64) -> (r: bool)
    ensures
        r == le_bits(x, y),
{
    Double::from_bits(x as u128) <= Double::from_bits(y as u128)
}

/// Relies on rustc_apfloat's conversion of an unsigned integer to an IEEE
/// double (round to nearest, ties to even): a pure function of the integer.
#[verifier::external_body]
pub(crate) fn f_from_u64(x: u64) -> (r: u64)
    ensures
        r == double_of_u64(x),
{
    Double::from_u128(x as u128).value.to_bits() as u64
}

/// Whether a bit pattern denotes a NaN: all-ones exponent with a non-zero
/// mantissa.
pub open spec fn is_nan_bits(x: u64) -> bool {
    (x & 0x7FF0_0000_0000_0000) == 0x7FF0_0000_0000_0000 && (x & 0x000F_FFFF_FFFF_FFFF) != 0
}

/// Runtime NaN test on a bit pattern, equal to `is_nan_bits`.
pub fn nan_test(x: u64) -> (r: bool)
    ensures
        r == is_nan_bits(x),
{
    (x & 0x7FF0_0000_0000_0000) == 0x7FF0_0000_0000_0000 && (x & 0x000F_FFFF_FFFF_FFFF) != 0
}

/// The absolute value of a double clears its sign bit and changes nothing
/// else; this is the whole behaviour of `abs`, so it is implemented here
/// rather than trusted.
pub open spec fn abs_bits(x: u64) -> u64 {
    x & 0x7FFF_FFFF_FFFF_FFFF
}

pub fn f_abs(x: u64) -> (r: u64)
    ensures
        r == abs_bits(x),
{
    x & 0x7FFF_FFFF_FFFF_FFFF
}

/// IEEE maxNum on two bit patterns: the larger of the two values, or the
/// other operand when one is NaN.  Only the `<` comparison itself needs
/// the trusted `lt_bits`; the NaN tests and the selection are plain bit
/// work, so the function is verified rather than trusted.
pub open spec fn max_bits(x: u64, y: u64) -> u64 {
    if is_nan_bits(x) {
        y
    } else if is_nan_bits(y) {
        x
    } else if lt_bits(x, y) {
        y
    } else {
        x
    }
}

pub fn f_max(x: u64, y: u64) -> (r: u64)
    ensures
        r == max_bits(x, y),
{
    if nan_test(x) {
        y
    } else if nan_test(y) {
        x
    } else if f_lt(x, y) {
        y
    } else {
        x
    }
}

/// The clamp of a computed p-value into [0, 1].
///
/// A pattern at most `BITS_ONE` already denotes a value in [0, 1] and is
/// kept as it is.  Everything else is out of range for a probability:
/// values above 1.0 and NaNs clamp to 1.0 (as `min` with 1.0 would give),
/// negative values and the negative zero clamp to +0.0.  The result is
/// always a pattern at most `BITS_ONE`, which is the [0, 1] invariant of
/// every p-value this crate returns.
pub open spec fn clamp01_bits(p: u64) -> u64 {
    if p <= BITS_ONE {
        p
    } else if p <= 0x7FFF_FFFF_FFFF_FFFF {
        BITS_ONE
    } else if p >= 0xFFF0_0000_0000_0001 {
        BITS_ONE
    } else {
        BITS_ZERO
    }
}

pub fn clamp01(p: u64) -> (r: u64)
    ensures
        r == clamp01_bits(p),
        r <= BITS_ONE,
{
    if p <= BITS_ONE {
        p
    } else if p <= 0x7FFF_FFFF_FFFF_FFFF {
        BITS_ONE
    } else if p >= 0xFFF0_0000_0000_0001 {
        BITS_ONE
    } else {
        BITS_ZERO
    }
}

} // verus!
