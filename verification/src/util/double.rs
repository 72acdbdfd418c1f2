//! Double-precision numbers, carried as their IEEE 754 binary64 bit patterns.
//!
//! Comparisons are decided here on the bits. Arithmetic and conversions are
//! done by the `rustc_apfloat` crate; what they return is only named here.

use rustc_apfloat::ieee::Double;
use rustc_apfloat::{Float, Round};
use vstd::prelude::*;

verus! {

/// All bits but the sign.
pub const MAGNITUDE_MASK: u64 = 0x7FFF_FFFF_FFFF_FFFF;

/// The eleven exponent bits.
pub const EXPONENT_MASK: u64 = 0x7FF0_0000_0000_0000;

/// The fifty-two fraction bits.
pub const FRACTION_MASK: u64 = 0x000F_FFFF_FFFF_FFFF;

/// The bits of the sum of two doubles, rounded to nearest, ties to even.
pub uninterp spec fn ieee_sum(a: u64, b: u64) -> u64;

/// The bits of the difference of two doubles, rounded to nearest, ties to even.
pub uninterp spec fn ieee_difference(a: u64, b: u64) -> u64;

/// The bits of the product of two doubles, rounded to nearest, ties to even.
pub uninterp spec fn ieee_product(a: u64, b: u64) -> u64;

/// The bits of the quotient of two doubles, rounded to nearest, ties to even.
pub uninterp spec fn ieee_quotient(a: u64, b: u64) -> u64;

/// The bits of the double nearest to an integer, ties to even.
pub uninterp spec fn ieee_of_int(i: i64) -> u64;

/// The greatest integer not above a double, held to the range of `i64`.
pub uninterp spec fn ieee_floor(a: u64) -> i64;

/// The bits of the double nearest to a decimal numeral, or `None` where the
/// text is no numeral.
pub uninterp spec fn ieee_of_decimal(text: Seq<char>) -> Option<u64>;

/// Whether the bits are positive or negative zero.
pub open spec fn is_zero_bits(a: u64) -> bool {
    a & MAGNITUDE_MASK == 0
}

/// Whether the bits are a NaN: all exponent bits set and a fraction that is
/// not zero.
pub open spec fn is_nan_bits(a: u64) -> bool {
    a & EXPONENT_MASK == EXPONENT_MASK && a & FRACTION_MASK != 0
}

/// IEEE 754 equality: a NaN equals nothing, the two zeros equal each other,
/// and every other double equals only itself.
pub open spec fn same_double(a: u64, b: u64) -> bool {
    !is_nan_bits(a) && !is_nan_bits(b) && (a == b || (is_zero_bits(a) && is_zero_bits(b)))
}

/// Whether a double is zero of either sign.
pub fn double_is_zero(a: u64) -> (r: bool)
    ensures
        r == is_zero_bits(a),
{
    a & MAGNITUDE_MASK == 0
}

/// Whether a double is a NaN.
pub fn double_is_nan(a: u64) -> (r: bool)
    ensures
        r == is_nan_bits(a),
{
    a & EXPONENT_MASK == EXPONENT_MASK && a & FRACTION_MASK != 0
}

/// Compares two doubles as IEEE 754 does.
pub fn double_eq(a: u64, b: u64) -> (r: bool)
    ensures
        r == same_double(a, b),
{
    !double_is_nan(a) && !double_is_nan(b) && (a == b || (double_is_zero(a) && double_is_zero(
        b,
    )))
}

/// `Double::add` of `rustc_apfloat`, on bit patterns. Not proved: the result
/// is the bit pattern that the crate computes for the sum of the two
/// arguments, which depends on nothing else.
#[verifier::external_body]
pub(crate) fn double_add(a: u64, b: u64) -> (r: u64)
    ensures
        r == ieee_sum(a, b),
{
    (Double::from_bits(a as u128) + Double::from_bits(b as u128)).value.to_bits() as u64
}

/// `Double::sub` of `rustc_apfloat`, on bit patterns. Not proved: the result
/// is the bit pattern that the crate computes for the first argument minus
/// the second.
#[verifier::external_body]
pub(crate) fn double_sub(a: u64, b: u64) -> (r: u64)
    ensures
        r == ieee_difference(a, b),
{
    (Double::from_bits(a as u128) - Double::from_bits(b as u128)).value.to_bits() as u64
}

/// `Double::mul` of `rustc_apfloat`, on bit patterns. Not proved: the result
/// is the bit pattern that the crate computes for the product.
#[verifier::external_body]
pub(crate) fn double_mul(a: u64, b: u64) -> (r: u64)
    ensures
        r == ieee_product(a, b),
{
    (Double::from_bits(a as u128) * Double::from_bits(b as u128)).value.to_bits() as u64
}

/// `Double::div` of `rustc_apfloat`, on bit patterns. Not proved: the result
/// is the bit pattern that the crate computes for the first argument divided
/// by the second.
#[verifier::external_body]
pub(crate) fn double_div(a: u64, b: u64) -> (r: u64)
    ensures
        r == ieee_quotient(a, b),
{
    (Double::from_bits(a as u128) / Double::from_bits(b as u128)).value.to_bits() as u64
}

/// `Double::from_i128` of `rustc_apfloat`. Not proved: the result is the bit
/// pattern that the crate computes for the integer.
#[verifier::external_body]
pub(crate) fn double_from_int(i: i64) -> (r: u64)
    ensures
        r == ieee_of_int(i),
{
    Double::from_i128(i as i128).value.to_bits() as u64
}

/// `Double::to_i128_r` of `rustc_apfloat`, for 64 bits and rounding toward
/// negative infinity. Not proved: the result is the integer that the crate
/// computes, which by its source is zero for a NaN and the nearest end of
/// the 64-bit range for a value outside it.
#[verifier::external_body]
pub(crate) fn double_floor(a: u64) -> (r: i64)
    ensures
        r == ieee_floor(a),
{
    let mut exact = true;
    Double::from_bits(a as u128).to_i128_r(64, Round::TowardNegative, &mut exact).value as i64
}

/// `Double::from_str` of `rustc_apfloat`. Not proved: the result is the bit
/// pattern that the crate computes for the numeral, or `None` where the crate
/// rejects the text.
#[verifier::external_body]
pub(crate) fn double_from_decimal(text: &str) -> (r: Option<u64>)
    ensures
        r == ieee_of_decimal(text@),
{
    match text.parse::<Double>() {
        Ok(d) => Some(d.to_bits() as u64),
        Err(_) => None,
    }
}

} // verus!
