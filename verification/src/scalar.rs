//! Scalar arithmetic for the engine.
//!
//! Every number the network touches is an IEEE 754 single-precision value,
//! carried everywhere as its 32-bit pattern.  The four rounded arithmetic
//! operations and the two transcendentals the activations need are performed
//! by outside crates; each is named by an uninterpreted spec function, so
//! contracts up the stack can pin results exactly in terms of these names.
use vstd::prelude::*;
use rustc_apfloat::Float;

verus! {

/// Bit pattern of 0.0f32.
pub const ZERO_BITS: u32 = 0x0000_0000;

/// Bit pattern of 0.5f32.
pub const HALF_BITS: u32 = 0x3F00_0000;

/// Bit pattern of 1.0f32.
pub const ONE_BITS: u32 = 0x3F80_0000;

/// Bit pattern of 2.0f32.
pub const TWO_BITS: u32 = 0x4000_0000;

/// The sign bit of a single-precision pattern.
pub const SIGN_MASK: u32 = 0x8000_0000;

/// The rounded single-precision sum of the values with the given bit patterns.
pub uninterp spec fn spec_sum(a: u32, b: u32) -> u32;

/// The rounded single-precision difference of the values with the given bit patterns.
pub uninterp spec fn spec_diff(a: u32, b: u32) -> u32;

/// The rounded single-precision product of the values with the given bit patterns.
pub uninterp spec fn spec_prod(a: u32, b: u32) -> u32;

/// The rounded single-precision quotient of the values with the given bit patterns.
pub uninterp spec fn spec_quot(a: u32, b: u32) -> u32;

/// The single-precision exponential of the value with the given bit pattern.
pub uninterp spec fn spec_exp(a: u32) -> u32;

/// The single-precision natural logarithm of the value with the given bit pattern.
pub uninterp spec fn spec_ln(a: u32) -> u32;

/// Relies on rustc_apfloat's software IEEE 754 single-precision addition,
/// rounding to nearest, ties to even; the result depends on the two bit
/// patterns alone.
#[verifier::external_body]
pub fn add_bits(a: u32, b: u32) -> (r: u32)
    ensures
        r == spec_sum(a, b),
{
    let x = rustc_apfloat::ieee::Single::from_bits(a as u128);
    let y = rustc_apfloat::ieee::Single::from_bits(b as u128);
    (x + y).value.to_bits() as u32
}

/// Relies on rustc_apfloat's software IEEE 754 single-precision subtraction,
/// rounding to nearest, ties to even; the result depends on the two bit
/// patterns alone.
#[verifier::external_body]
pub fn sub_bits(a: u32, b: u32) -> (r: u32)
    ensures
        r == spec_diff(a, b),
{
    let x = rustc_apfloat::ieee::Single::from_bits(a as u128);
    let y = rustc_apfloat::ieee::Single::from_bits(b as u128);
    (x - y).value.to_bits() as u32
}

/// Relies on rustc_apfloat's software IEEE 754 single-precision multiplication,
/// rounding to nearest, ties to even; the result depends on the two bit
/// patterns alone.
#[verifier::external_body]
pub fn mul_bits(a: u32, b: u32) -> (r: u32)
    ensures
        r == spec_prod(a, b),
{
    let x = rustc_apfloat::ieee::Single::from_bits(a as u128);
    let y = rustc_apfloat::ieee::Single::from_bits(b as u128);
    (x * y).value.to_bits() as u32
}

/// Relies on rustc_apfloat's software IEEE 754 single-precision division,
/// rounding to nearest, ties to even; the result depends on the two bit
/// patterns alone.
#[verifier::external_body]
pub fn div_bits(a: u32, b: u32) -> (r: u32)
    ensures
        r == spec_quot(a, b),
{
    let x = rustc_apfloat::ieee::Single::from_bits(a as u128);
    let y = rustc_apfloat::ieee::Single::from_bits(b as u128);
    (x / y).value.to_bits() as u32
}

/// Relies on libm::expf, a pure-software exponential whose result depends on
/// the bit pattern of its argument alone.
#[verifier::external_body]
pub fn exp_bits(a: u32) -> (r: u32)
    ensures
        r == spec_exp(a),
{
    bytemuck::cast(libm::expf(bytemuck::cast(a)))
}

/// Relies on libm::logf, a pure-software natural logarithm whose result
/// depends on the bit pattern of its argument alone.
#[verifier::external_body]
pub fn ln_bits(a: u32) -> (r: u32)
    ensures
        r == spec_ln(a),
{
    bytemuck::cast(libm::logf(bytemuck::cast(a)))
}

/// A fresh parameter value: uniformly distributed in [0, 1).
///
/// Relies on rand::random for the draw and on rustc_apfloat for the
/// subtraction: the random word fills the mantissa of a pattern in [1, 2),
/// and subtracting one is exact on that interval, so every outcome lies in
/// [0, 1) — as a bit pattern, strictly below the pattern of one.
#[verifier::external_body]
pub fn random_unit_bits() -> (r: u32)
    ensures
        r < ONE_BITS,
{
    let w: u32 = rand::random::<u32>();
    let x = rustc_apfloat::ieee::Single::from_bits((ONE_BITS | (w >> 9)) as u128);
    let one = rustc_apfloat::ieee::Single::from_bits(ONE_BITS as u128);
    (x - one).value.to_bits() as u32
}

/// The negation of a single-precision value: IEEE 754 negation flips exactly
/// the sign bit.
pub open spec fn spec_neg(a: u32) -> u32 {
    a ^ SIGN_MASK
}

/// Flips the sign of the value with the given bit pattern.
pub fn neg_bits(a: u32) -> (r: u32)
    ensures
        r == spec_neg(a),
{
    a ^ SIGN_MASK
}

/// A pattern whose exponent field is saturated and whose mantissa is nonzero
/// encodes a NaN.
pub open spec fn spec_is_nan(a: u32) -> bool {
    (a & 0x7FFF_FFFF) > 0x7F80_0000
}

} // verus!
