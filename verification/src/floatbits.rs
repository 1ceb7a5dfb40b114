//! IEEE-754 single-precision arithmetic on bit patterns.
//!
//! The verified code never holds a native float: every channel value is the
//! 32-bit pattern of an IEEE-754 single.  The arithmetic the gradient engine
//! needs is performed by `rustc_apfloat`, a pure-integer IEEE-754
//! implementation whose operations (round to nearest, ties to even) are
//! functions of the operand bit patterns alone; each operation is named by an
//! uninterpreted spec function.

use vstd::prelude::*;
use rustc_apfloat::Float;
use rustc_apfloat::FloatConvert;
use rustc_apfloat::ieee::{Double, Single};

verus! {

/// Bit pattern of the IEEE-754 single-precision sum of two singles.
pub uninterp spec fn add_bits(a: u32, b: u32) -> u32;

/// Bit pattern of the IEEE-754 single-precision difference of two singles.
pub uninterp spec fn sub_bits(a: u32, b: u32) -> u32;

/// Bit pattern of the IEEE-754 single-precision product of two singles.
pub uninterp spec fn mul_bits(a: u32, b: u32) -> u32;

/// Bit pattern of the IEEE-754 single-precision quotient of two singles.
pub uninterp spec fn div_bits(a: u32, b: u32) -> u32;

/// Bit pattern of the IEEE-754 single nearest to a signed integer.
pub uninterp spec fn single_of_int(x: i128) -> u32;

/// Bit pattern of the IEEE-754 single nearest to an IEEE-754 double, given by
/// the double's bit pattern.
pub uninterp spec fn single_of_double(x: u64) -> u32;

/// Relies on `rustc_apfloat::ieee::Single` addition: IEEE-754 single
/// precision, round to nearest even, a function of the operand bits alone.
#[verifier::external_body]
pub(crate) fn f32_add(a: u32, b: u32) -> (r: u32)
    ensures
        r == add_bits(a, b),
{
    (Single::from_bits(a as u128) + Single::from_bits(b as u128)).value.to_bits() as u32
}

/// Relies on `rustc_apfloat::ieee::Single` subtraction: IEEE-754 single
/// precision, round to nearest even, a function of the operand bits alone.
#[verifier::external_body]
pub(crate) fn f32_sub(a: u32, b: u32) -> (r: u32)
    ensures
        r == sub_bits(a, b),
{
    (Single::from_bits(a as u128) - Single::from_bits(b as u128)).value.to_bits() as u32
}

/// Relies on `rustc_apfloat::ieee::Single` multiplication: IEEE-754 single
/// precision, round to nearest even, a function of the operand bits alone.
#[verifier::external_body]
pub(crate) fn f32_mul(a: u32, b: u32) -> (r: u32)
    ensures
        r == mul_bits(a, b),
{
    (Single::from_bits(a as u128) * Single::from_bits(b as u128)).value.to_bits() as u32
}

/// Relies on `rustc_apfloat::ieee::Single` division: IEEE-754 single
/// precision, round to nearest even, a function of the operand bits alone.
#[verifier::external_body]
pub(crate) fn f32_div(a: u32, b: u32) -> (r: u32)
    ensures
        r == div_bits(a, b),
{
    (Single::from_bits(a as u128) / Single::from_bits(b as u128)).value.to_bits() as u32
}

/// Relies on `rustc_apfloat::ieee::Single::from_i128`: rounds a signed
/// integer to the nearest IEEE-754 single, a function of the integer alone.
#[verifier::external_body]
pub(crate) fn f32_of_i128(x: i128) -> (r: u32)
    ensures
        r == single_of_int(x),
{
    Single::from_i128(x).value.to_bits() as u32
}

/// Relies on `rustc_apfloat::FloatConvert`: rounds an IEEE-754 double to the
/// nearest single, a function of the double's bits alone.
#[verifier::external_body]
pub(crate) fn f64_bits_to_f32_bits(x: u64) -> (r: u32)
    ensures
        r == single_of_double(x),
{
    let mut loses_info = false;
    let narrowed: rustc_apfloat::StatusAnd<Single> = Double::from_bits(
        x as u128,
    ).convert(&mut loses_info);
    narrowed.value.to_bits() as u32
}

} // verus!
