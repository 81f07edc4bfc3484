//! Trusted interface to IEEE-754 binary64 ("double") arithmetic.
//!
//! A numeric value is carried everywhere in this crate as the `u64` bit
//! pattern of an IEEE-754 binary64 value. Each primitive operation below is
//! computed by `rustc_apfloat`, a software implementation of IEEE-754, and
//! its result is a pure function of the input bit patterns. The verifier
//! knows each operation only by name: contracts elsewhere in the crate say
//! exactly which operations are applied to which bit patterns, and never
//! what numeric value a bit pattern denotes.

use rustc_apfloat::Float;
use vstd::prelude::*;

verus! {

/// The bit pattern of the IEEE-754 binary64 product of the values with bit
/// patterns `a` and `b`, rounded to nearest, ties to even.
pub uninterp spec fn f64_mul(a: u64, b: u64) -> u64;

/// The bit pattern of the IEEE-754 binary64 difference of the values with
/// bit patterns `a` and `b`, rounded to nearest, ties to even.
pub uninterp spec fn f64_sub(a: u64, b: u64) -> u64;

/// Whether the IEEE-754 binary64 value with bit pattern `a` compares less
/// than the one with bit pattern `b` (false whenever either is a NaN).
pub uninterp spec fn f64_lt(a: u64, b: u64) -> bool;

/// Whether the IEEE-754 binary64 values with bit patterns `a` and `b`
/// compare equal (false whenever either is a NaN; the two zeros are equal).
pub uninterp spec fn f64_eq(a: u64, b: u64) -> bool;

/// Relies on `rustc_apfloat::ieee::Double`'s multiplication (`mul_r`, round
/// to nearest, ties to even): the IEEE-754 product of two bit patterns.
#[verifier::external_body]
pub(crate) fn mul_bits(a: u64, b: u64) -> (r: u64)
    ensures
        r == f64_mul(a, b),
{
    let x = rustc_apfloat::ieee::Double::from_bits(a as u128);
    let y = rustc_apfloat::ieee::Double::from_bits(b as u128);
    (x * y).value.to_bits() as u64
}

/// Relies on `rustc_apfloat::ieee::Double`'s subtraction (`sub_r`, round to
/// nearest, ties to even): the IEEE-754 difference of two bit patterns.
#[verifier::external_body]
pub(crate) fn sub_bits(a: u64, b: u64) -> (r: u64)
    ensures
        r == f64_sub(a, b),
{
    let x = rustc_apfloat::ieee::Double::from_bits(a as u128);
    let y = rustc_apfloat::ieee::Double::from_bits(b as u128);
    (x - y).value.to_bits() as u64
}

/// Relies on `rustc_apfloat::ieee::Double`'s `PartialOrd`, which orders two
/// doubles as IEEE-754 does and leaves a NaN unordered.
#[verifier::external_body]
pub(crate) fn lt_bits(a: u64, b: u64) -> (r: bool)
    ensures
        r == f64_lt(a, b),
{
    let x = rustc_apfloat::ieee::Double::from_bits(a as u128);
    let y = rustc_apfloat::ieee::Double::from_bits(b as u128);
    x < y
}

/// Relies on `rustc_apfloat::ieee::Double`'s `PartialEq`, which compares two
/// doubles as IEEE-754 does: a NaN equals nothing, and the two zeros are
/// equal.
#[verifier::external_body]
pub(crate) fn eq_bits(a: u64, b: u64) -> (r: bool)
    ensures
        r == f64_eq(a, b),
{
    let x = rustc_apfloat::ieee::Double::from_bits(a as u128);
    let y = rustc_apfloat::ieee::Double::from_bits(b as u128);
    x == y
}

/// The bit pattern that [`sin_bits`] returns for the input bit pattern `b`:
/// the sine of the value of `b`, computed in signed 64-bit fixed-point
/// arithmetic with 32 fractional bits. Nothing is stated of its accuracy.
pub uninterp spec fn sin_of(b: u64) -> u64;

/// The bit pattern that [`cos_bits`] returns for the input bit pattern `b`:
/// the cosine of the value of `b`, computed in signed 64-bit fixed-point
/// arithmetic with 32 fractional bits. Nothing is stated of its accuracy.
pub uninterp spec fn cos_of(b: u64) -> u64;

/// Relies on `cordic::sin` over a signed 64-bit fixed-point number with 32
/// fractional bits; `rustc_apfloat` converts between the binary64 and the
/// fixed-point representations. Every step is computed in software, so the
/// result is a pure function of the input bit pattern; but the sine is
/// computed only to fixed-point precision (a bit pattern far outside the
/// fixed-point range saturates), so no more is promised of it.
#[verifier::external_body]
pub(crate) fn sin_bits(b: u64) -> (r: u64)
    ensures
        r == sin_of(b),
{
    let x = rustc_apfloat::ieee::Double::from_bits(b as u128).scalbn(32);
    let q = fixed::types::I32F32::from_bits(x.to_i128(64).value as i64);
    let s = cordic::sin(q);
    let r = rustc_apfloat::ieee::Double::from_i128(s.to_bits() as i128).value;
    r.scalbn(-32).to_bits() as u64
}

/// Relies on `cordic::cos`, exactly as [`sin_bits`] relies on
/// `cordic::sin`.
#[verifier::external_body]
pub(crate) fn cos_bits(b: u64) -> (r: u64)
    ensures
        r == cos_of(b),
{
    let x = rustc_apfloat::ieee::Double::from_bits(b as u128).scalbn(32);
    let q = fixed::types::I32F32::from_bits(x.to_i128(64).value as i64);
    let s = cordic::cos(q);
    let r = rustc_apfloat::ieee::Double::from_i128(s.to_bits() as i128).value;
    r.scalbn(-32).to_bits() as u64
}

} // verus!
