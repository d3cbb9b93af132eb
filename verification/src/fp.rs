//! Scalars as IEEE-754 binary64 bit patterns.
//!
//! Every scalar the engine touches is carried as the `u64` bit pattern of an
//! IEEE-754 binary64 number. The five arithmetic operations the engine needs
//! are performed by `rustc_apfloat`, a pure software implementation of
//! IEEE-754 with round-to-nearest-even: each result is a deterministic
//! function of the operand bit patterns alone, so each operation gets an
//! uninterpreted name below, and every contract in the crate is stated
//! exactly over those names. Degenerate operands (division by zero, NaN,
//! infinities) are not errors: they propagate through the arithmetic exactly
//! as IEEE-754 prescribes.
use vstd::prelude::*;
use rustc_apfloat::Float;

verus! {

/// Bit pattern of the binary64 number 0.0.
pub const BITS_ZERO: u64 = 0;

/// Bit pattern of the binary64 number -0.0 (sign bit set, all else clear).
pub const BITS_NEG_ZERO: u64 = 0x8000_0000_0000_0000;

/// Bit pattern of the binary64 number 1.0.
pub const BITS_ONE: u64 = 0x3FF0_0000_0000_0000;

/// Bit pattern of the binary64 number -1.0.
pub const BITS_NEG_ONE: u64 = 0xBFF0_0000_0000_0000;

/// The IEEE-754 binary64 sum of the numbers with bit patterns `a` and `b`.
pub uninterp spec fn add_bits(a: u64, b: u64) -> u64;

/// The IEEE-754 binary64 difference of the numbers with bit patterns `a` and `b`.
pub uninterp spec fn sub_bits(a: u64, b: u64) -> u64;

/// The IEEE-754 binary64 product of the numbers with bit patterns `a` and `b`.
pub uninterp spec fn mul_bits(a: u64, b: u64) -> u64;

/// The IEEE-754 binary64 quotient of the numbers with bit patterns `a` and `b`.
pub uninterp spec fn div_bits(a: u64, b: u64) -> u64;

/// The IEEE-754 binary64 negation of the number with bit pattern `a`.
pub uninterp spec fn neg_bits(a: u64) -> u64;

/// Relies on `rustc_apfloat::ieee::Double` addition (IEEE-754 binary64,
/// round to nearest even): the result depends on the operand bits alone.
#[verifier::external_body]
pub(crate) fn fp_add(a: u64, b: u64) -> (r: u64)
    ensures
        r == add_bits(a, b),
{
    let x = rustc_apfloat::ieee::Double::from_bits(a as u128);
    let y = rustc_apfloat::ieee::Double::from_bits(b as u128);
    (x + y).value.to_bits() as u64
}

/// Relies on `rustc_apfloat::ieee::Double` subtraction (IEEE-754 binary64,
/// round to nearest even): the result depends on the operand bits alone.
#[verifier::external_body]
pub(crate) fn fp_sub(a: u64, b: u64) -> (r: u64)
    ensures
        r == sub_bits(a, b),
{
    let x = rustc_apfloat::ieee::Double::from_bits(a as u128);
    let y = rustc_apfloat::ieee::Double::from_bits(b as u128);
    (x - y).value.to_bits() as u64
}

/// Relies on `rustc_apfloat::ieee::Double` multiplication (IEEE-754 binary64,
/// round to nearest even): the result depends on the operand bits alone.
#[verifier::external_body]
pub(crate) fn fp_mul(a: u64, b: u64) -> (r: u64)
    ensures
        r == mul_bits(a, b),
{
    let x = rustc_apfloat::ieee::Double::from_bits(a as u128);
    let y = rustc_apfloat::ieee::Double::from_bits(b as u128);
    (x * y).value.to_bits() as u64
}

/// Relies on `rustc_apfloat::ieee::Double` division (IEEE-754 binary64,
/// round to nearest even): the result depends on the operand bits alone.
/// A zero divisor yields an infinity or NaN, as IEEE-754 prescribes.
#[verifier::external_body]
pub(crate) fn fp_div(a: u64, b: u64) -> (r: u64)
    ensures
        r == div_bits(a, b),
{
    let x = rustc_apfloat::ieee::Double::from_bits(a as u128);
    let y = rustc_apfloat::ieee::Double::from_bits(b as u128);
    (x / y).value.to_bits() as u64
}

/// Relies on `rustc_apfloat::ieee::Double` negation (a sign-bit flip):
/// the result depends on the operand bits alone.
#[verifier::external_body]
pub(crate) fn fp_neg(a: u64) -> (r: u64)
    ensures
        r == neg_bits(a),
{
    let x = rustc_apfloat::ieee::Double::from_bits(a as u128);
    (-x).to_bits() as u64
}

} // verus!
