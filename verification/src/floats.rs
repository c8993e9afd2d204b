//! Floating-point operations on IEEE 754 double bit patterns.
//!
//! The evaluator carries floats as their bit patterns, and the arithmetic on
//! them is done by an outside software implementation of IEEE 754. Each
//! operation's result depends on the operand bits alone, so the results are
//! given names that the operator engine's contracts use exactly.

use rustc_apfloat::ieee::Double;
use rustc_apfloat::Float;
use vstd::prelude::*;

verus! {

/// The bits of the IEEE 754 double sum (ties to even) of the doubles with
/// bits `a` and `b`.
pub uninterp spec fn add_bits(a: u64, b: u64) -> u64;

/// The bits of the IEEE 754 double difference `a - b` (ties to even).
pub uninterp spec fn sub_bits(a: u64, b: u64) -> u64;

/// The bits of the IEEE 754 double product (ties to even).
pub uninterp spec fn mul_bits(a: u64, b: u64) -> u64;

/// The bits of the IEEE 754 double quotient (ties to even).
pub uninterp spec fn div_bits(a: u64, b: u64) -> u64;

/// Whether the double with bits `a` compares strictly below the one with
/// bits `b`; false whenever either is a NaN.
pub uninterp spec fn lt_bits(a: u64, b: u64) -> bool;

/// The bits of the double nearest to the 32-bit integer `i` (exact, since
/// every such integer is representable).
pub uninterp spec fn f64_of_i32(i: i32) -> u64;

/// Relies on rustc_apfloat's `Double`: `+` is IEEE 754 addition rounding
/// ties to even, a function of the operand bits alone.
#[verifier::external_body]
pub fn float_add(a: u64, b: u64) -> (r: u64)
    ensures
        r == add_bits(a, b),
{
    (Double::from_bits(a as u128) + Double::from_bits(b as u128)).value.to_bits() as u64
}

/// Relies on rustc_apfloat's `Double`: `-` is IEEE 754 subtraction rounding
/// ties to even, a function of the operand bits alone.
#[verifier::external_body]
pub fn float_sub(a: u64, b: u64) -> (r: u64)
    ensures
        r == sub_bits(a, b),
{
    (Double::from_bits(a as u128) - Double::from_bits(b as u128)).value.to_bits() as u64
}

/// Relies on rustc_apfloat's `Double`: `*` is IEEE 754 multiplication
/// rounding ties to even, a function of the operand bits alone.
#[verifier::external_body]
pub fn float_mul(a: u64, b: u64) -> (r: u64)
    ensures
        r == mul_bits(a, b),
{
    (Double::from_bits(a as u128) * Double::from_bits(b as u128)).value.to_bits() as u64
}

/// Relies on rustc_apfloat's `Double`: `/` is IEEE 754 division rounding
/// ties to even, a function of the operand bits alone.
#[verifier::external_body]
pub fn float_div(a: u64, b: u64) -> (r: u64)
    ensures
        r == div_bits(a, b),
{
    (Double::from_bits(a as u128) / Double::from_bits(b as u128)).value.to_bits() as u64
}

/// Relies on rustc_apfloat's `Double`: `<` is the IEEE 754 ordered
/// comparison, false on NaN operands, a function of the operand bits alone.
#[verifier::external_body]
pub fn float_lt(a: u64, b: u64) -> (r: bool)
    ensures
        r == lt_bits(a, b),
{
    Double::from_bits(a as u128) < Double::from_bits(b as u128)
}

/// Relies on rustc_apfloat's `Double::from_i128`: converts an integer to
/// the nearest double, a function of the integer alone.
#[verifier::external_body]
pub fn float_of_int(i: i32) -> (r: u64)
    ensures
        r == f64_of_i32(i),
{
    Double::from_i128(i as i128).value.to_bits() as u64
}

/// The bit pattern of the fixed tolerance used by float equality.
pub const FLOAT_EQ_EPS_BITS: u64 = 0x3e112e0be826d695;

/// Epsilon-tolerant float equality: both differences lie strictly below the
/// tolerance. False whenever a difference is a NaN.
pub open spec fn float_eq_bits(a: u64, b: u64) -> bool {
    lt_bits(sub_bits(a, b), FLOAT_EQ_EPS_BITS) && lt_bits(sub_bits(b, a), FLOAT_EQ_EPS_BITS)
}

/// Decides `float_eq_bits`.
pub fn float_eq(a: u64, b: u64) -> (r: bool)
    ensures
        r == float_eq_bits(a, b),
{
    let d1 = float_sub(a, b);
    let d2 = float_sub(b, a);
    float_lt(d1, FLOAT_EQ_EPS_BITS) && float_lt(d2, FLOAT_EQ_EPS_BITS)
}

} // verus!
