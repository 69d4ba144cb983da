//! The numeric ground of the calculator.
//!
//! Every value on the calculator's stack is an IEEE 754 binary64 number,
//! carried as its 64-bit pattern in a `u64`. The arithmetic and the textual
//! parsing of such numbers are done by the `rustc_apfloat` crate, a software
//! implementation of IEEE 754 that works directly on bit patterns; each
//! operation is pinned by a spec function of the bits alone, and a trusted
//! wrapper ties the call to that spec. The test for whitespace, needed to
//! split a line into tokens, stands here on the same footing.
use rustc_apfloat::Float;
use vstd::prelude::*;

verus! {

/// The bit pattern of the negation of the number with bit pattern `a`:
/// IEEE 754 negation inverts the sign bit and changes nothing else.
pub open spec fn neg_bits(a: u64) -> u64 {
    a ^ 0x8000_0000_0000_0000
}

/// The bit pattern of the sum of the numbers with bit patterns `a` and `b`.
pub uninterp spec fn add_bits(a: u64, b: u64) -> u64;

/// The bit pattern of the difference of the numbers with bit patterns `a` and `b`.
pub uninterp spec fn sub_bits(a: u64, b: u64) -> u64;

/// The bit pattern of the product of the numbers with bit patterns `a` and `b`.
pub uninterp spec fn mul_bits(a: u64, b: u64) -> u64;

/// The bit pattern of the quotient of the numbers with bit patterns `a` and `b`.
pub uninterp spec fn div_bits(a: u64, b: u64) -> u64;

/// Whether the numbers with bit patterns `a` and `b` compare equal.
pub uninterp spec fn eq_bits(a: u64, b: u64) -> bool;

/// Whether the number with bit pattern `a` compares greater than the one with `b`.
pub uninterp spec fn gt_bits(a: u64, b: u64) -> bool;

/// Whether the number with bit pattern `a` compares less than the one with `b`.
pub uninterp spec fn lt_bits(a: u64, b: u64) -> bool;

/// The bit pattern of the number that the text `s` denotes, or `None` where
/// `s` is no valid numeric literal.
pub uninterp spec fn parsed_float(s: Seq<char>) -> Option<u64>;

/// Whether `c` has the Unicode `White_Space` property.
pub uninterp spec fn is_space(c: char) -> bool;

/// Relies on `Neg for rustc_apfloat::ieee::Double` together with its
/// `from_bits` and `to_bits`: negation flips the sign flag alone, and the
/// bit-pattern conversions keep sign, exponent and significand exactly, so
/// the result is the operand with its sign bit inverted.
#[verifier::external_body]
pub(crate) fn neg_val(a: u64) -> (r: u64)
    ensures
        r == neg_bits(a),
{
    (-rustc_apfloat::ieee::Double::from_bits(a as u128)).to_bits() as u64
}

/// Relies on `Add for rustc_apfloat::ieee::Double`: IEEE 754 addition with
/// round to nearest, ties to even, a function of the operand bit patterns alone.
#[verifier::external_body]
pub(crate) fn add_val(a: u64, b: u64) -> (r: u64)
    ensures
        r == add_bits(a, b),
{
    let x = rustc_apfloat::ieee::Double::from_bits(a as u128);
    let y = rustc_apfloat::ieee::Double::from_bits(b as u128);
    (x + y).value.to_bits() as u64
}

/// Relies on `Sub for rustc_apfloat::ieee::Double`: IEEE 754 subtraction with
/// round to nearest, ties to even, a function of the operand bit patterns alone.
#[verifier::external_body]
pub(crate) fn sub_val(a: u64, b: u64) -> (r: u64)
    ensures
        r == sub_bits(a, b),
{
    let x = rustc_apfloat::ieee::Double::from_bits(a as u128);
    let y = rustc_apfloat::ieee::Double::from_bits(b as u128);
    (x - y).value.to_bits() as u64
}

/// Relies on `Mul for rustc_apfloat::ieee::Double`: IEEE 754 multiplication with
/// round to nearest, ties to even, a function of the operand bit patterns alone.
#[verifier::external_body]
pub(crate) fn mul_val(a: u64, b: u64) -> (r: u64)
    ensures
        r == mul_bits(a, b),
{
    let x = rustc_apfloat::ieee::Double::from_bits(a as u128);
    let y = rustc_apfloat::ieee::Double::from_bits(b as u128);
    (x * y).value.to_bits() as u64
}

/// Relies on `Div for rustc_apfloat::ieee::Double`: IEEE 754 division with
/// round to nearest, ties to even; division by zero gives an infinity and
/// 0/0 gives a NaN, so the result is a function of the operand bit patterns alone.
#[verifier::external_body]
pub(crate) fn div_val(a: u64, b: u64) -> (r: u64)
    ensures
        r == div_bits(a, b),
{
    let x = rustc_apfloat::ieee::Double::from_bits(a as u128);
    let y = rustc_apfloat::ieee::Double::from_bits(b as u128);
    (x / y).value.to_bits() as u64
}

/// Relies on `PartialEq for rustc_apfloat::ieee::Double`: the IEEE 754 equality
/// predicate (NaN equal to nothing, the two zeros equal to each other), a
/// function of the operand bit patterns alone.
#[verifier::external_body]
pub(crate) fn eq_val(a: u64, b: u64) -> (r: bool)
    ensures
        r == eq_bits(a, b),
{
    rustc_apfloat::ieee::Double::from_bits(a as u128)
        == rustc_apfloat::ieee::Double::from_bits(b as u128)
}

/// Relies on `PartialOrd::gt for rustc_apfloat::ieee::Double`: the IEEE 754
/// ordering (false on NaN operands), a function of the operand bit patterns alone.
#[verifier::external_body]
pub(crate) fn gt_val(a: u64, b: u64) -> (r: bool)
    ensures
        r == gt_bits(a, b),
{
    rustc_apfloat::ieee::Double::from_bits(a as u128)
        > rustc_apfloat::ieee::Double::from_bits(b as u128)
}

/// Relies on `PartialOrd::lt for rustc_apfloat::ieee::Double`: the IEEE 754
/// ordering (false on NaN operands), a function of the operand bit patterns alone.
#[verifier::external_body]
pub(crate) fn lt_val(a: u64, b: u64) -> (r: bool)
    ensures
        r == lt_bits(a, b),
{
    rustc_apfloat::ieee::Double::from_bits(a as u128)
        < rustc_apfloat::ieee::Double::from_bits(b as u128)
}

/// Relies on `FromStr for rustc_apfloat::ieee::Double`: decimal and scientific
/// literals are converted to the nearest binary64 value (ties to even), and a
/// string that denotes no number is rejected; the outcome is a function of the
/// characters alone.
#[verifier::external_body]
pub(crate) fn parse_float(s: &str) -> (r: Option<u64>)
    ensures
        r == parsed_float(s@),
{
    match s.parse::<rustc_apfloat::ieee::Double>() {
        Ok(d) => Some(d.to_bits() as u64),
        Err(_) => None,
    }
}

/// Relies on `char::is_whitespace`: the Unicode `White_Space` property is a
/// property of the character alone.
#[verifier::external_body]
pub(crate) fn char_is_space(c: char) -> (r: bool)
    ensures
        r == is_space(c),
{
    c.is_whitespace()
}

} // verus!
