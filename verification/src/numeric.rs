//! The numeric domain of the language: IEEE-754 double-precision values,
//! held as their 64-bit patterns.
//!
//! Floating-point arithmetic cannot be reasoned about here directly, so a
//! number travels through the core as the `u64` bit pattern of the double it
//! encodes. The operations themselves are done by the software float
//! implementation of the `rustc_apfloat` crate (the same arithmetic rustc
//! uses for compile-time float evaluation); each result is a function of the
//! argument bits alone and is named by an uninterpreted spec function, which
//! is what every contract above speaks of.

use rustc_apfloat::Float;
use vstd::prelude::*;

verus! {

/// Exponent mask of a double; also the bit pattern of positive infinity.
pub const F64_EXP_MASK: u64 = 0x7FF0_0000_0000_0000;

/// Fraction (significand) mask of a double.
pub const F64_FRAC_MASK: u64 = 0x000F_FFFF_FFFF_FFFF;

/// Bit pattern of negative infinity.
pub const F64_NEG_INF: u64 = 0xFFF0_0000_0000_0000;

/// The bit pattern encodes a NaN: exponent all ones, fraction non-zero.
pub open spec fn is_nan_bits(b: u64) -> bool {
    (b & F64_EXP_MASK) == F64_EXP_MASK && (b & F64_FRAC_MASK) != 0
}

/// The double encoded by a decimal number lexeme, as bits.
pub uninterp spec fn number_of_lexeme(s: Seq<char>) -> u64;

/// The IEEE-754 sum (round to nearest, ties to even) of two doubles, as bits.
pub uninterp spec fn add_bits(a: u64, b: u64) -> u64;

/// The IEEE-754 difference of two doubles, as bits.
pub uninterp spec fn sub_bits(a: u64, b: u64) -> u64;

/// The IEEE-754 product of two doubles, as bits.
pub uninterp spec fn mul_bits(a: u64, b: u64) -> u64;

/// The IEEE-754 quotient of two doubles, as bits.
pub uninterp spec fn div_bits(a: u64, b: u64) -> u64;

/// The IEEE-754 negation of a double, as bits.
pub uninterp spec fn neg_bits(a: u64) -> u64;

/// The IEEE-754 comparison of two doubles: 0 less, 1 equal, 2 greater,
/// 3 unordered (at least one NaN).
pub uninterp spec fn cmp_bits(a: u64, b: u64) -> u8;

/// The decimal rendering `rustc_apfloat` gives a double.
pub uninterp spec fn decimal_of_bits(a: u64) -> Seq<char>;

/// The doubles compare less-than.
pub open spec fn num_lt(a: u64, b: u64) -> bool {
    cmp_bits(a, b) == 0
}

/// The doubles compare equal (IEEE equality: a NaN equals nothing).
pub open spec fn num_eq(a: u64, b: u64) -> bool {
    cmp_bits(a, b) == 1
}

/// The doubles compare greater-than.
pub open spec fn num_gt(a: u64, b: u64) -> bool {
    cmp_bits(a, b) == 2
}

/// The doubles compare less-than-or-equal.
pub open spec fn num_le(a: u64, b: u64) -> bool {
    cmp_bits(a, b) == 0 || cmp_bits(a, b) == 1
}

/// The doubles compare greater-than-or-equal.
pub open spec fn num_ge(a: u64, b: u64) -> bool {
    cmp_bits(a, b) == 1 || cmp_bits(a, b) == 2
}

/// Relies on `rustc_apfloat::ieee::Double`'s `FromStr`: the correctly rounded
/// double of a decimal number lexeme (`digits`, optionally `.` and more
/// digits). Any text that does not parse as a number gives bits 0.
#[verifier::external_body]
pub(crate) fn num_from_lexeme(lexeme: &Vec<char>) -> (r: u64)
    ensures
        r == number_of_lexeme(lexeme@),
{
    let text: String = lexeme.iter().collect();
    match text.parse::<rustc_apfloat::ieee::Double>() {
        Ok(d) => d.to_bits() as u64,
        Err(_) => 0,
    }
}

/// Relies on `rustc_apfloat::ieee::Double`'s `Add`: IEEE-754 addition,
/// rounding to nearest, ties to even.
#[verifier::external_body]
pub(crate) fn num_add(a: u64, b: u64) -> (r: u64)
    ensures
        r == add_bits(a, b),
{
    let x = rustc_apfloat::ieee::Double::from_bits(a as u128);
    let y = rustc_apfloat::ieee::Double::from_bits(b as u128);
    (x + y).value.to_bits() as u64
}

/// Relies on `rustc_apfloat::ieee::Double`'s `Sub`: IEEE-754 subtraction.
#[verifier::external_body]
pub(crate) fn num_sub(a: u64, b: u64) -> (r: u64)
    ensures
        r == sub_bits(a, b),
{
    let x = rustc_apfloat::ieee::Double::from_bits(a as u128);
    let y = rustc_apfloat::ieee::Double::from_bits(b as u128);
    (x - y).value.to_bits() as u64
}

/// Relies on `rustc_apfloat::ieee::Double`'s `Mul`: IEEE-754 multiplication.
#[verifier::external_body]
pub(crate) fn num_mul(a: u64, b: u64) -> (r: u64)
    ensures
        r == mul_bits(a, b),
{
    let x = rustc_apfloat::ieee::Double::from_bits(a as u128);
    let y = rustc_apfloat::ieee::Double::from_bits(b as u128);
    (x * y).value.to_bits() as u64
}

/// Relies on `rustc_apfloat::ieee::Double`'s `Div`: IEEE-754 division, so a
/// finite number divided by zero gives an infinity, not an error.
#[verifier::external_body]
pub(crate) fn num_div(a: u64, b: u64) -> (r: u64)
    ensures
        r == div_bits(a, b),
{
    let x = rustc_apfloat::ieee::Double::from_bits(a as u128);
    let y = rustc_apfloat::ieee::Double::from_bits(b as u128);
    (x / y).value.to_bits() as u64
}

/// Relies on `rustc_apfloat::ieee::Double`'s `Neg`: IEEE-754 sign negation.
#[verifier::external_body]
pub(crate) fn num_neg(a: u64) -> (r: u64)
    ensures
        r == neg_bits(a),
{
    (-rustc_apfloat::ieee::Double::from_bits(a as u128)).to_bits() as u64
}

/// Relies on `rustc_apfloat::ieee::Double`'s `PartialOrd`: the IEEE-754
/// ordering of the two doubles, incomparable exactly when one is a NaN.
#[verifier::external_body]
pub(crate) fn num_cmp(a: u64, b: u64) -> (r: u8)
    ensures
        r == cmp_bits(a, b),
        r <= 3,
{
    let x = rustc_apfloat::ieee::Double::from_bits(a as u128);
    let y = rustc_apfloat::ieee::Double::from_bits(b as u128);
    match x.partial_cmp(&y) {
        Some(core::cmp::Ordering::Less) => 0,
        Some(core::cmp::Ordering::Equal) => 1,
        Some(core::cmp::Ordering::Greater) => 2,
        None => 3,
    }
}

/// Relies on `rustc_apfloat::ieee::Double`'s `Display`: a round-trippable
/// decimal rendering of the double.
#[verifier::external_body]
pub(crate) fn num_to_decimal(a: u64) -> (r: String)
    ensures
        r@ == decimal_of_bits(a),
{
    format!("{}", rustc_apfloat::ieee::Double::from_bits(a as u128))
}

/// The canonical text of a number: `NaN`, `inf` and `-inf` spelt as the
/// host language spells non-finite doubles, a finite double in decimal.
pub open spec fn render_number_spec(b: u64) -> Seq<char> {
    if is_nan_bits(b) {
        "NaN"@
    } else if b == F64_EXP_MASK {
        "inf"@
    } else if b == F64_NEG_INF {
        "-inf"@
    } else {
        decimal_of_bits(b)
    }
}

/// Renders a number held as double bits to its canonical text.
pub fn render_number(b: u64) -> (r: String)
    ensures
        r@ == render_number_spec(b),
{
    if (b & F64_EXP_MASK) == F64_EXP_MASK && (b & F64_FRAC_MASK) != 0 {
        String::from_str("NaN")
    } else if b == F64_EXP_MASK {
        String::from_str("inf")
    } else if b == F64_NEG_INF {
        String::from_str("-inf")
    } else {
        num_to_decimal(b)
    }
}

} // verus!
