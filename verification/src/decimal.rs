//! The boundary to `rust_decimal`.
//!
//! A decimal number crosses this boundary as its two parts: a signed mantissa
//! of at most 96 bits and a scale between 0 and 28, standing for
//! `mantissa / 10^scale`. Every [`IndicatorValue`] has such parts, by its type
//! invariant, so `Decimal::from_i128_with_scale` accepts them. What
//! `rust_decimal` computes from the parts is not proved here: each function
//! below says what is assumed of it.

use vstd::prelude::*;
use crate::indicator_value::IndicatorValue;
use rust_decimal::Decimal;
use core::str::FromStr;

verus! {

/// `rust_decimal::Decimal`, taken as it is: nothing is known of what is inside.
#[verifier::external_type_specification]
#[verifier::external_body]
pub struct ExDecimal(rust_decimal::Decimal);

/// Ten to the power `n`.
pub open spec fn pow10(n: nat) -> int
    decreases n,
{
    if n == 0 {
        1
    } else {
        10 * pow10((n - 1) as nat)
    }
}

/// Whether `a_mantissa / 10^a_scale` is smaller than `b_mantissa / 10^b_scale`.
pub open spec fn parts_less(a_mantissa: int, a_scale: nat, b_mantissa: int, b_scale: nat) -> bool {
    a_mantissa * pow10(b_scale) < b_mantissa * pow10(a_scale)
}

/// Whether `a_mantissa / 10^a_scale` and `b_mantissa / 10^b_scale` are the same number.
pub open spec fn parts_equal(a_mantissa: int, a_scale: nat, b_mantissa: int, b_scale: nat) -> bool {
    a_mantissa * pow10(b_scale) == b_mantissa * pow10(a_scale)
}

/// The parts of `mantissa / 10^scale` rounded to `places` decimal places, a tie
/// going to the even neighbour. A number that has no more than `places`
/// decimal places is left as it is.
pub open spec fn rounded_parts(mantissa: int, scale: nat, places: nat) -> (int, nat) {
    if scale <= places {
        (mantissa, scale)
    } else {
        let unit = pow10((scale - places) as nat);
        let magnitude = if mantissa < 0 { -mantissa } else { mantissa };
        let whole = magnitude / unit;
        let rest = magnitude % unit;
        let nearest = if 2 * rest > unit || (2 * rest == unit && whole % 2 == 1) {
            whole + 1
        } else {
            whole
        };
        (if mantissa < 0 { -nearest } else { nearest }, places)
    }
}

/// The parts of `a + b` as `Decimal::checked_add` gives them, `None` where it reports overflow.
pub uninterp spec fn decimal_sum(a_mantissa: int, a_scale: nat, b_mantissa: int, b_scale: nat) -> Option<(int, nat)>;

/// The parts of `a - b` as `Decimal::checked_sub` gives them, `None` where it reports overflow.
pub uninterp spec fn decimal_difference(a_mantissa: int, a_scale: nat, b_mantissa: int, b_scale: nat) -> Option<(int, nat)>;

/// The parts of `a * b` as `Decimal::checked_mul` gives them, `None` where it reports overflow.
pub uninterp spec fn decimal_product(a_mantissa: int, a_scale: nat, b_mantissa: int, b_scale: nat) -> Option<(int, nat)>;

/// The parts of `a / b` as `Decimal::checked_div` gives them, `None` where it
/// reports a zero divisor or overflow.
pub uninterp spec fn decimal_quotient(a_mantissa: int, a_scale: nat, b_mantissa: int, b_scale: nat) -> Option<(int, nat)>;

/// The parts of the number that `Decimal::from_str` reads from `text`, `None` where it fails.
pub uninterp spec fn decimal_parse(text: Seq<char>) -> Option<(int, nat)>;

/// `Decimal::checked_add`. Assumed: the result is a function of the operands'
/// parts alone, named `decimal_sum`.
#[verifier::external_body]
pub(crate) fn checked_sum(a: IndicatorValue, b: IndicatorValue) -> (r: Option<IndicatorValue>)
    ensures
        IndicatorValue::parts_of(r) == decimal_sum(a@.0, a@.1, b@.0, b@.1),
{
    let x = Decimal::from_i128_with_scale(a.mantissa, a.scale);
    let y = Decimal::from_i128_with_scale(b.mantissa, b.scale);
    match x.checked_add(y) {
        Some(d) => Some(IndicatorValue { mantissa: d.mantissa(), scale: d.scale() }),
        None => None,
    }
}

/// `Decimal::checked_sub`. Assumed: the result is a function of the operands'
/// parts alone, named `decimal_difference`.
#[verifier::external_body]
pub(crate) fn checked_difference(a: IndicatorValue, b: IndicatorValue) -> (r: Option<IndicatorValue>)
    ensures
        IndicatorValue::parts_of(r) == decimal_difference(a@.0, a@.1, b@.0, b@.1),
{
    let x = Decimal::from_i128_with_scale(a.mantissa, a.scale);
    let y = Decimal::from_i128_with_scale(b.mantissa, b.scale);
    match x.checked_sub(y) {
        Some(d) => Some(IndicatorValue { mantissa: d.mantissa(), scale: d.scale() }),
        None => None,
    }
}

/// `Decimal::checked_mul`. Assumed: the result is a function of the operands'
/// parts alone, named `decimal_product`.
#[verifier::external_body]
pub(crate) fn checked_product(a: IndicatorValue, b: IndicatorValue) -> (r: Option<IndicatorValue>)
    ensures
        IndicatorValue::parts_of(r) == decimal_product(a@.0, a@.1, b@.0, b@.1),
{
    let x = Decimal::from_i128_with_scale(a.mantissa, a.scale);
    let y = Decimal::from_i128_with_scale(b.mantissa, b.scale);
    match x.checked_mul(y) {
        Some(d) => Some(IndicatorValue { mantissa: d.mantissa(), scale: d.scale() }),
        None => None,
    }
}

/// `Decimal::checked_div`. Assumed: the result is a function of the operands'
/// parts alone, named `decimal_quotient`.
#[verifier::external_body]
pub(crate) fn checked_quotient(a: IndicatorValue, b: IndicatorValue) -> (r: Option<IndicatorValue>)
    ensures
        IndicatorValue::parts_of(r) == decimal_quotient(a@.0, a@.1, b@.0, b@.1),
{
    let x = Decimal::from_i128_with_scale(a.mantissa, a.scale);
    let y = Decimal::from_i128_with_scale(b.mantissa, b.scale);
    match x.checked_div(y) {
        Some(d) => Some(IndicatorValue { mantissa: d.mantissa(), scale: d.scale() }),
        None => None,
    }
}

/// `<` on `Decimal`. Assumed: it orders two decimals as the numbers they stand for.
#[verifier::external_body]
pub(crate) fn less(a: IndicatorValue, b: IndicatorValue) -> (r: bool)
    ensures
        r == parts_less(a@.0, a@.1, b@.0, b@.1),
{
    let x = Decimal::from_i128_with_scale(a.mantissa, a.scale);
    let y = Decimal::from_i128_with_scale(b.mantissa, b.scale);
    x < y
}

/// `==` on `Decimal`. Assumed: two decimals are equal when they stand for the
/// same number, whatever their scales.
#[verifier::external_body]
pub(crate) fn equal(a: IndicatorValue, b: IndicatorValue) -> (r: bool)
    ensures
        r == parts_equal(a@.0, a@.1, b@.0, b@.1),
{
    let x = Decimal::from_i128_with_scale(a.mantissa, a.scale);
    let y = Decimal::from_i128_with_scale(b.mantissa, b.scale);
    x == y
}

/// `Decimal::round_dp`. Assumed: it rounds half to even at the given number of
/// decimal places and leaves a number with fewer places untouched.
#[verifier::external_body]
pub(crate) fn rounded(a: IndicatorValue, places: u32) -> (r: IndicatorValue)
    ensures
        r@ == rounded_parts(a@.0, a@.1, places as nat),
{
    let d = Decimal::from_i128_with_scale(a.mantissa, a.scale).round_dp(places);
    IndicatorValue { mantissa: d.mantissa(), scale: d.scale() }
}

/// `Decimal::from_str`. Assumed: the result is a function of the text alone,
/// named `decimal_parse`.
#[verifier::external_body]
pub(crate) fn parsed(text: &str) -> (r: Option<IndicatorValue>)
    ensures
        IndicatorValue::parts_of(r) == decimal_parse(text@),
{
    match Decimal::from_str(text) {
        Ok(d) => Some(IndicatorValue { mantissa: d.mantissa(), scale: d.scale() }),
        Err(_) => None,
    }
}

/// The `Decimal` that `Decimal::from_i128_with_scale` builds from a mantissa
/// and a scale in range.
pub uninterp spec fn decimal_of(mantissa: int, scale: nat) -> Decimal;

/// `Decimal::from_i128_with_scale`: the number as `rust_decimal` holds it.
/// Assumed: the result is a function of the parts alone, named `decimal_of`.
/// What is inside a `Decimal` cannot be spoken of here.
#[verifier::external_body]
pub(crate) fn to_decimal(a: IndicatorValue) -> (r: Decimal)
    ensures
        r == decimal_of(a@.0, a@.1),
{
    Decimal::from_i128_with_scale(a.mantissa, a.scale)
}

} // verus!
