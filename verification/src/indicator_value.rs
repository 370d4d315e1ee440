//! The numeric value that every indicator computes with.
//!
//! An [`IndicatorValue`] is an exact decimal number. Addition, subtraction,
//! multiplication and division can fail, where the result does not fit the
//! decimal type or the divisor is zero. The operators `+ - * /` therefore
//! carry a precondition, and each has a `checked_` companion that reports
//! failure as `None`.

use vstd::prelude::*;
use crate::decimal::{
    checked_difference, checked_product, checked_quotient, checked_sum, decimal_difference, decimal_of,
    decimal_parse, decimal_product, decimal_quotient, decimal_sum, equal, less, parsed, parts_equal,
    parts_less, rounded, rounded_parts, to_decimal,
};
use core::ops::{Add, Div, Mul, Neg, Sub};
use vstd::std_specs::ops::{AddSpecImpl, DivSpecImpl, MulSpecImpl, NegSpecImpl, SubSpecImpl};
use vstd::std_specs::convert::FromSpecImpl;
use rust_decimal::Decimal;

verus! {

/// The largest mantissa a value can hold: `2^96 - 1`.
pub const MAX_MANTISSA: i128 = 79_228_162_514_264_337_593_543_950_335;

/// The largest scale a value can hold.
pub const MAX_SCALE: u32 = 28;

/// How many rounds the square root iteration may take.
pub const SQRT_ROUNDS: usize = 1000;

/// An exact decimal number `mantissa / 10^scale`.
#[derive(Clone, Copy, Debug)]
pub struct IndicatorValue {
    pub(crate) mantissa: i128,
    pub(crate) scale: u32,
}

impl View for IndicatorValue {
    type V = (int, nat);

    /// The mantissa and the scale.
    closed spec fn view(&self) -> (int, nat) {
        (self.mantissa as int, self.scale as nat)
    }
}

impl IndicatorValue {
    /// The mantissa fits 96 bits and the scale is at most 28.
    #[verifier::type_invariant]
    pub closed spec fn valid(self) -> bool {
        &&& -MAX_MANTISSA <= self.mantissa <= MAX_MANTISSA
        &&& self.scale <= MAX_SCALE
    }

    /// Whether a mantissa and a scale are those of some value.
    pub open spec fn in_range(mantissa: int, scale: nat) -> bool {
        &&& -MAX_MANTISSA <= mantissa <= MAX_MANTISSA
        &&& scale <= MAX_SCALE
    }

    /// The value with the given parts.
    pub closed spec fn of_parts(p: (int, nat)) -> IndicatorValue {
        IndicatorValue { mantissa: p.0 as i128, scale: p.1 as u32 }
    }

    /// The parts of an optional value.
    pub open spec fn parts_of(r: Option<IndicatorValue>) -> Option<(int, nat)> {
        match r {
            Some(v) => Some(v@),
            None => None,
        }
    }

    /// The optional value with the given optional parts.
    pub open spec fn lift(p: Option<(int, nat)>) -> Option<IndicatorValue> {
        match p {
            Some(q) => Some(Self::of_parts(q)),
            None => None,
        }
    }

    /// The whole number `v`.
    pub open spec fn spec_from_int(v: int) -> IndicatorValue {
        Self::of_parts((v, 0nat))
    }

    /// `a + b`, where the decimal type can hold it.
    pub open spec fn spec_sum(a: IndicatorValue, b: IndicatorValue) -> Option<IndicatorValue> {
        Self::lift(decimal_sum(a@.0, a@.1, b@.0, b@.1))
    }

    /// `a - b`, where the decimal type can hold it.
    pub open spec fn spec_difference(a: IndicatorValue, b: IndicatorValue) -> Option<IndicatorValue> {
        Self::lift(decimal_difference(a@.0, a@.1, b@.0, b@.1))
    }

    /// `a * b`, where the decimal type can hold it.
    pub open spec fn spec_product(a: IndicatorValue, b: IndicatorValue) -> Option<IndicatorValue> {
        Self::lift(decimal_product(a@.0, a@.1, b@.0, b@.1))
    }

    /// `a / b`, where `b` is not zero and the decimal type can hold the result.
    pub open spec fn spec_quotient(a: IndicatorValue, b: IndicatorValue) -> Option<IndicatorValue> {
        Self::lift(decimal_quotient(a@.0, a@.1, b@.0, b@.1))
    }

    /// `1 / self`, where it exists.
    pub open spec fn spec_recip(self) -> Option<IndicatorValue> {
        Self::spec_quotient(Self::spec_from_int(1), self)
    }

    /// The number that `text` spells, where it spells one.
    pub open spec fn spec_parse(text: Seq<char>) -> Option<IndicatorValue> {
        Self::lift(decimal_parse(text))
    }

    /// `self < other` as numbers.
    pub open spec fn spec_lt(self, other: IndicatorValue) -> bool {
        parts_less(self@.0, self@.1, other@.0, other@.1)
    }

    /// `self <= other` as numbers.
    pub open spec fn spec_le(self, other: IndicatorValue) -> bool {
        !other.spec_lt(self)
    }

    /// `self == other` as numbers: `1.0` and `1.00` are the same number.
    pub open spec fn spec_eq(self, other: IndicatorValue) -> bool {
        parts_equal(self@.0, self@.1, other@.0, other@.1)
    }

    /// Whether the value is zero.
    pub open spec fn spec_is_zero(self) -> bool {
        self@.0 == 0
    }

    /// Whether the value is above zero.
    pub open spec fn spec_is_positive(self) -> bool {
        self@.0 > 0
    }

    /// Whether the value is below zero.
    pub open spec fn spec_is_negative(self) -> bool {
        self@.0 < 0
    }

    /// The absolute value.
    pub open spec fn spec_abs(self) -> IndicatorValue {
        Self::of_parts((if self@.0 < 0 { -self@.0 } else { self@.0 }, self@.1))
    }

    /// The negated value.
    pub open spec fn spec_neg(self) -> IndicatorValue {
        Self::of_parts((-self@.0, self@.1))
    }

    /// The value rounded half to even at `places` decimal places.
    pub open spec fn spec_rounded(self, places: u32) -> IndicatorValue {
        Self::of_parts(rounded_parts(self@.0, self@.1, places as nat))
    }

    /// The larger of two values, the second where they are equal.
    pub open spec fn spec_greater_of(self, other: IndicatorValue) -> IndicatorValue {
        if other.spec_lt(self) { self } else { other }
    }

    /// The smaller of two values, the first where they are equal.
    pub open spec fn spec_lesser_of(self, other: IndicatorValue) -> IndicatorValue {
        if other.spec_lt(self) { other } else { self }
    }

    /// One round of the square root iteration and those that follow it:
    /// `result` is the current guess at the root of `target`, `last` the guess
    /// before it. The iteration ends when two guesses in a row are equal, and
    /// gives up after `SQRT_ROUNDS` rounds or when a step leaves the decimal type.
    pub open spec fn spec_sqrt_iterate(
        target: IndicatorValue,
        result: IndicatorValue,
        last: IndicatorValue,
        rounds: nat,
    ) -> Option<IndicatorValue>
        decreases SQRT_ROUNDS - rounds,
    {
        if last.spec_eq(result) {
            Some(result)
        } else if rounds + 1 >= SQRT_ROUNDS {
            None
        } else {
            match Self::spec_quotient(target, result) {
                None => None,
                Some(q) => match Self::spec_sum(result, q) {
                    None => None,
                    Some(t) => match Self::spec_quotient(t, Self::spec_from_int(2)) {
                        None => None,
                        Some(next) => Self::spec_sqrt_iterate(target, next, result, rounds + 1),
                    },
                },
            }
        }
    }

    /// The square root by the Babylonian method, started at half the value,
    /// as `rust_decimal` computes it. `None` for a negative value and where
    /// the iteration gives up, which is where `rust_decimal` would abort.
    pub open spec fn spec_sqrt(self) -> Option<IndicatorValue> {
        if self.spec_is_negative() {
            None
        } else if self.spec_is_zero() {
            Some(Self::spec_from_int(0))
        } else {
            match Self::spec_quotient(self, Self::spec_from_int(2)) {
                None => None,
                Some(half) => {
                    let start = if half.spec_is_zero() { self } else { half };
                    match Self::spec_sum(start, Self::spec_from_int(1)) {
                        None => None,
                        Some(last) => Self::spec_sqrt_iterate(self, start, last, 0),
                    }
                },
            }
        }
    }

    /// The parts of a value are in range, and a value is known by its parts.
    pub proof fn lemma_parts(self)
        requires
            self.valid(),
        ensures
            Self::in_range(self@.0, self@.1),
            Self::of_parts(self@) == self,
    {
    }

    /// Two values with the same parts are the same value.
    pub proof fn lemma_view_decides(self, other: IndicatorValue)
        requires
            self@ == other@,
        ensures
            self == other,
    {
    }

    /// Parts that are in range are the parts of the value built from them.
    pub proof fn lemma_of_parts(mantissa: int, scale: nat)
        requires
            Self::in_range(mantissa, scale),
        ensures
            Self::of_parts((mantissa, scale))@ == (mantissa, scale),
            Self::of_parts((mantissa, scale)).valid(),
    {
    }

    /// The value with the given parts, where they are in range.
    pub fn from_parts(mantissa: i128, scale: u32) -> (r: Option<IndicatorValue>)
        ensures
            r.is_some() == Self::in_range(mantissa as int, scale as nat),
            r.is_some() ==> r.unwrap() == Self::of_parts((mantissa as int, scale as nat)),
    {
        if scale <= MAX_SCALE && -MAX_MANTISSA <= mantissa && mantissa <= MAX_MANTISSA {
            Some(IndicatorValue { mantissa, scale })
        } else {
            None
        }
    }

    /// The number `mantissa / 10^scale`.
    pub fn scaled(mantissa: i64, scale: u32) -> (r: IndicatorValue)
        requires
            scale <= MAX_SCALE,
        ensures
            r == Self::of_parts((mantissa as int, scale as nat)),
    {
        IndicatorValue { mantissa: mantissa as i128, scale }
    }

    /// The whole number `v`.
    pub fn from_u64(v: u64) -> (r: IndicatorValue)
        ensures
            r == Self::spec_from_int(v as int),
    {
        IndicatorValue { mantissa: v as i128, scale: 0 }
    }

    /// The whole number `v`.
    pub fn from_usize(v: usize) -> (r: IndicatorValue)
        ensures
            r == Self::spec_from_int(v as int),
    {
        IndicatorValue { mantissa: v as i128, scale: 0 }
    }

    /// Zero.
    pub fn zero() -> (r: IndicatorValue)
        ensures
            r == Self::spec_from_int(0),
    {
        IndicatorValue { mantissa: 0, scale: 0 }
    }

    /// The largest value there is.
    pub fn max() -> (r: IndicatorValue)
        ensures
            r == Self::spec_from_int(MAX_MANTISSA as int),
    {
        IndicatorValue { mantissa: MAX_MANTISSA, scale: 0 }
    }

    /// The smallest value there is.
    pub fn min() -> (r: IndicatorValue)
        ensures
            r == Self::spec_from_int(-MAX_MANTISSA),
    {
        IndicatorValue { mantissa: -MAX_MANTISSA, scale: 0 }
    }

    /// Reads a number from its decimal spelling.
    pub fn parse(text: &str) -> (r: Option<IndicatorValue>)
        ensures
            r == Self::spec_parse(text@),
    {
        parsed(text)
    }

    /// The mantissa.
    pub fn mantissa(&self) -> (r: i128)
        ensures
            r == self@.0,
    {
        self.mantissa
    }

    /// The scale: how many decimal places the mantissa has.
    pub fn scale(&self) -> (r: u32)
        ensures
            r == self@.1,
    {
        self.scale
    }

    /// The `rust_decimal::Decimal` built from the mantissa and the scale of this value.
    pub fn value(&self) -> (r: Decimal)
        ensures
            r == self.spec_value(),
    {
        to_decimal(*self)
    }

    /// The `rust_decimal::Decimal` that stands for this value.
    pub open spec fn spec_value(self) -> Decimal {
        decimal_of(self@.0, self@.1)
    }

    /// Whether the value is zero.
    pub fn is_zero(&self) -> (r: bool)
        ensures
            r == self.spec_is_zero(),
    {
        self.mantissa == 0
    }

    /// Whether the value is above zero.
    pub fn is_positive(&self) -> (r: bool)
        ensures
            r == self.spec_is_positive(),
    {
        self.mantissa > 0
    }

    /// Whether the value is below zero.
    pub fn is_negative(&self) -> (r: bool)
        ensures
            r == self.spec_is_negative(),
    {
        self.mantissa < 0
    }

    /// `self < other` as numbers.
    pub fn less_than(self, other: IndicatorValue) -> (r: bool)
        ensures
            r == self.spec_lt(other),
    {
        less(self, other)
    }

    /// `self <= other` as numbers.
    pub fn at_most(self, other: IndicatorValue) -> (r: bool)
        ensures
            r == self.spec_le(other),
    {
        !less(other, self)
    }

    /// `self == other` as numbers.
    pub fn equals(self, other: IndicatorValue) -> (r: bool)
        ensures
            r == self.spec_eq(other),
    {
        equal(self, other)
    }

    /// Whether two values have the same mantissa and the same scale.
    pub fn same_as(self, other: IndicatorValue) -> (r: bool)
        ensures
            r == (self == other),
    {
        self.mantissa == other.mantissa && self.scale == other.scale
    }

    /// The larger of two values, the second where they are equal.
    pub fn greater_of(self, other: IndicatorValue) -> (r: IndicatorValue)
        ensures
            r == self.spec_greater_of(other),
    {
        if less(other, self) { self } else { other }
    }

    /// The smaller of two values, the first where they are equal.
    pub fn lesser_of(self, other: IndicatorValue) -> (r: IndicatorValue)
        ensures
            r == self.spec_lesser_of(other),
    {
        if less(other, self) { other } else { self }
    }

    /// The absolute value.
    pub fn abs(&self) -> (r: IndicatorValue)
        ensures
            r == self.spec_abs(),
    {
        proof {
            use_type_invariant(self);
        }
        IndicatorValue {
            mantissa: if self.mantissa < 0 { -self.mantissa } else { self.mantissa },
            scale: self.scale,
        }
    }

    /// The negated value.
    pub fn negated(&self) -> (r: IndicatorValue)
        ensures
            r == self.spec_neg(),
    {
        proof {
            use_type_invariant(self);
        }
        IndicatorValue { mantissa: -self.mantissa, scale: self.scale }
    }

    /// Rounds half to even at `places` decimal places.
    pub fn round_dp(&self, places: u32) -> (r: IndicatorValue)
        ensures
            r == self.spec_rounded(places),
    {
        rounded(*self, places)
    }

    /// `self + other`, or `None` where the decimal type cannot hold it.
    pub fn checked_add(self, other: IndicatorValue) -> (r: Option<IndicatorValue>)
        ensures
            r == Self::spec_sum(self, other),
    {
        match checked_sum(self, other) {
            Some(_) => Some(self + other),
            None => None,
        }
    }

    /// `self - other`, or `None` where the decimal type cannot hold it.
    pub fn checked_sub(self, other: IndicatorValue) -> (r: Option<IndicatorValue>)
        ensures
            r == Self::spec_difference(self, other),
    {
        match checked_difference(self, other) {
            Some(_) => Some(self - other),
            None => None,
        }
    }

    /// `self * other`, or `None` where the decimal type cannot hold it.
    pub fn checked_mul(self, other: IndicatorValue) -> (r: Option<IndicatorValue>)
        ensures
            r == Self::spec_product(self, other),
    {
        match checked_product(self, other) {
            Some(_) => Some(self * other),
            None => None,
        }
    }

    /// `self / other`, or `None` where `other` is zero or the decimal type
    /// cannot hold the result.
    pub fn checked_div(self, other: IndicatorValue) -> (r: Option<IndicatorValue>)
        ensures
            r == Self::spec_quotient(self, other),
    {
        match checked_quotient(self, other) {
            Some(_) => Some(self / other),
            None => None,
        }
    }

    /// `1 / self`, or `None` where it does not exist.
    pub fn checked_recip(&self) -> (r: Option<IndicatorValue>)
        ensures
            r == self.spec_recip(),
    {
        match plain_quotient(Self::from_u64(1), *self) {
            Some(_) => Some(self.recip()),
            None => None,
        }
    }

    /// `1 / self`.
    pub fn recip(&self) -> (r: IndicatorValue)
        requires
            self.spec_recip().is_some(),
        ensures
            r == self.spec_recip().unwrap(),
    {
        plain_quotient(Self::from_u64(1), *self).unwrap()
    }

    /// The square root, or `None` for a negative value and where the
    /// iteration gives up.
    pub fn checked_sqrt(&self) -> (r: Option<IndicatorValue>)
        ensures
            r == self.spec_sqrt(),
    {
        match plain_sqrt(*self) {
            Some(_) => Some(self.sqrt()),
            None => None,
        }
    }

    /// The square root.
    pub fn sqrt(&self) -> (r: IndicatorValue)
        requires
            self.spec_sqrt().is_some(),
        ensures
            r == self.spec_sqrt().unwrap(),
    {
        plain_sqrt(*self).unwrap()
    }
}

/// `a + b` where both exist and the sum does.
pub open spec fn sum_of(a: Option<IndicatorValue>, b: Option<IndicatorValue>) -> Option<IndicatorValue> {
    match (a, b) {
        (Some(x), Some(y)) => IndicatorValue::spec_sum(x, y),
        _ => None,
    }
}

/// `a - b` where both exist and the difference does.
pub open spec fn difference_of(a: Option<IndicatorValue>, b: Option<IndicatorValue>) -> Option<IndicatorValue> {
    match (a, b) {
        (Some(x), Some(y)) => IndicatorValue::spec_difference(x, y),
        _ => None,
    }
}

/// `a * b` where both exist and the product does.
pub open spec fn product_of(a: Option<IndicatorValue>, b: Option<IndicatorValue>) -> Option<IndicatorValue> {
    match (a, b) {
        (Some(x), Some(y)) => IndicatorValue::spec_product(x, y),
        _ => None,
    }
}

/// `a / b` where both exist and the quotient does.
pub open spec fn quotient_of(a: Option<IndicatorValue>, b: Option<IndicatorValue>) -> Option<IndicatorValue> {
    match (a, b) {
        (Some(x), Some(y)) => IndicatorValue::spec_quotient(x, y),
        _ => None,
    }
}

/// The square root of `a` where both exist.
pub open spec fn sqrt_of(a: Option<IndicatorValue>) -> Option<IndicatorValue> {
    match a {
        Some(x) => x.spec_sqrt(),
        None => None,
    }
}

/// The whole number `v` as a value.
pub open spec fn whole(v: int) -> IndicatorValue {
    IndicatorValue::spec_from_int(v)
}

/// The number `mantissa / 10^scale` as a value.
pub open spec fn decimal(mantissa: int, scale: nat) -> IndicatorValue {
    IndicatorValue::of_parts((mantissa, scale))
}

/// `a + b` in one call, for the code of this crate.
pub(crate) fn plain_sum(a: IndicatorValue, b: IndicatorValue) -> (r: Option<IndicatorValue>)
    ensures
        r == IndicatorValue::spec_sum(a, b),
{
    checked_sum(a, b)
}

/// `a - b` in one call, for the code of this crate.
pub(crate) fn plain_difference(a: IndicatorValue, b: IndicatorValue) -> (r: Option<IndicatorValue>)
    ensures
        r == IndicatorValue::spec_difference(a, b),
{
    checked_difference(a, b)
}

/// `a * b` in one call, for the code of this crate.
pub(crate) fn plain_product(a: IndicatorValue, b: IndicatorValue) -> (r: Option<IndicatorValue>)
    ensures
        r == IndicatorValue::spec_product(a, b),
{
    checked_product(a, b)
}

/// `a / b` in one call, for the code of this crate.
pub(crate) fn plain_quotient(a: IndicatorValue, b: IndicatorValue) -> (r: Option<IndicatorValue>)
    ensures
        r == IndicatorValue::spec_quotient(a, b),
{
    checked_quotient(a, b)
}

/// One step of the square root iteration: `(result + target / result) / 2`.
fn sqrt_step(target: IndicatorValue, result: IndicatorValue) -> (r: Option<IndicatorValue>)
    ensures
        r == match IndicatorValue::spec_quotient(target, result) {
            None => None,
            Some(q) => match IndicatorValue::spec_sum(result, q) {
                None => None,
                Some(t) => IndicatorValue::spec_quotient(t, IndicatorValue::spec_from_int(2)),
            },
        },
{
    match plain_quotient(target, result) {
        None => None,
        Some(q) => match plain_sum(result, q) {
            None => None,
            Some(t) => plain_quotient(t, IndicatorValue::from_u64(2)),
        },
    }
}

/// The square root in one pass, for the code of this crate.
///
/// The decimal type's own square root stops the program when its iteration
/// does not settle within its limit of rounds, and no condition on the
/// argument rules that out. So the iteration runs here, over the decimal
/// type's division and addition, and gives `None` at that limit.
pub(crate) fn plain_sqrt(a: IndicatorValue) -> (r: Option<IndicatorValue>)
    ensures
        r == a.spec_sqrt(),
{
    if a.is_negative() {
        return None;
    }
    if a.is_zero() {
        return Some(IndicatorValue::zero());
    }
    let half = match plain_quotient(a, IndicatorValue::from_u64(2)) {
        Some(h) => h,
        None => { return None; },
    };
    let start = if half.is_zero() { a } else { half };
    let mut last = match plain_sum(start, IndicatorValue::from_u64(1)) {
        Some(l) => l,
        None => { return None; },
    };
    let mut result = start;
    let mut rounds: usize = 0;
    while !equal(last, result)
        invariant
            rounds < SQRT_ROUNDS,
            IndicatorValue::spec_sqrt_iterate(a, result, last, rounds as nat) == a.spec_sqrt(),
        decreases SQRT_ROUNDS - rounds,
    {
        if rounds + 1 >= SQRT_ROUNDS {
            return None;
        }
        let next = match sqrt_step(a, result) {
            Some(n) => n,
            None => { return None; },
        };
        last = result;
        result = next;
        rounds = rounds + 1;
    }
    Some(result)
}

impl Add for IndicatorValue {
    type Output = IndicatorValue;

    fn add(self, other: IndicatorValue) -> (r: IndicatorValue) {
        checked_sum(self, other).unwrap()
    }
}

impl AddSpecImpl for IndicatorValue {
    open spec fn obeys_add_spec() -> bool {
        true
    }

    open spec fn add_req(self, other: IndicatorValue) -> bool {
        Self::spec_sum(self, other).is_some()
    }

    open spec fn add_spec(self, other: IndicatorValue) -> IndicatorValue {
        Self::spec_sum(self, other).unwrap()
    }
}

impl Sub for IndicatorValue {
    type Output = IndicatorValue;

    fn sub(self, other: IndicatorValue) -> (r: IndicatorValue) {
        checked_difference(self, other).unwrap()
    }
}

impl SubSpecImpl for IndicatorValue {
    open spec fn obeys_sub_spec() -> bool {
        true
    }

    open spec fn sub_req(self, other: IndicatorValue) -> bool {
        Self::spec_difference(self, other).is_some()
    }

    open spec fn sub_spec(self, other: IndicatorValue) -> IndicatorValue {
        Self::spec_difference(self, other).unwrap()
    }
}

impl Mul for IndicatorValue {
    type Output = IndicatorValue;

    fn mul(self, other: IndicatorValue) -> (r: IndicatorValue) {
        checked_product(self, other).unwrap()
    }
}

impl MulSpecImpl for IndicatorValue {
    open spec fn obeys_mul_spec() -> bool {
        true
    }

    open spec fn mul_req(self, other: IndicatorValue) -> bool {
        Self::spec_product(self, other).is_some()
    }

    open spec fn mul_spec(self, other: IndicatorValue) -> IndicatorValue {
        Self::spec_product(self, other).unwrap()
    }
}

impl Div for IndicatorValue {
    type Output = IndicatorValue;

    fn div(self, other: IndicatorValue) -> (r: IndicatorValue) {
        checked_quotient(self, other).unwrap()
    }
}

impl DivSpecImpl for IndicatorValue {
    open spec fn obeys_div_spec() -> bool {
        true
    }

    open spec fn div_req(self, other: IndicatorValue) -> bool {
        Self::spec_quotient(self, other).is_some()
    }

    open spec fn div_spec(self, other: IndicatorValue) -> IndicatorValue {
        Self::spec_quotient(self, other).unwrap()
    }
}

impl Neg for IndicatorValue {
    type Output = IndicatorValue;

    fn neg(self) -> (r: IndicatorValue) {
        self.negated()
    }
}

impl NegSpecImpl for IndicatorValue {
    open spec fn obeys_neg_spec() -> bool {
        true
    }

    open spec fn neg_req(self) -> bool {
        true
    }

    open spec fn neg_spec(self) -> IndicatorValue {
        self.spec_neg()
    }
}

impl From<u64> for IndicatorValue {
    fn from(v: u64) -> (r: IndicatorValue) {
        IndicatorValue::from_u64(v)
    }
}

impl FromSpecImpl<u64> for IndicatorValue {
    open spec fn obeys_from_spec() -> bool {
        true
    }

    open spec fn from_spec(v: u64) -> IndicatorValue {
        IndicatorValue::spec_from_int(v as int)
    }
}

impl From<usize> for IndicatorValue {
    fn from(v: usize) -> (r: IndicatorValue) {
        IndicatorValue::from_usize(v)
    }
}

impl FromSpecImpl<usize> for IndicatorValue {
    open spec fn obeys_from_spec() -> bool {
        true
    }

    open spec fn from_spec(v: usize) -> IndicatorValue {
        IndicatorValue::spec_from_int(v as int)
    }
}

} // verus!
