//! Relative strength index.

use vstd::prelude::*;
use crate::indicator_value::{
    difference_of, plain_difference, plain_product, plain_quotient, plain_sum, quotient_of,
    sum_of, whole, IndicatorValue,
};
use crate::indicators::Indicator;

verus! {

/// How strong the gains of the last observations are against the losses, from 0 to 100.
///
/// The first `period` changes are averaged plainly; each later change enters
/// the averages with weight `1 / period`. No average loss gives 100, no
/// average gain gives 0, and neither gives 50.
#[derive(Clone, Copy)]
pub struct RelativeStrengthIndex {
    prev_value: Option<IndicatorValue>,
    avg_gain: IndicatorValue,
    avg_loss: IndicatorValue,
    count: usize,
    period: usize,
}

/// The model of a [`RelativeStrengthIndex`].
pub struct RelativeStrengthIndexState {
    /// The observation before, if there was one.
    pub prev: Option<IndicatorValue>,
    /// The sum of the gains during the warm-up, their average after it.
    pub avg_gain: IndicatorValue,
    /// The sum of the losses during the warm-up, their average after it.
    pub avg_loss: IndicatorValue,
    /// How many changes were seen, counted up to `period + 1`.
    pub count: nat,
    /// The period.
    pub period: nat,
}

impl RelativeStrengthIndex {
    /// The state of a new index.
    pub open spec fn spec_new(period: nat) -> RelativeStrengthIndexState {
        RelativeStrengthIndexState { prev: None, avg_gain: whole(0), avg_loss: whole(0), count: 0, period }
    }

    /// The gain of a change: the change where it is positive, else zero.
    pub open spec fn gain_of(change: IndicatorValue) -> IndicatorValue {
        if change.spec_is_positive() { change } else { whole(0) }
    }

    /// The loss of a change: its negation where it is negative, else zero.
    pub open spec fn loss_of(change: IndicatorValue) -> IndicatorValue {
        if change.spec_is_negative() { change.spec_neg() } else { whole(0) }
    }

    /// The first average: `(sum + amount) / period`.
    pub open spec fn first_average(sum: IndicatorValue, amount: IndicatorValue, period: nat) -> Option<IndicatorValue> {
        quotient_of(IndicatorValue::spec_sum(sum, amount), Some(whole(period as int)))
    }

    /// A later average: `(average * (period - 1) + amount) / period`.
    pub open spec fn next_average(average: IndicatorValue, amount: IndicatorValue, period: nat) -> Option<
        IndicatorValue,
    > {
        quotient_of(
            sum_of(IndicatorValue::spec_product(average, whole(period - 1)), Some(amount)),
            Some(whole(period as int)),
        )
    }

    /// The index for the given averages: `100 - 100 / (1 + gain / loss)`,
    /// and 50, 100 or 0 where an average is zero.
    pub open spec fn strength(avg_gain: IndicatorValue, avg_loss: IndicatorValue) -> Option<IndicatorValue> {
        if avg_gain.spec_is_zero() && avg_loss.spec_is_zero() {
            Some(whole(50))
        } else if avg_loss.spec_is_zero() {
            Some(whole(100))
        } else if avg_gain.spec_is_zero() {
            Some(whole(0))
        } else {
            difference_of(
                Some(whole(100)),
                quotient_of(
                    Some(whole(100)),
                    sum_of(Some(whole(1)), IndicatorValue::spec_quotient(avg_gain, avg_loss)),
                ),
            )
        }
    }

    /// A new indicator over `period` observations.
    pub fn new(period: usize) -> (r: RelativeStrengthIndex)
        requires
            0 < period < usize::MAX,
        ensures
            r.wf(),
            Self::cleared(r.state()) == r.state(),
            r.state() == Self::spec_new(period as nat),
    {
        RelativeStrengthIndex {
            prev_value: None,
            avg_gain: IndicatorValue::zero(),
            avg_loss: IndicatorValue::zero(),
            count: 0,
            period,
        }
    }

    /// The index for the given averages.
    fn calculate_rsi(avg_gain: IndicatorValue, avg_loss: IndicatorValue) -> (r: Option<IndicatorValue>)
        ensures
            r == Self::strength(avg_gain, avg_loss),
    {
        if avg_gain.is_zero() && avg_loss.is_zero() {
            Some(IndicatorValue::from_u64(50))
        } else if avg_loss.is_zero() {
            Some(IndicatorValue::from_u64(100))
        } else if avg_gain.is_zero() {
            Some(IndicatorValue::zero())
        } else {
            let rs = plain_quotient(avg_gain, avg_loss)?;
            let hundred = IndicatorValue::from_u64(100);
            plain_difference(hundred, plain_quotient(hundred, plain_sum(IndicatorValue::from_u64(1), rs)?)?)
        }
    }

    /// An average after `amount`, the first one where `first`.
    fn average(&self, average: IndicatorValue, amount: IndicatorValue, first: bool) -> (r: Option<IndicatorValue>)
        requires
            self.wf(),
        ensures
            first ==> r == Self::first_average(average, amount, self.period as nat),
            !first ==> r == Self::next_average(average, amount, self.period as nat),
    {
        let period = IndicatorValue::from_usize(self.period);
        if first {
            plain_quotient(plain_sum(average, amount)?, period)
        } else {
            let kept = plain_product(average, IndicatorValue::from_usize(self.period - 1))?;
            plain_quotient(plain_sum(kept, amount)?, period)
        }
    }

    /// The indicator after `input`, and the output, where the step is defined.
    fn advance(&self, input: IndicatorValue) -> (r: Option<(RelativeStrengthIndex, Option<IndicatorValue>)>)
        requires
            self.wf(),
        ensures
            match Self::step(self.state(), input) {
                Some((s, out)) => r.is_some() && r.unwrap().0.wf() && r.unwrap().0.state() == s && r.unwrap().1
                    == out,
                None => r.is_none(),
            },
    {
        let mut next = *self;
        next.prev_value = Some(input);
        let previous = match self.prev_value {
            Some(p) => p,
            None => { return Some((next, None)); },
        };
        let change = plain_difference(input, previous)?;
        let gain = if change.is_positive() { change } else { IndicatorValue::zero() };
        let loss = if change.is_negative() { change.negated() } else { IndicatorValue::zero() };
        if self.count <= self.period {
            next.count = self.count + 1;
        }
        if next.count < self.period {
            next.avg_gain = plain_sum(self.avg_gain, gain)?;
            next.avg_loss = plain_sum(self.avg_loss, loss)?;
            return Some((next, None));
        }
        let first = next.count == self.period;
        next.avg_gain = self.average(self.avg_gain, gain, first)?;
        next.avg_loss = self.average(self.avg_loss, loss, first)?;
        let rsi = Self::calculate_rsi(next.avg_gain, next.avg_loss)?;
        Some((next, Some(rsi)))
    }
}

impl Default for RelativeStrengthIndex {
    fn default() -> (r: RelativeStrengthIndex)
        ensures
            r.wf(),
            r.state() == RelativeStrengthIndex::spec_new(14),
    {
        RelativeStrengthIndex::new(14)
    }
}

impl Indicator for RelativeStrengthIndex {
    type Input = IndicatorValue;

    type Output = Option<IndicatorValue>;

    type State = RelativeStrengthIndexState;

    closed spec fn wf(&self) -> bool {
        &&& 0 < self.period < usize::MAX
        &&& self.count <= self.period + 1
    }

    closed spec fn state(&self) -> RelativeStrengthIndexState {
        RelativeStrengthIndexState {
            prev: self.prev_value,
            avg_gain: self.avg_gain,
            avg_loss: self.avg_loss,
            count: self.count as nat,
            period: self.period as nat,
        }
    }

    open spec fn step(s: RelativeStrengthIndexState, input: IndicatorValue) -> Option<
        (RelativeStrengthIndexState, Option<IndicatorValue>),
    > {
        match s.prev {
            None => Some((RelativeStrengthIndexState { prev: Some(input), ..s }, None)),
            Some(previous) => match IndicatorValue::spec_difference(input, previous) {
                None => None,
                Some(change) => {
                    let gain = Self::gain_of(change);
                    let loss = Self::loss_of(change);
                    let count = if s.count <= s.period { s.count + 1 } else { s.count };
                    let averages = if count < s.period {
                        (IndicatorValue::spec_sum(s.avg_gain, gain), IndicatorValue::spec_sum(s.avg_loss, loss))
                    } else if count == s.period {
                        (
                            Self::first_average(s.avg_gain, gain, s.period),
                            Self::first_average(s.avg_loss, loss, s.period),
                        )
                    } else {
                        (
                            Self::next_average(s.avg_gain, gain, s.period),
                            Self::next_average(s.avg_loss, loss, s.period),
                        )
                    };
                    match averages {
                        (Some(avg_gain), Some(avg_loss)) => {
                            let next = RelativeStrengthIndexState {
                                prev: Some(input),
                                avg_gain,
                                avg_loss,
                                count,
                                ..s
                            };
                            if count < s.period {
                                Some((next, None))
                            } else {
                                match Self::strength(avg_gain, avg_loss) {
                                    Some(rsi) => Some((next, Some(rsi))),
                                    None => None,
                                }
                            }
                        },
                        _ => None,
                    }
                },
            },
        }
    }

    open spec fn cleared(s: RelativeStrengthIndexState) -> RelativeStrengthIndexState {
        Self::spec_new(s.period)
    }

    open spec fn idle(s: RelativeStrengthIndexState) -> Option<IndicatorValue> {
        None
    }

    open spec fn ready(s: RelativeStrengthIndexState) -> bool {
        s.prev.is_some() && s.count >= s.period
    }

    open spec fn available(out: Option<IndicatorValue>) -> bool {
        out.is_some()
    }

    open spec fn prompt() -> bool {
        true
    }

    proof fn lemma_warm_up(s: RelativeStrengthIndexState, input: IndicatorValue) {
    }

    proof fn lemma_step_keeps_cleared(s: RelativeStrengthIndexState, input: IndicatorValue) {
    }

    proof fn lemma_cleared_twice(s: RelativeStrengthIndexState) {
    }

    fn peek(&self, input: IndicatorValue) -> (r: Option<Option<IndicatorValue>>) {
        match self.advance(input) {
            Some((_, out)) => Some(out),
            None => None,
        }
    }

    fn next(&mut self, input: IndicatorValue) -> (out: Option<IndicatorValue>) {
        let (next, out) = self.advance(input).unwrap();
        *self = next;
        out
    }

    fn reset(&mut self) {
        self.prev_value = None;
        self.avg_gain = IndicatorValue::zero();
        self.avg_loss = IndicatorValue::zero();
        self.count = 0;
    }

    fn duplicate(&self) -> (r: RelativeStrengthIndex) {
        *self
    }

    fn idle_output(&self) -> (out: Option<IndicatorValue>) {
        None
    }
}

} // verus!
