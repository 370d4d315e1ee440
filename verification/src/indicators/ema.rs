//! Exponential moving average.

use vstd::prelude::*;
use crate::indicator_value::{
    difference_of, plain_difference, plain_product, plain_quotient, plain_sum, product_of, sum_of, whole,
    IndicatorValue,
};
use crate::indicators::Indicator;

verus! {

/// The recursive average `ema = a * x + (1 - a) * ema`, with `a = 2 / (period + 1)`.
/// The first observation is the first average. Nothing is reported before
/// `period` observations were seen.
#[derive(Clone, Copy)]
pub struct ExponentialMovingAverage {
    multiplier: Option<IndicatorValue>,
    current_ema: Option<IndicatorValue>,
    period: usize,
    count: usize,
}

/// The model of an [`ExponentialMovingAverage`].
pub struct ExponentialMovingAverageState {
    /// The period.
    pub period: nat,
    /// The average so far, if an observation was seen.
    pub current: Option<IndicatorValue>,
    /// How many observations were seen, counted up to `period`.
    pub count: nat,
}

impl ExponentialMovingAverage {
    /// The state of a new average.
    pub open spec fn spec_new(period: nat) -> ExponentialMovingAverageState {
        ExponentialMovingAverageState { period, current: None, count: 0 }
    }

    /// The weight of the newest observation: `2 / (period + 1)`.
    pub open spec fn smoothing(period: nat) -> Option<IndicatorValue> {
        IndicatorValue::spec_quotient(whole(2), whole(period as int + 1))
    }

    /// The average after `input`: `a * input + (1 - a) * previous`.
    pub open spec fn smoothed(period: nat, previous: IndicatorValue, input: IndicatorValue) -> Option<IndicatorValue> {
        let a = Self::smoothing(period);
        sum_of(product_of(a, Some(input)), product_of(difference_of(Some(whole(1)), a), Some(previous)))
    }

    /// A new indicator over `period` observations.
    pub fn new(period: usize) -> (r: ExponentialMovingAverage)
        requires
            period < usize::MAX,
        ensures
            r.wf(),
            Self::cleared(r.state()) == r.state(),
            r.state() == Self::spec_new(period as nat),
    {
        ExponentialMovingAverage {
            multiplier: plain_quotient(IndicatorValue::from_u64(2), IndicatorValue::from_usize(period + 1)),
            current_ema: None,
            period,
            count: 0,
        }
    }

    /// Makes `ema` the average so far and ends the warm-up.
    pub fn set_ema(&mut self, ema: IndicatorValue)
        requires
            old(self).wf(),
        ensures
            final(self).wf(),
            final(self).state() == (ExponentialMovingAverageState {
                current: Some(ema),
                count: old(self).state().period,
                ..old(self).state()
            }),
    {
        self.current_ema = Some(ema);
        self.count = self.period;
    }

    /// The indicator after `input`, and the output, where the step is defined.
    fn advance(&self, input: IndicatorValue) -> (r: Option<(ExponentialMovingAverage, Option<IndicatorValue>)>)
        requires
            self.wf(),
        ensures
            match Self::step(self.state(), input) {
                Some((s, out)) => r.is_some() && r.unwrap().0.wf() && r.unwrap().0.state() == s && r.unwrap().1
                    == out,
                None => r.is_none(),
            },
    {
        let ema = match self.current_ema {
            Some(previous) => {
                let a = self.multiplier?;
                let fresh = plain_product(a, input)?;
                let rest = plain_difference(IndicatorValue::from_u64(1), a)?;
                plain_sum(fresh, plain_product(rest, previous)?)?
            },
            None => input,
        };
        let mut next = *self;
        next.current_ema = Some(ema);
        if self.count < self.period {
            next.count = self.count + 1;
        }
        if next.count < self.period {
            Some((next, None))
        } else {
            Some((next, Some(ema)))
        }
    }
}

impl Default for ExponentialMovingAverage {
    fn default() -> (r: ExponentialMovingAverage)
        ensures
            r.wf(),
            r.state() == ExponentialMovingAverage::spec_new(14),
    {
        ExponentialMovingAverage::new(14)
    }
}

impl Indicator for ExponentialMovingAverage {
    type Input = IndicatorValue;

    type Output = Option<IndicatorValue>;

    type State = ExponentialMovingAverageState;

    closed spec fn wf(&self) -> bool {
        &&& self.period < usize::MAX
        &&& self.count <= self.period
        &&& self.multiplier == Self::smoothing(self.period as nat)
    }

    closed spec fn state(&self) -> ExponentialMovingAverageState {
        ExponentialMovingAverageState {
            period: self.period as nat,
            current: self.current_ema,
            count: self.count as nat,
        }
    }

    open spec fn step(s: ExponentialMovingAverageState, input: IndicatorValue) -> Option<
        (ExponentialMovingAverageState, Option<IndicatorValue>),
    > {
        let ema = match s.current {
            Some(previous) => Self::smoothed(s.period, previous, input),
            None => Some(input),
        };
        let count = if s.count < s.period { s.count + 1 } else { s.count };
        match ema {
            None => None,
            Some(value) => Some(
                (
                    ExponentialMovingAverageState { current: Some(value), count, ..s },
                    if count < s.period { None } else { Some(value) },
                ),
            ),
        }
    }

    open spec fn cleared(s: ExponentialMovingAverageState) -> ExponentialMovingAverageState {
        Self::spec_new(s.period)
    }

    open spec fn idle(s: ExponentialMovingAverageState) -> Option<IndicatorValue> {
        None
    }

    open spec fn ready(s: ExponentialMovingAverageState) -> bool {
        s.count >= s.period
    }

    open spec fn available(out: Option<IndicatorValue>) -> bool {
        out.is_some()
    }

    open spec fn prompt() -> bool {
        true
    }

    proof fn lemma_warm_up(s: ExponentialMovingAverageState, input: IndicatorValue) {
    }

    proof fn lemma_step_keeps_cleared(s: ExponentialMovingAverageState, input: IndicatorValue) {
    }

    proof fn lemma_cleared_twice(s: ExponentialMovingAverageState) {
    }

    fn peek(&self, input: IndicatorValue) -> (r: Option<Option<IndicatorValue>>) {
        match self.advance(input) {
            Some((_, out)) => Some(out),
            None => None,
        }
    }

    fn next(&mut self, input: IndicatorValue) -> (out: Option<IndicatorValue>) {
        let (next, out) = self.advance(input).unwrap();
        *self = next;
        out
    }

    fn reset(&mut self) {
        self.current_ema = None;
        self.count = 0;
    }

    fn duplicate(&self) -> (r: ExponentialMovingAverage) {
        *self
    }

    fn idle_output(&self) -> (out: Option<IndicatorValue>) {
        None
    }
}

} // verus!
