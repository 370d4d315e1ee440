//! Deviation from the moving median.

use vstd::prelude::*;
use crate::indicator_value::{plain_difference, IndicatorValue};
use crate::indicators::smm::{SimpleMovingMedian, SimpleMovingMedianState};
use crate::indicators::Indicator;

verus! {

/// How far the newest observation is from the median of the last `period`
/// observations: `input - median`.
#[derive(Debug)]
pub struct MedianAbsoluteStandardDeviation {
    median_calculator: SimpleMovingMedian,
}

/// The model of a [`MedianAbsoluteStandardDeviation`].
pub struct MedianAbsoluteStandardDeviationState {
    /// The moving median.
    pub median: SimpleMovingMedianState,
}

impl MedianAbsoluteStandardDeviation {
    /// The state of a new indicator.
    pub open spec fn spec_new(period: nat) -> MedianAbsoluteStandardDeviationState {
        MedianAbsoluteStandardDeviationState { median: SimpleMovingMedian::spec_new(period) }
    }

    /// What the median gives: nothing where there is no median, else `input - median`.
    pub open spec fn combined(input: IndicatorValue, median: Option<IndicatorValue>) -> Option<Option<IndicatorValue>> {
        match median {
            None => Some(None),
            Some(middle) => match IndicatorValue::spec_difference(input, middle) {
                Some(out) => Some(Some(out)),
                None => None,
            },
        }
    }

    /// A new indicator over `period` observations.
    pub fn new(period: usize) -> (r: MedianAbsoluteStandardDeviation)
        requires
            period > 0,
        ensures
            r.wf(),
            Self::cleared(r.state()) == r.state(),
            r.state() == Self::spec_new(period as nat),
    {
        MedianAbsoluteStandardDeviation { median_calculator: SimpleMovingMedian::new(period) }
    }

    /// What the median gives.
    fn combine(input: IndicatorValue, median: Option<IndicatorValue>) -> (r: Option<Option<IndicatorValue>>)
        ensures
            r == Self::combined(input, median),
    {
        match median {
            None => Some(None),
            Some(middle) => Some(Some(plain_difference(input, middle)?)),
        }
    }
}

impl Indicator for MedianAbsoluteStandardDeviation {
    type Input = IndicatorValue;

    type Output = Option<IndicatorValue>;

    type State = MedianAbsoluteStandardDeviationState;

    closed spec fn wf(&self) -> bool {
        self.median_calculator.wf()
    }

    closed spec fn state(&self) -> MedianAbsoluteStandardDeviationState {
        MedianAbsoluteStandardDeviationState { median: self.median_calculator.state() }
    }

    open spec fn step(s: MedianAbsoluteStandardDeviationState, input: IndicatorValue) -> Option<
        (MedianAbsoluteStandardDeviationState, Option<IndicatorValue>),
    > {
        match SimpleMovingMedian::step(s.median, input) {
            None => None,
            Some((median, middle)) => match Self::combined(input, middle) {
                Some(out) => Some((MedianAbsoluteStandardDeviationState { median }, out)),
                None => None,
            },
        }
    }

    open spec fn cleared(s: MedianAbsoluteStandardDeviationState) -> MedianAbsoluteStandardDeviationState {
        MedianAbsoluteStandardDeviationState { median: SimpleMovingMedian::cleared(s.median) }
    }

    open spec fn idle(s: MedianAbsoluteStandardDeviationState) -> Option<IndicatorValue> {
        None
    }

    open spec fn ready(s: MedianAbsoluteStandardDeviationState) -> bool {
        SimpleMovingMedian::ready(s.median)
    }

    open spec fn available(out: Option<IndicatorValue>) -> bool {
        out.is_some()
    }

    open spec fn prompt() -> bool {
        true
    }

    proof fn lemma_warm_up(s: MedianAbsoluteStandardDeviationState, input: IndicatorValue) {
        SimpleMovingMedian::lemma_warm_up(s.median, input);
    }

    proof fn lemma_step_keeps_cleared(s: MedianAbsoluteStandardDeviationState, input: IndicatorValue) {
        SimpleMovingMedian::lemma_step_keeps_cleared(s.median, input);
    }

    proof fn lemma_cleared_twice(s: MedianAbsoluteStandardDeviationState) {
        SimpleMovingMedian::lemma_cleared_twice(s.median);
    }

    fn peek(&self, input: IndicatorValue) -> (r: Option<Option<IndicatorValue>>) {
        let middle = self.median_calculator.peek(input)?;
        Self::combine(input, middle)
    }

    fn next(&mut self, input: IndicatorValue) -> (out: Option<IndicatorValue>) {
        let middle = self.median_calculator.next(input);
        Self::combine(input, middle).unwrap()
    }

    fn reset(&mut self) {
        self.median_calculator.reset();
    }

    fn duplicate(&self) -> (r: MedianAbsoluteStandardDeviation) {
        MedianAbsoluteStandardDeviation { median_calculator: self.median_calculator.duplicate() }
    }

    fn idle_output(&self) -> (out: Option<IndicatorValue>) {
        None
    }
}

} // verus!
