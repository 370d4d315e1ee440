//! Average true range.

use vstd::prelude::*;
use crate::circular_buffer::CircularBuffer;
use crate::indicator_value::{plain_difference, plain_quotient, whole, IndicatorValue};
use crate::indicators::window::{roll_sum, rolled_sum};
use crate::indicators::Indicator;

verus! {

/// The mean of the last `period` true ranges.
///
/// The true range of an observation is the largest of `high - low`,
/// `|high - previous close|` and `|low - previous close|`; for the first
/// observation it is `high - low`.
pub struct AverageTrueRange {
    true_ranges: CircularBuffer,
    prev_close: Option<IndicatorValue>,
    running_sum: IndicatorValue,
    period: IndicatorValue,
}

/// The model of an [`AverageTrueRange`].
pub struct AverageTrueRangeState {
    /// The true ranges kept, newest first.
    pub window: Seq<IndicatorValue>,
    /// The period.
    pub capacity: nat,
    /// The close of the observation before, if there was one.
    pub prev_close: Option<IndicatorValue>,
    /// The running sum of the window.
    pub sum: IndicatorValue,
}

impl AverageTrueRange {
    /// The state of a new indicator.
    pub open spec fn spec_new(period: nat) -> AverageTrueRangeState {
        AverageTrueRangeState { window: Seq::empty(), capacity: period, prev_close: None, sum: whole(0) }
    }

    /// The true range of an observation.
    pub open spec fn true_range(prev_close: Option<IndicatorValue>, high: IndicatorValue, low: IndicatorValue) -> Option<
        IndicatorValue,
    > {
        match prev_close {
            None => IndicatorValue::spec_difference(high, low),
            Some(close) => match (
                IndicatorValue::spec_difference(high, low),
                IndicatorValue::spec_difference(high, close),
                IndicatorValue::spec_difference(low, close),
            ) {
                (Some(range), Some(up), Some(down)) => Some(
                    range.spec_greater_of(up.spec_abs()).spec_greater_of(down.spec_abs()),
                ),
                _ => None,
            },
        }
    }

    /// A new indicator over `period` observations.
    pub fn new(period: usize) -> (r: AverageTrueRange)
        requires
            period > 0,
        ensures
            r.wf(),
            Self::cleared(r.state()) == r.state(),
            r.state() == Self::spec_new(period as nat),
    {
        AverageTrueRange {
            true_ranges: CircularBuffer::new(period),
            prev_close: None,
            running_sum: IndicatorValue::zero(),
            period: IndicatorValue::from_usize(period),
        }
    }

    /// The true range, the new running sum and the output for `input`, where
    /// the step is defined.
    fn plan(&self, input: (IndicatorValue, IndicatorValue, IndicatorValue)) -> (r: Option<
        (IndicatorValue, IndicatorValue, Option<IndicatorValue>),
    >)
        requires
            self.wf(),
        ensures
            match Self::step(self.state(), input) {
                Some((s, out)) => r == Some((s.window[0], s.sum, out)),
                None => r.is_none(),
            },
    {
        proof {
            self.true_ranges.lemma_len();
        }
        let (high, low, _) = input;
        let range = plain_difference(high, low)?;
        let true_range = match self.prev_close {
            None => range,
            Some(close) => {
                let up = plain_difference(high, close)?;
                let down = plain_difference(low, close)?;
                range.greater_of(up.abs()).greater_of(down.abs())
            },
        };
        let sum = roll_sum(self.running_sum, true_range, self.true_ranges.next_evicted())?;
        if self.true_ranges.len() >= self.true_ranges.capacity() - 1 {
            let mean = plain_quotient(sum, self.period)?;
            Some((true_range, sum, Some(mean)))
        } else {
            Some((true_range, sum, None))
        }
    }
}

impl Default for AverageTrueRange {
    fn default() -> (r: AverageTrueRange)
        ensures
            r.wf(),
            r.state() == AverageTrueRange::spec_new(14),
    {
        AverageTrueRange::new(14)
    }
}

impl Indicator for AverageTrueRange {
    /// The high, the low and the close.
    type Input = (IndicatorValue, IndicatorValue, IndicatorValue);

    type Output = Option<IndicatorValue>;

    type State = AverageTrueRangeState;

    closed spec fn wf(&self) -> bool {
        &&& self.true_ranges.wf()
        &&& self.period == whole(self.true_ranges.spec_capacity() as int)
    }

    closed spec fn state(&self) -> AverageTrueRangeState {
        AverageTrueRangeState {
            window: self.true_ranges@,
            capacity: self.true_ranges.spec_capacity(),
            prev_close: self.prev_close,
            sum: self.running_sum,
        }
    }

    open spec fn step(s: AverageTrueRangeState, input: (IndicatorValue, IndicatorValue, IndicatorValue)) -> Option<
        (AverageTrueRangeState, Option<IndicatorValue>),
    > {
        match Self::true_range(s.prev_close, input.0, input.1) {
            None => None,
            Some(range) => match rolled_sum(s.sum, range, CircularBuffer::evicted(s.window, s.capacity)) {
                None => None,
                Some(sum) => {
                    let window = CircularBuffer::pushed(s.window, s.capacity, range);
                    let next = AverageTrueRangeState { window, prev_close: Some(input.2), sum, ..s };
                    if window.len() >= s.capacity {
                        match IndicatorValue::spec_quotient(sum, whole(s.capacity as int)) {
                            None => None,
                            Some(mean) => Some((next, Some(mean))),
                        }
                    } else {
                        Some((next, None))
                    }
                },
            },
        }
    }

    open spec fn cleared(s: AverageTrueRangeState) -> AverageTrueRangeState {
        Self::spec_new(s.capacity)
    }

    open spec fn idle(s: AverageTrueRangeState) -> Option<IndicatorValue> {
        None
    }

    open spec fn ready(s: AverageTrueRangeState) -> bool {
        s.window.len() >= s.capacity
    }

    open spec fn available(out: Option<IndicatorValue>) -> bool {
        out.is_some()
    }

    open spec fn prompt() -> bool {
        true
    }

    proof fn lemma_warm_up(s: AverageTrueRangeState, input: (IndicatorValue, IndicatorValue, IndicatorValue)) {
    }

    proof fn lemma_step_keeps_cleared(s: AverageTrueRangeState, input: (IndicatorValue, IndicatorValue, IndicatorValue)) {
    }

    proof fn lemma_cleared_twice(s: AverageTrueRangeState) {
    }

    fn peek(&self, input: (IndicatorValue, IndicatorValue, IndicatorValue)) -> (r: Option<Option<IndicatorValue>>) {
        match self.plan(input) {
            Some((_, _, out)) => Some(out),
            None => None,
        }
    }

    fn next(&mut self, input: (IndicatorValue, IndicatorValue, IndicatorValue)) -> (out: Option<IndicatorValue>) {
        let (true_range, sum, out) = self.plan(input).unwrap();
        self.true_ranges.push(true_range);
        self.prev_close = Some(input.2);
        self.running_sum = sum;
        out
    }

    fn reset(&mut self) {
        self.true_ranges.clear();
        self.prev_close = None;
        self.running_sum = IndicatorValue::zero();
    }

    fn duplicate(&self) -> (r: AverageTrueRange) {
        AverageTrueRange {
            true_ranges: self.true_ranges.duplicate(),
            prev_close: self.prev_close,
            running_sum: self.running_sum,
            period: self.period,
        }
    }

    fn idle_output(&self) -> (out: Option<IndicatorValue>) {
        None
    }
}

} // verus!
