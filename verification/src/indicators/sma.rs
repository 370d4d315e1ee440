//! Simple moving average.

use vstd::prelude::*;
use crate::circular_buffer::CircularBuffer;
use crate::indicator_value::{plain_quotient, whole, IndicatorValue};
use crate::indicators::window::{roll_sum, rolled_sum};
use crate::indicators::Indicator;

verus! {

/// The mean of the last `period` observations.
pub struct SimpleMovingAverage {
    buffer: CircularBuffer,
    sum: IndicatorValue,
    period: IndicatorValue,
}

/// The model of a [`SimpleMovingAverage`].
pub struct SimpleMovingAverageState {
    /// The observations kept, newest first.
    pub window: Seq<IndicatorValue>,
    /// The period.
    pub capacity: nat,
    /// The running sum of the window.
    pub sum: IndicatorValue,
}

impl SimpleMovingAverage {
    /// The state of a new average over `period` observations.
    pub open spec fn spec_new(period: nat) -> SimpleMovingAverageState {
        SimpleMovingAverageState {
            window: Seq::empty(),
            capacity: period,
            sum: whole(0),
        }
    }

    /// A new indicator over `period` observations.
    pub fn new(period: usize) -> (r: SimpleMovingAverage)
        requires
            period > 0,
        ensures
            r.wf(),
            Self::cleared(r.state()) == r.state(),
            r.state() == Self::spec_new(period as nat),
    {
        SimpleMovingAverage {
            buffer: CircularBuffer::new(period),
            sum: IndicatorValue::zero(),
            period: IndicatorValue::from_usize(period),
        }
    }

    /// The new running sum and the output for `input`, where the step is defined.
    fn plan(&self, input: IndicatorValue) -> (r: Option<(IndicatorValue, Option<IndicatorValue>)>)
        requires
            self.wf(),
        ensures
            r == match Self::step(self.state(), input) {
                Some((s, out)) => Some((s.sum, out)),
                None => None,
            },
    {
        proof {
            self.buffer.lemma_len();
        }
        let sum = roll_sum(self.sum, input, self.buffer.next_evicted())?;
        if self.buffer.len() >= self.buffer.capacity() - 1 {
            let mean = plain_quotient(sum, self.period)?;
            Some((sum, Some(mean)))
        } else {
            Some((sum, None))
        }
    }
}

impl Default for SimpleMovingAverage {
    fn default() -> (r: SimpleMovingAverage)
        ensures
            r.wf(),
            r.state() == SimpleMovingAverage::spec_new(14),
    {
        SimpleMovingAverage::new(14)
    }
}

impl Indicator for SimpleMovingAverage {
    type Input = IndicatorValue;

    type Output = Option<IndicatorValue>;

    type State = SimpleMovingAverageState;

    closed spec fn wf(&self) -> bool {
        &&& self.buffer.wf()
        &&& self.period == whole(self.buffer.spec_capacity() as int)
    }

    closed spec fn state(&self) -> SimpleMovingAverageState {
        SimpleMovingAverageState {
            window: self.buffer@,
            capacity: self.buffer.spec_capacity(),
            sum: self.sum,
        }
    }

    open spec fn step(state: SimpleMovingAverageState, input: IndicatorValue) -> Option<
        (SimpleMovingAverageState, Option<IndicatorValue>),
    > {
        let window = CircularBuffer::pushed(state.window, state.capacity, input);
        match rolled_sum(state.sum, input, CircularBuffer::evicted(state.window, state.capacity)) {
            None => None,
            Some(sum) => {
                let next = SimpleMovingAverageState { window, capacity: state.capacity, sum };
                if window.len() >= state.capacity {
                    match IndicatorValue::spec_quotient(sum, whole(state.capacity as int)) {
                        None => None,
                        Some(mean) => Some((next, Some(mean))),
                    }
                } else {
                    Some((next, None))
                }
            },
        }
    }

    open spec fn cleared(state: SimpleMovingAverageState) -> SimpleMovingAverageState {
        Self::spec_new(state.capacity)
    }

    open spec fn idle(state: SimpleMovingAverageState) -> Option<IndicatorValue> {
        None
    }

    open spec fn ready(s: SimpleMovingAverageState) -> bool {
        s.window.len() >= s.capacity
    }

    open spec fn available(out: Option<IndicatorValue>) -> bool {
        out.is_some()
    }

    open spec fn prompt() -> bool {
        true
    }

    proof fn lemma_warm_up(s: SimpleMovingAverageState, input: IndicatorValue) {
    }

    proof fn lemma_step_keeps_cleared(state: SimpleMovingAverageState, input: IndicatorValue) {
    }

    proof fn lemma_cleared_twice(state: SimpleMovingAverageState) {
    }

    fn peek(&self, input: IndicatorValue) -> (r: Option<Option<IndicatorValue>>) {
        match self.plan(input) {
            Some((_, out)) => Some(out),
            None => None,
        }
    }

    fn next(&mut self, input: IndicatorValue) -> (out: Option<IndicatorValue>) {
        let (sum, out) = self.plan(input).unwrap();
        self.buffer.push(input);
        self.sum = sum;
        out
    }

    fn reset(&mut self) {
        self.buffer.clear();
        self.sum = IndicatorValue::zero();
    }

    fn duplicate(&self) -> (r: SimpleMovingAverage) {
        SimpleMovingAverage { buffer: self.buffer.duplicate(), sum: self.sum, period: self.period }
    }

    fn idle_output(&self) -> (out: Option<IndicatorValue>) {
        None
    }
}

} // verus!
