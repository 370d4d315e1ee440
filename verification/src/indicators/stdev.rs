//! Standard deviation.

use vstd::prelude::*;
use crate::circular_buffer::CircularBuffer;
use crate::indicator_value::{
    difference_of, plain_difference, plain_product, plain_quotient, plain_sqrt, plain_sum, product_of,
    quotient_of, sqrt_of, sum_of, whole, IndicatorValue,
};
use crate::indicators::Indicator;

verus! {

/// The sample standard deviation of the last `period` observations.
///
/// The sum of the squared deviations is kept up to date with each
/// observation, from the mean before and the mean after it, as if the window
/// had been full of zeros at the start. The variance divides that sum by
/// `period - 1`.
pub struct StandardDeviation {
    buffer: CircularBuffer,
    sum: IndicatorValue,
    sum_of_squares: IndicatorValue,
    mean: IndicatorValue,
}

/// The model of a [`StandardDeviation`].
pub struct StandardDeviationState {
    /// The observations kept, newest first.
    pub window: Seq<IndicatorValue>,
    /// The period.
    pub capacity: nat,
    /// The running sum of the window.
    pub sum: IndicatorValue,
    /// The running sum of the squared deviations from the mean.
    pub sum_of_squares: IndicatorValue,
    /// The running mean: the sum over the period.
    pub mean: IndicatorValue,
}

impl StandardDeviation {
    /// The state of a new indicator.
    pub open spec fn spec_new(period: nat) -> StandardDeviationState {
        StandardDeviationState {
            window: Seq::empty(),
            capacity: period,
            sum: whole(0),
            sum_of_squares: whole(0),
            mean: whole(0),
        }
    }

    /// The value that leaves the window, zero while the window fills.
    pub open spec fn leaving(s: StandardDeviationState) -> IndicatorValue {
        match CircularBuffer::evicted(s.window, s.capacity) {
            Some(old) => old,
            None => whole(0),
        }
    }

    /// The sum after `input`: `sum + (input - old)`.
    pub open spec fn next_sum(s: StandardDeviationState, input: IndicatorValue) -> Option<IndicatorValue> {
        sum_of(Some(s.sum), IndicatorValue::spec_difference(input, Self::leaving(s)))
    }

    /// The mean after `input`: the new sum over the period.
    pub open spec fn next_mean(s: StandardDeviationState, input: IndicatorValue) -> Option<IndicatorValue> {
        quotient_of(Self::next_sum(s, input), Some(whole(s.capacity as int)))
    }

    /// The sum of squared deviations after `input`:
    /// `squares + (input - mean') * (input - mean) - (old - mean) * (old - mean')`.
    pub open spec fn next_squares(s: StandardDeviationState, input: IndicatorValue) -> Option<IndicatorValue> {
        let old = Some(Self::leaving(s));
        let mean = Self::next_mean(s, input);
        sum_of(
            Some(s.sum_of_squares),
            difference_of(
                product_of(difference_of(Some(input), mean), difference_of(Some(input), Some(s.mean))),
                product_of(difference_of(old, Some(s.mean)), difference_of(old, mean)),
            ),
        )
    }

    /// The deviation for a sum of squared deviations: the root of the sum over `period - 1`.
    pub open spec fn deviation(squares: IndicatorValue, period: nat) -> Option<IndicatorValue> {
        sqrt_of(IndicatorValue::spec_quotient(squares, whole(period - 1)))
    }

    /// A new indicator over `period` observations.
    pub fn new(period: usize) -> (r: StandardDeviation)
        requires
            period > 1,
        ensures
            r.wf(),
            Self::cleared(r.state()) == r.state(),
            r.state() == Self::spec_new(period as nat),
    {
        StandardDeviation {
            buffer: CircularBuffer::new(period),
            sum: IndicatorValue::zero(),
            sum_of_squares: IndicatorValue::zero(),
            mean: IndicatorValue::zero(),
        }
    }

    /// The new sum, mean and sum of squares and the output for `input`, where
    /// the step is defined.
    fn plan(&self, input: IndicatorValue) -> (r: Option<
        (IndicatorValue, IndicatorValue, IndicatorValue, Option<IndicatorValue>),
    >)
        requires
            self.wf(),
        ensures
            match Self::step(self.state(), input) {
                Some((s, out)) => r == Some((s.sum, s.mean, s.sum_of_squares, out)),
                None => r.is_none(),
            },
    {
        proof {
            self.buffer.lemma_len();
        }
        let period = self.buffer.capacity();
        let old = match self.buffer.next_evicted() {
            Some(old) => old,
            None => IndicatorValue::zero(),
        };
        let sum = plain_sum(self.sum, plain_difference(input, old)?)?;
        let mean = plain_quotient(sum, IndicatorValue::from_usize(period))?;
        let entering = plain_product(plain_difference(input, mean)?, plain_difference(input, self.mean)?)?;
        let leaving = plain_product(plain_difference(old, self.mean)?, plain_difference(old, mean)?)?;
        let squares = plain_sum(self.sum_of_squares, plain_difference(entering, leaving)?)?;
        if self.buffer.len() >= period - 1 {
            let variance = plain_quotient(squares, IndicatorValue::from_usize(period - 1))?;
            let deviation = plain_sqrt(variance)?;
            Some((sum, mean, squares, Some(deviation)))
        } else {
            Some((sum, mean, squares, None))
        }
    }
}

impl Default for StandardDeviation {
    fn default() -> (r: StandardDeviation)
        ensures
            r.wf(),
            r.state() == StandardDeviation::spec_new(20),
    {
        StandardDeviation::new(20)
    }
}

impl Indicator for StandardDeviation {
    type Input = IndicatorValue;

    type Output = Option<IndicatorValue>;

    type State = StandardDeviationState;

    closed spec fn wf(&self) -> bool {
        self.buffer.wf()
    }

    closed spec fn state(&self) -> StandardDeviationState {
        StandardDeviationState {
            window: self.buffer@,
            capacity: self.buffer.spec_capacity(),
            sum: self.sum,
            sum_of_squares: self.sum_of_squares,
            mean: self.mean,
        }
    }

    open spec fn step(s: StandardDeviationState, input: IndicatorValue) -> Option<
        (StandardDeviationState, Option<IndicatorValue>),
    > {
        match (Self::next_sum(s, input), Self::next_mean(s, input), Self::next_squares(s, input)) {
            (Some(sum), Some(mean), Some(sum_of_squares)) => {
                let window = CircularBuffer::pushed(s.window, s.capacity, input);
                let next = StandardDeviationState { window, sum, mean, sum_of_squares, ..s };
                if window.len() >= s.capacity {
                    match Self::deviation(sum_of_squares, s.capacity) {
                        None => None,
                        Some(deviation) => Some((next, Some(deviation))),
                    }
                } else {
                    Some((next, None))
                }
            },
            _ => None,
        }
    }

    open spec fn cleared(s: StandardDeviationState) -> StandardDeviationState {
        Self::spec_new(s.capacity)
    }

    open spec fn idle(s: StandardDeviationState) -> Option<IndicatorValue> {
        None
    }

    open spec fn ready(s: StandardDeviationState) -> bool {
        s.window.len() >= s.capacity
    }

    open spec fn available(out: Option<IndicatorValue>) -> bool {
        out.is_some()
    }

    open spec fn prompt() -> bool {
        true
    }

    proof fn lemma_warm_up(s: StandardDeviationState, input: IndicatorValue) {
    }

    proof fn lemma_step_keeps_cleared(s: StandardDeviationState, input: IndicatorValue) {
    }

    proof fn lemma_cleared_twice(s: StandardDeviationState) {
    }

    fn peek(&self, input: IndicatorValue) -> (r: Option<Option<IndicatorValue>>) {
        match self.plan(input) {
            Some((_, _, _, out)) => Some(out),
            None => None,
        }
    }

    fn next(&mut self, input: IndicatorValue) -> (out: Option<IndicatorValue>) {
        let (sum, mean, squares, out) = self.plan(input).unwrap();
        self.buffer.push(input);
        self.sum = sum;
        self.mean = mean;
        self.sum_of_squares = squares;
        out
    }

    fn reset(&mut self) {
        self.sum = IndicatorValue::zero();
        self.sum_of_squares = IndicatorValue::zero();
        self.mean = IndicatorValue::zero();
        self.buffer.clear();
    }

    fn duplicate(&self) -> (r: StandardDeviation) {
        StandardDeviation {
            buffer: self.buffer.duplicate(),
            sum: self.sum,
            sum_of_squares: self.sum_of_squares,
            mean: self.mean,
        }
    }

    fn idle_output(&self) -> (out: Option<IndicatorValue>) {
        None
    }
}

} // verus!
