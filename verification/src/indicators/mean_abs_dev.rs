//! Mean absolute deviation.

use vstd::prelude::*;
use crate::circular_buffer::CircularBuffer;
use crate::indicator_value::{plain_difference, plain_quotient, plain_sum, quotient_of, sum_of, whole, IndicatorValue};
use crate::indicators::window::{roll_sum, rolled_sum};
use crate::indicators::Indicator;

verus! {

/// The mean distance of the last `period` observations from their mean.
///
/// The mean comes from a running sum; the distances are summed anew for each
/// output, from the newest observation to the oldest.
pub struct MeanAbsDev {
    buffer: CircularBuffer,
    sum: IndicatorValue,
    period: IndicatorValue,
}

/// The model of a [`MeanAbsDev`].
pub struct MeanAbsDevState {
    /// The observations kept, newest first.
    pub window: Seq<IndicatorValue>,
    /// The period.
    pub capacity: nat,
    /// The running sum of the window.
    pub sum: IndicatorValue,
}

impl MeanAbsDev {
    /// The state of a new indicator.
    pub open spec fn spec_new(period: nat) -> MeanAbsDevState {
        MeanAbsDevState { window: Seq::empty(), capacity: period, sum: whole(0) }
    }

    /// `|value - mean|`.
    pub open spec fn distance(value: IndicatorValue, mean: IndicatorValue) -> Option<IndicatorValue> {
        match IndicatorValue::spec_difference(value, mean) {
            Some(d) => Some(d.spec_abs()),
            None => None,
        }
    }

    /// The distances of the first `n` values of `window` from `mean`, summed
    /// up from zero in the order of the window.
    pub open spec fn distance_sum(window: Seq<IndicatorValue>, mean: IndicatorValue, n: nat) -> Option<IndicatorValue>
        decreases n,
    {
        if n == 0 {
            Some(whole(0))
        } else {
            sum_of(Self::distance_sum(window, mean, (n - 1) as nat), Self::distance(window[n - 1], mean))
        }
    }

    /// The mean distance of the values of a full window from their mean `sum / period`.
    pub open spec fn mean_distance(window: Seq<IndicatorValue>, sum: IndicatorValue, period: nat) -> Option<
        IndicatorValue,
    > {
        match IndicatorValue::spec_quotient(sum, whole(period as int)) {
            None => None,
            Some(mean) => quotient_of(Self::distance_sum(window, mean, window.len()), Some(whole(period as int))),
        }
    }

    /// A new indicator over `period` observations.
    pub fn new(period: usize) -> (r: MeanAbsDev)
        requires
            period > 0,
        ensures
            r.wf(),
            Self::cleared(r.state()) == r.state(),
            r.state() == Self::spec_new(period as nat),
    {
        MeanAbsDev {
            buffer: CircularBuffer::new(period),
            sum: IndicatorValue::zero(),
            period: IndicatorValue::from_usize(period),
        }
    }

    /// The distances from `mean` of the values kept once `input` is pushed, summed up.
    fn sum_distances(&self, input: IndicatorValue, mean: IndicatorValue) -> (r: Option<IndicatorValue>)
        requires
            self.wf(),
        ensures
            ({
                let window = CircularBuffer::pushed(self.buffer@, self.buffer.spec_capacity(), input);
                r == Self::distance_sum(window, mean, window.len())
            }),
    {
        proof {
            self.buffer.lemma_len();
        }
        let kept = self.buffer.len();
        let n = if kept < self.buffer.capacity() { kept + 1 } else { kept };
        let ghost window = CircularBuffer::pushed(self.buffer@, self.buffer.spec_capacity(), input);
        let mut total = IndicatorValue::zero();
        let mut i: usize = 0;
        while i < n
            invariant
                self.buffer.wf(),
                window == CircularBuffer::pushed(self.buffer@, self.buffer.spec_capacity(), input),
                n == window.len(),
                n <= self.buffer@.len() + 1,
                i <= n,
                Self::distance_sum(window, mean, i as nat) == Some(total),
            decreases n - i,
        {
            let value = if i == 0 { input } else { self.buffer.at(i - 1) };
            assert(value == window[i as int]);
            let distance = match plain_difference(value, mean) {
                Some(d) => d.abs(),
                None => {
                    proof {
                        Self::lemma_distance_sum_fails(window, mean, i as nat + 1, n as nat);
                    }
                    return None;
                },
            };
            total = match plain_sum(total, distance) {
                Some(t) => t,
                None => {
                    proof {
                        Self::lemma_distance_sum_fails(window, mean, i as nat + 1, n as nat);
                    }
                    return None;
                },
            };
            i = i + 1;
        }
        Some(total)
    }

    /// A sum of distances that fails at some length fails at every greater length.
    proof fn lemma_distance_sum_fails(window: Seq<IndicatorValue>, mean: IndicatorValue, m: nat, n: nat)
        requires
            m <= n,
            Self::distance_sum(window, mean, m).is_none(),
        ensures
            Self::distance_sum(window, mean, n).is_none(),
        decreases n,
    {
        if m < n {
            Self::lemma_distance_sum_fails(window, mean, m, (n - 1) as nat);
        }
    }

    /// The new running sum and the output for `input`, where the step is defined.
    fn plan(&self, input: IndicatorValue) -> (r: Option<(IndicatorValue, Option<IndicatorValue>)>)
        requires
            self.wf(),
        ensures
            r == match Self::step(self.state(), input) {
                Some((s, out)) => Some((s.sum, out)),
                None => None,
            },
    {
        proof {
            self.buffer.lemma_len();
        }
        let sum = roll_sum(self.sum, input, self.buffer.next_evicted())?;
        if self.buffer.len() >= self.buffer.capacity() - 1 {
            let mean = plain_quotient(sum, self.period)?;
            let total = self.sum_distances(input, mean)?;
            Some((sum, Some(plain_quotient(total, self.period)?)))
        } else {
            Some((sum, None))
        }
    }
}

impl Default for MeanAbsDev {
    fn default() -> (r: MeanAbsDev)
        ensures
            r.wf(),
            r.state() == MeanAbsDev::spec_new(20),
    {
        MeanAbsDev::new(20)
    }
}

impl Indicator for MeanAbsDev {
    type Input = IndicatorValue;

    type Output = Option<IndicatorValue>;

    type State = MeanAbsDevState;

    closed spec fn wf(&self) -> bool {
        &&& self.buffer.wf()
        &&& self.period == whole(self.buffer.spec_capacity() as int)
    }

    closed spec fn state(&self) -> MeanAbsDevState {
        MeanAbsDevState { window: self.buffer@, capacity: self.buffer.spec_capacity(), sum: self.sum }
    }

    open spec fn step(s: MeanAbsDevState, input: IndicatorValue) -> Option<(MeanAbsDevState, Option<IndicatorValue>)> {
        let window = CircularBuffer::pushed(s.window, s.capacity, input);
        match rolled_sum(s.sum, input, CircularBuffer::evicted(s.window, s.capacity)) {
            None => None,
            Some(sum) => {
                let next = MeanAbsDevState { window, sum, ..s };
                if window.len() >= s.capacity {
                    match Self::mean_distance(window, sum, s.capacity) {
                        None => None,
                        Some(distance) => Some((next, Some(distance))),
                    }
                } else {
                    Some((next, None))
                }
            },
        }
    }

    open spec fn cleared(s: MeanAbsDevState) -> MeanAbsDevState {
        Self::spec_new(s.capacity)
    }

    open spec fn idle(s: MeanAbsDevState) -> Option<IndicatorValue> {
        None
    }

    open spec fn ready(s: MeanAbsDevState) -> bool {
        s.window.len() >= s.capacity
    }

    open spec fn available(out: Option<IndicatorValue>) -> bool {
        out.is_some()
    }

    open spec fn prompt() -> bool {
        true
    }

    proof fn lemma_warm_up(s: MeanAbsDevState, input: IndicatorValue) {
    }

    proof fn lemma_step_keeps_cleared(s: MeanAbsDevState, input: IndicatorValue) {
    }

    proof fn lemma_cleared_twice(s: MeanAbsDevState) {
    }

    fn peek(&self, input: IndicatorValue) -> (r: Option<Option<IndicatorValue>>) {
        match self.plan(input) {
            Some((_, out)) => Some(out),
            None => None,
        }
    }

    fn next(&mut self, input: IndicatorValue) -> (out: Option<IndicatorValue>) {
        let (sum, out) = self.plan(input).unwrap();
        self.buffer.push(input);
        self.sum = sum;
        out
    }

    fn reset(&mut self) {
        self.buffer.clear();
        self.sum = IndicatorValue::zero();
    }

    fn duplicate(&self) -> (r: MeanAbsDev) {
        MeanAbsDev { buffer: self.buffer.duplicate(), sum: self.sum, period: self.period }
    }

    fn idle_output(&self) -> (out: Option<IndicatorValue>) {
        None
    }
}

} // verus!
