//! Rate of change.

use vstd::prelude::*;
use crate::circular_buffer::CircularBuffer;
use crate::indicator_value::{
    plain_difference, plain_product, plain_quotient, product_of, quotient_of, whole,
    IndicatorValue,
};
use crate::indicators::Indicator;

verus! {

/// The change against the observation `period` steps back, in percent of it.
/// Where that observation is zero, the rate is zero.
pub struct RateOfChange {
    buffer: CircularBuffer,
}

/// The model of a [`RateOfChange`].
pub struct RateOfChangeState {
    /// The observations kept, newest first.
    pub window: Seq<IndicatorValue>,
    /// The period.
    pub capacity: nat,
}

impl RateOfChange {
    /// The state of a new indicator.
    pub open spec fn spec_new(period: nat) -> RateOfChangeState {
        RateOfChangeState { window: Seq::empty(), capacity: period }
    }

    /// `(input - old) / old * 100`, and zero where `old` is zero.
    pub open spec fn rate(input: IndicatorValue, old: IndicatorValue) -> Option<IndicatorValue> {
        if old.spec_is_zero() {
            Some(whole(0))
        } else {
            product_of(
                quotient_of(IndicatorValue::spec_difference(input, old), Some(old)),
                Some(whole(100)),
            )
        }
    }

    /// A new indicator over `period` observations.
    pub fn new(period: usize) -> (r: RateOfChange)
        requires
            period > 0,
        ensures
            r.wf(),
            Self::cleared(r.state()) == r.state(),
            r.state() == Self::spec_new(period as nat),
    {
        RateOfChange { buffer: CircularBuffer::new(period) }
    }
}

impl Default for RateOfChange {
    fn default() -> (r: RateOfChange)
        ensures
            r.wf(),
            r.state() == RateOfChange::spec_new(12),
    {
        RateOfChange::new(12)
    }
}

impl Indicator for RateOfChange {
    type Input = IndicatorValue;

    type Output = Option<IndicatorValue>;

    type State = RateOfChangeState;

    closed spec fn wf(&self) -> bool {
        self.buffer.wf()
    }

    closed spec fn state(&self) -> RateOfChangeState {
        RateOfChangeState { window: self.buffer@, capacity: self.buffer.spec_capacity() }
    }

    open spec fn step(s: RateOfChangeState, input: IndicatorValue) -> Option<
        (RateOfChangeState, Option<IndicatorValue>),
    > {
        let next = RateOfChangeState { window: CircularBuffer::pushed(s.window, s.capacity, input), ..s };
        match CircularBuffer::evicted(s.window, s.capacity) {
            None => Some((next, None)),
            Some(old) => match Self::rate(input, old) {
                None => None,
                Some(roc) => Some((next, Some(roc))),
            },
        }
    }

    open spec fn cleared(s: RateOfChangeState) -> RateOfChangeState {
        Self::spec_new(s.capacity)
    }

    open spec fn idle(s: RateOfChangeState) -> Option<IndicatorValue> {
        None
    }

    open spec fn ready(s: RateOfChangeState) -> bool {
        s.window.len() >= s.capacity
    }

    open spec fn available(out: Option<IndicatorValue>) -> bool {
        out.is_some()
    }

    open spec fn prompt() -> bool {
        true
    }

    proof fn lemma_warm_up(s: RateOfChangeState, input: IndicatorValue) {
    }

    proof fn lemma_step_keeps_cleared(s: RateOfChangeState, input: IndicatorValue) {
    }

    proof fn lemma_cleared_twice(s: RateOfChangeState) {
    }

    fn peek(&self, input: IndicatorValue) -> (r: Option<Option<IndicatorValue>>) {
        match self.buffer.next_evicted() {
            None => Some(None),
            Some(old) => {
                if old.is_zero() {
                    Some(Some(IndicatorValue::zero()))
                } else {
                    let change = plain_difference(input, old)?;
                    let share = plain_quotient(change, old)?;
                    Some(Some(plain_product(share, IndicatorValue::from_u64(100))?))
                }
            },
        }
    }

    fn next(&mut self, input: IndicatorValue) -> (out: Option<IndicatorValue>) {
        let out = self.peek(input).unwrap();
        self.buffer.push(input);
        out
    }

    fn reset(&mut self) {
        self.buffer.clear();
    }

    fn duplicate(&self) -> (r: RateOfChange) {
        RateOfChange { buffer: self.buffer.duplicate() }
    }

    fn idle_output(&self) -> (out: Option<IndicatorValue>) {
        None
    }
}

} // verus!
