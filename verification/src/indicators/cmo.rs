//! Chande momentum oscillator.

use vstd::prelude::*;
use crate::circular_buffer::CircularBuffer;
use crate::indicator_value::{
    plain_difference, plain_product, plain_quotient, plain_sum, product_of, quotient_of,
    whole, IndicatorValue,
};
use crate::indicators::Indicator;

verus! {

/// The balance of the rises and the falls among the last `period` changes,
/// from -100 to 100: `(up - down) / (up + down) * 100`, and zero where
/// nothing moved.
pub struct ChandeMomentumOscillator {
    buffer: CircularBuffer,
    previous_value: Option<IndicatorValue>,
    sum_up: IndicatorValue,
    sum_down: IndicatorValue,
}

/// The model of a [`ChandeMomentumOscillator`].
pub struct ChandeMomentumOscillatorState {
    /// The changes kept, newest first.
    pub window: Seq<IndicatorValue>,
    /// The period.
    pub capacity: nat,
    /// The observation before, if there was one.
    pub previous: Option<IndicatorValue>,
    /// The running sum of the rises in the window.
    pub sum_up: IndicatorValue,
    /// The running sum of the falls in the window, as a positive amount.
    pub sum_down: IndicatorValue,
}

impl ChandeMomentumOscillator {
    /// The state of a new oscillator.
    pub open spec fn spec_new(period: nat) -> ChandeMomentumOscillatorState {
        ChandeMomentumOscillatorState {
            window: Seq::empty(),
            capacity: period,
            previous: None,
            sum_up: whole(0),
            sum_down: whole(0),
        }
    }

    /// The sums of rises and falls after a change entered them.
    pub open spec fn entered(up: IndicatorValue, down: IndicatorValue, change: IndicatorValue) -> Option<
        (IndicatorValue, IndicatorValue),
    > {
        if change.spec_is_positive() {
            match IndicatorValue::spec_sum(up, change) {
                Some(more) => Some((more, down)),
                None => None,
            }
        } else if change.spec_is_negative() {
            match IndicatorValue::spec_difference(down, change) {
                Some(more) => Some((up, more)),
                None => None,
            }
        } else {
            Some((up, down))
        }
    }

    /// The sums of rises and falls after a change left them.
    pub open spec fn left(up: IndicatorValue, down: IndicatorValue, removed: Option<IndicatorValue>) -> Option<
        (IndicatorValue, IndicatorValue),
    > {
        match removed {
            None => Some((up, down)),
            Some(change) => if change.spec_is_positive() {
                match IndicatorValue::spec_difference(up, change) {
                    Some(less) => Some((less, down)),
                    None => None,
                }
            } else if change.spec_is_negative() {
                match IndicatorValue::spec_sum(down, change) {
                    Some(less) => Some((up, less)),
                    None => None,
                }
            } else {
                Some((up, down))
            },
        }
    }

    /// The oscillator for the given sums.
    pub open spec fn balance(up: IndicatorValue, down: IndicatorValue) -> Option<IndicatorValue> {
        match IndicatorValue::spec_sum(up, down) {
            None => None,
            Some(total) => if total.spec_is_zero() {
                Some(whole(0))
            } else {
                quotient_of(
                    product_of(IndicatorValue::spec_difference(up, down), Some(whole(100))),
                    Some(total),
                )
            },
        }
    }

    /// A new indicator over `period` observations.
    pub fn new(period: usize) -> (r: ChandeMomentumOscillator)
        requires
            period > 0,
        ensures
            r.wf(),
            Self::cleared(r.state()) == r.state(),
            r.state() == Self::spec_new(period as nat),
    {
        ChandeMomentumOscillator {
            buffer: CircularBuffer::new(period),
            previous_value: None,
            sum_up: IndicatorValue::zero(),
            sum_down: IndicatorValue::zero(),
        }
    }

    /// The sums after `change` entered them.
    fn enter(up: IndicatorValue, down: IndicatorValue, change: IndicatorValue) -> (r: Option<
        (IndicatorValue, IndicatorValue),
    >)
        ensures
            r == Self::entered(up, down, change),
    {
        if change.is_positive() {
            Some((plain_sum(up, change)?, down))
        } else if change.is_negative() {
            Some((up, plain_difference(down, change)?))
        } else {
            Some((up, down))
        }
    }

    /// The sums after `removed` left them.
    fn leave(up: IndicatorValue, down: IndicatorValue, removed: Option<IndicatorValue>) -> (r: Option<
        (IndicatorValue, IndicatorValue),
    >)
        ensures
            r == Self::left(up, down, removed),
    {
        match removed {
            None => Some((up, down)),
            Some(change) => {
                if change.is_positive() {
                    Some((plain_difference(up, change)?, down))
                } else if change.is_negative() {
                    Some((up, plain_sum(down, change)?))
                } else {
                    Some((up, down))
                }
            },
        }
    }

    /// The change, the new sums and the output for `input`, where the step is defined.
    fn plan(&self, input: IndicatorValue) -> (r: Option<
        (IndicatorValue, IndicatorValue, IndicatorValue, Option<IndicatorValue>),
    >)
        requires
            self.wf(),
        ensures
            match Self::step(self.state(), input) {
                Some((s, out)) => r == Some((s.window[0], s.sum_up, s.sum_down, out)),
                None => r.is_none(),
            },
    {
        proof {
            self.buffer.lemma_len();
        }
        let change = match self.previous_value {
            Some(previous) => plain_difference(input, previous)?,
            None => IndicatorValue::zero(),
        };
        let (up, down) = Self::enter(self.sum_up, self.sum_down, change)?;
        let (up, down) = Self::leave(up, down, self.buffer.next_evicted())?;
        if self.buffer.len() >= self.buffer.capacity() - 1 {
            let total = plain_sum(up, down)?;
            if total.is_zero() {
                Some((change, up, down, Some(IndicatorValue::zero())))
            } else {
                let spread = plain_difference(up, down)?;
                let scaled = plain_product(spread, IndicatorValue::from_u64(100))?;
                Some((change, up, down, Some(plain_quotient(scaled, total)?)))
            }
        } else {
            Some((change, up, down, None))
        }
    }
}

impl Default for ChandeMomentumOscillator {
    fn default() -> (r: ChandeMomentumOscillator)
        ensures
            r.wf(),
            r.state() == ChandeMomentumOscillator::spec_new(14),
    {
        ChandeMomentumOscillator::new(14)
    }
}

impl Indicator for ChandeMomentumOscillator {
    type Input = IndicatorValue;

    type Output = Option<IndicatorValue>;

    type State = ChandeMomentumOscillatorState;

    closed spec fn wf(&self) -> bool {
        self.buffer.wf()
    }

    closed spec fn state(&self) -> ChandeMomentumOscillatorState {
        ChandeMomentumOscillatorState {
            window: self.buffer@,
            capacity: self.buffer.spec_capacity(),
            previous: self.previous_value,
            sum_up: self.sum_up,
            sum_down: self.sum_down,
        }
    }

    open spec fn step(s: ChandeMomentumOscillatorState, input: IndicatorValue) -> Option<
        (ChandeMomentumOscillatorState, Option<IndicatorValue>),
    > {
        let change = match s.previous {
            Some(previous) => IndicatorValue::spec_difference(input, previous),
            None => Some(whole(0)),
        };
        match change {
            None => None,
            Some(change) => match Self::entered(s.sum_up, s.sum_down, change) {
                None => None,
                Some((up, down)) => match Self::left(up, down, CircularBuffer::evicted(s.window, s.capacity)) {
                    None => None,
                    Some((sum_up, sum_down)) => {
                        let window = CircularBuffer::pushed(s.window, s.capacity, change);
                        let next = ChandeMomentumOscillatorState {
                            window,
                            previous: Some(input),
                            sum_up,
                            sum_down,
                            ..s
                        };
                        if window.len() >= s.capacity {
                            match Self::balance(sum_up, sum_down) {
                                None => None,
                                Some(cmo) => Some((next, Some(cmo))),
                            }
                        } else {
                            Some((next, None))
                        }
                    },
                },
            },
        }
    }

    open spec fn cleared(s: ChandeMomentumOscillatorState) -> ChandeMomentumOscillatorState {
        Self::spec_new(s.capacity)
    }

    open spec fn idle(s: ChandeMomentumOscillatorState) -> Option<IndicatorValue> {
        None
    }

    open spec fn ready(s: ChandeMomentumOscillatorState) -> bool {
        s.window.len() >= s.capacity
    }

    open spec fn available(out: Option<IndicatorValue>) -> bool {
        out.is_some()
    }

    open spec fn prompt() -> bool {
        true
    }

    proof fn lemma_warm_up(s: ChandeMomentumOscillatorState, input: IndicatorValue) {
    }

    proof fn lemma_step_keeps_cleared(s: ChandeMomentumOscillatorState, input: IndicatorValue) {
    }

    proof fn lemma_cleared_twice(s: ChandeMomentumOscillatorState) {
    }

    fn peek(&self, input: IndicatorValue) -> (r: Option<Option<IndicatorValue>>) {
        match self.plan(input) {
            Some((_, _, _, out)) => Some(out),
            None => None,
        }
    }

    fn next(&mut self, input: IndicatorValue) -> (out: Option<IndicatorValue>) {
        let (change, up, down, out) = self.plan(input).unwrap();
        self.buffer.push(change);
        self.previous_value = Some(input);
        self.sum_up = up;
        self.sum_down = down;
        out
    }

    fn reset(&mut self) {
        self.buffer.clear();
        self.previous_value = None;
        self.sum_up = IndicatorValue::zero();
        self.sum_down = IndicatorValue::zero();
    }

    fn duplicate(&self) -> (r: ChandeMomentumOscillator) {
        ChandeMomentumOscillator {
            buffer: self.buffer.duplicate(),
            previous_value: self.previous_value,
            sum_up: self.sum_up,
            sum_down: self.sum_down,
        }
    }

    fn idle_output(&self) -> (out: Option<IndicatorValue>) {
        None
    }
}

} // verus!
