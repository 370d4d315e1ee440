//! Aroon.

use vstd::prelude::*;
use crate::circular_buffer::CircularBuffer;
use crate::indicator_value::{plain_product, plain_quotient, product_of, whole, IndicatorValue, MAX_MANTISSA};
use crate::indicators::window::{followed, follows, is_extreme, lemma_follows_step, track};
use crate::indicators::Indicator;

verus! {

/// How recent the highest high and the lowest low of a window are, in percent.
#[derive(Debug, Clone, Copy, PartialEq)]
pub struct AroonOutput {
    pub aroon_up: IndicatorValue,
    pub aroon_down: IndicatorValue,
}

/// How long ago the highest high and the lowest low of the last `period`
/// observations were: `(period - offset) / period * 100` for each.
///
/// Each extreme is kept with its offset. A new value takes its place if it is
/// as extreme or more; else the offset grows by one, and when the extreme has
/// left the window, the window is searched.
pub struct Aroon {
    high_buffer: CircularBuffer,
    low_buffer: CircularBuffer,
    highest: (IndicatorValue, usize),
    lowest: (IndicatorValue, usize),
}

/// The model of an [`Aroon`].
pub struct AroonState {
    /// The highs kept, newest first.
    pub highs: Seq<IndicatorValue>,
    /// The lows kept, newest first.
    pub lows: Seq<IndicatorValue>,
    /// The period.
    pub capacity: nat,
    /// The highest high that is followed, and its offset.
    pub highest: (IndicatorValue, nat),
    /// The lowest low that is followed, and its offset.
    pub lowest: (IndicatorValue, nat),
}

impl Aroon {
    /// The state of a new indicator: the highest high starts at zero, the
    /// lowest low at the largest value there is.
    pub open spec fn spec_new(period: nat) -> AroonState {
        AroonState {
            highs: Seq::empty(),
            lows: Seq::empty(),
            capacity: period,
            highest: (whole(0), 0),
            lowest: (whole(MAX_MANTISSA as int), 0),
        }
    }

    /// What holds of every state that is reached: each extreme that is
    /// followed is the extreme of its window, or the starting value still.
    pub open spec fn extremes_followed(s: AroonState) -> bool {
        &&& 0 < s.capacity
        &&& s.highs.len() == s.lows.len()
        &&& s.highs.len() <= s.capacity
        &&& follows(s.highs, s.capacity, s.highest.0, s.highest.1, true)
        &&& follows(s.lows, s.capacity, s.lowest.0, s.lowest.1, false)
    }

    /// Every step keeps the extremes followed.
    pub proof fn lemma_step_follows(s: AroonState, input: (IndicatorValue, IndicatorValue))
        requires
            Self::extremes_followed(s),
            Self::step(s, input).is_some(),
        ensures
            Self::extremes_followed(Self::step(s, input).unwrap().0),
    {
        lemma_follows_step(s.highs, s.capacity, s.highest.0, s.highest.1, input.0, true, true);
        lemma_follows_step(s.lows, s.capacity, s.lowest.0, s.lowest.1, input.1, false, false);
    }

    /// Once the window is full, what is followed are the highest high and
    /// the lowest low of the window, each with its offset: these are what
    /// the output counts back to.
    pub proof fn lemma_reports_extremes(&self)
        requires
            self.wf(),
        ensures
            Self::extremes_followed(self.state()),
            self.state().highs.len() == self.state().capacity ==> {
                &&& is_extreme(self.state().highs, self.state().highest.0, self.state().highest.1, true)
                &&& is_extreme(self.state().lows, self.state().lowest.0, self.state().lowest.1, false)
            },
    {
        self.high_buffer.lemma_len();
        self.low_buffer.lemma_len();
    }

    /// `(period - offset) / period * 100`.
    pub open spec fn recency(period: nat, offset: nat) -> Option<IndicatorValue> {
        product_of(
            IndicatorValue::spec_quotient(whole(period - offset), whole(period as int)),
            Some(whole(100)),
        )
    }

    /// A new indicator over `period` observations.
    pub fn new(period: usize) -> (r: Aroon)
        requires
            period > 0,
        ensures
            r.wf(),
            Self::cleared(r.state()) == r.state(),
            r.state() == Self::spec_new(period as nat),
    {
        Aroon {
            high_buffer: CircularBuffer::new(period),
            low_buffer: CircularBuffer::new(period),
            highest: (IndicatorValue::zero(), 0),
            lowest: (IndicatorValue::max(), 0),
        }
    }

    /// `(period - offset) / period * 100`.
    fn recent(period: usize, offset: usize) -> (r: Option<IndicatorValue>)
        requires
            offset < period,
        ensures
            r == Self::recency(period as nat, offset as nat),
    {
        let share = plain_quotient(IndicatorValue::from_usize(period - offset), IndicatorValue::from_usize(period))?;
        plain_product(share, IndicatorValue::from_u64(100))
    }

    /// The extremes that are followed after `input`, and the output, where
    /// the step is defined.
    fn plan(&self, input: (IndicatorValue, IndicatorValue)) -> (r: Option<
        ((IndicatorValue, usize), (IndicatorValue, usize), Option<AroonOutput>),
    >)
        requires
            self.wf(),
        ensures
            match Self::step(self.state(), input) {
                Some((s, out)) => r.is_some() && (r.unwrap().0.0, r.unwrap().0.1 as nat) == s.highest && (
                    r.unwrap().1.0,
                    r.unwrap().1.1 as nat,
                ) == s.lowest && r.unwrap().2 == out,
                None => r.is_none(),
            },
            r.is_some() ==> r.unwrap().0.1 < self.high_buffer.spec_capacity() && r.unwrap().1.1
                < self.high_buffer.spec_capacity(),
    {
        proof {
            self.high_buffer.lemma_len();
            self.low_buffer.lemma_len();
        }
        let highest = track(&self.high_buffer, self.highest.0, self.highest.1, input.0, true, true, true);
        let lowest = track(&self.low_buffer, self.lowest.0, self.lowest.1, input.1, false, true, false);
        let period = self.high_buffer.capacity();
        if self.high_buffer.len() >= period - 1 {
            let aroon_up = Self::recent(period, highest.1)?;
            let aroon_down = Self::recent(period, lowest.1)?;
            Some((highest, lowest, Some(AroonOutput { aroon_up, aroon_down })))
        } else {
            Some((highest, lowest, None))
        }
    }
}

impl Default for Aroon {
    fn default() -> (r: Aroon)
        ensures
            r.wf(),
            r.state() == Aroon::spec_new(14),
    {
        Aroon::new(14)
    }
}

impl Indicator for Aroon {
    /// The high and the low.
    type Input = (IndicatorValue, IndicatorValue);

    type Output = Option<AroonOutput>;

    type State = AroonState;

    closed spec fn wf(&self) -> bool {
        &&& self.high_buffer.wf()
        &&& self.low_buffer.wf()
        &&& self.high_buffer.spec_capacity() == self.low_buffer.spec_capacity()
        &&& self.high_buffer@.len() == self.low_buffer@.len()
        &&& self.highest.1 < self.high_buffer.spec_capacity()
        &&& self.lowest.1 < self.high_buffer.spec_capacity()
        &&& follows(self.high_buffer@, self.high_buffer.spec_capacity(), self.highest.0, self.highest.1 as nat, true)
        &&& follows(self.low_buffer@, self.low_buffer.spec_capacity(), self.lowest.0, self.lowest.1 as nat, false)
    }

    closed spec fn state(&self) -> AroonState {
        AroonState {
            highs: self.high_buffer@,
            lows: self.low_buffer@,
            capacity: self.high_buffer.spec_capacity(),
            highest: (self.highest.0, self.highest.1 as nat),
            lowest: (self.lowest.0, self.lowest.1 as nat),
        }
    }

    open spec fn step(s: AroonState, input: (IndicatorValue, IndicatorValue)) -> Option<
        (AroonState, Option<AroonOutput>),
    > {
        let highs = CircularBuffer::pushed(s.highs, s.capacity, input.0);
        let lows = CircularBuffer::pushed(s.lows, s.capacity, input.1);
        let highest = followed(highs, s.capacity, s.highest.0, s.highest.1, input.0, true, true, true);
        let lowest = followed(lows, s.capacity, s.lowest.0, s.lowest.1, input.1, false, true, false);
        let next = AroonState { highs, lows, highest, lowest, ..s };
        if highs.len() >= s.capacity {
            match (Self::recency(s.capacity, highest.1), Self::recency(s.capacity, lowest.1)) {
                (Some(aroon_up), Some(aroon_down)) => Some((next, Some(AroonOutput { aroon_up, aroon_down }))),
                _ => None,
            }
        } else {
            Some((next, None))
        }
    }

    open spec fn cleared(s: AroonState) -> AroonState {
        Self::spec_new(s.capacity)
    }

    open spec fn idle(s: AroonState) -> Option<AroonOutput> {
        None
    }

    open spec fn ready(s: AroonState) -> bool {
        s.highs.len() >= s.capacity
    }

    open spec fn available(out: Option<AroonOutput>) -> bool {
        out.is_some()
    }

    open spec fn prompt() -> bool {
        true
    }

    proof fn lemma_warm_up(s: AroonState, input: (IndicatorValue, IndicatorValue)) {
    }

    proof fn lemma_step_keeps_cleared(s: AroonState, input: (IndicatorValue, IndicatorValue)) {
    }

    proof fn lemma_cleared_twice(s: AroonState) {
    }

    fn peek(&self, input: (IndicatorValue, IndicatorValue)) -> (r: Option<Option<AroonOutput>>) {
        match self.plan(input) {
            Some((_, _, out)) => Some(out),
            None => None,
        }
    }

    fn next(&mut self, input: (IndicatorValue, IndicatorValue)) -> (out: Option<AroonOutput>) {
        let (highest, lowest, out) = self.plan(input).unwrap();
        proof {
            self.high_buffer.lemma_len();
            self.low_buffer.lemma_len();
            Self::lemma_step_follows(self.state(), input);
        }
        self.high_buffer.push(input.0);
        self.low_buffer.push(input.1);
        self.highest = highest;
        self.lowest = lowest;
        out
    }

    fn reset(&mut self) {
        self.high_buffer.clear();
        self.low_buffer.clear();
        self.highest = (IndicatorValue::zero(), 0);
        self.lowest = (IndicatorValue::max(), 0);
    }

    fn duplicate(&self) -> (r: Aroon) {
        Aroon {
            high_buffer: self.high_buffer.duplicate(),
            low_buffer: self.low_buffer.duplicate(),
            highest: self.highest,
            lowest: self.lowest,
        }
    }

    fn idle_output(&self) -> (out: Option<AroonOutput>) {
        None
    }
}

} // verus!
