//! The highest and the lowest of the last observations.

use vstd::prelude::*;
use crate::circular_buffer::CircularBuffer;
use crate::indicator_value::IndicatorValue;
use crate::indicators::window::{followed_from, holds_extreme, lemma_followed_from_is_extreme, track_from};
use crate::indicators::Indicator;

verus! {

/// The largest value of a window and its offset, 0 for the newest.
#[derive(Debug, Clone, Copy, PartialEq)]
pub struct HighOutput {
    pub high_value: IndicatorValue,
    pub high_index: usize,
}

/// The smallest value of a window and its offset, 0 for the newest.
#[derive(Debug, Clone, Copy, PartialEq)]
pub struct LowOutput {
    pub low_value: IndicatorValue,
    pub low_index: usize,
}

/// The largest and the smallest value of a window and their offsets.
#[derive(Debug, Clone, Copy, PartialEq)]
pub struct HighLowOutput {
    pub high_value: IndicatorValue,
    pub high_index: usize,
    pub low_value: IndicatorValue,
    pub low_index: usize,
}

/// The model of a [`High`] or a [`Low`].
pub struct ExtremeState {
    /// The observations kept, newest first.
    pub window: Seq<IndicatorValue>,
    /// The period.
    pub capacity: nat,
    /// The extreme of the window and its offset, if the window is not empty.
    pub best: Option<(IndicatorValue, nat)>,
}

/// The model of a [`HighLow`].
pub struct HighLowState {
    /// The observations kept, newest first.
    pub window: Seq<IndicatorValue>,
    /// The period.
    pub capacity: nat,
    /// The largest value of the window and its offset, if the window is not empty.
    pub high: Option<(IndicatorValue, nat)>,
    /// The smallest value of the window and its offset, if the window is not empty.
    pub low: Option<(IndicatorValue, nat)>,
}

/// The state of a new [`High`] or [`Low`].
pub open spec fn new_extreme(period: nat) -> ExtremeState {
    ExtremeState { window: Seq::empty(), capacity: period, best: None }
}

/// The window and the extreme after `input`.
pub open spec fn extreme_step(s: ExtremeState, input: IndicatorValue, largest: bool) -> ExtremeState {
    let window = CircularBuffer::pushed(s.window, s.capacity, input);
    ExtremeState { window, best: Some(followed_from(window, s.capacity, s.best, input, largest)), ..s }
}

/// What holds of every state that a [`High`] (`largest`) or a [`Low`] reaches:
/// the extreme it keeps is the extreme of its window.
pub open spec fn extreme_kept(s: ExtremeState, largest: bool) -> bool {
    &&& 0 < s.capacity
    &&& s.window.len() <= s.capacity
    &&& holds_extreme(s.window, s.best, largest)
}

/// Every step keeps the extreme.
pub proof fn lemma_extreme_step(s: ExtremeState, input: IndicatorValue, largest: bool)
    requires
        extreme_kept(s, largest),
    ensures
        extreme_kept(extreme_step(s, input, largest), largest),
{
    lemma_followed_from_is_extreme(s.window, s.capacity, s.best, input, largest);
}

/// The offset as it is stored, a model of it.
pub open spec fn stored(best: Option<(IndicatorValue, usize)>) -> Option<(IndicatorValue, nat)> {
    match best {
        Some((value, offset)) => Some((value, offset as nat)),
        None => None,
    }
}

/// The largest of the last `period` observations and where it is.
///
/// The largest value is kept with its offset. A new observation takes its
/// place if it is larger; else the offset grows by one, and when the value
/// has left the window, the window is searched.
#[derive(Debug)]
pub struct High {
    buffer: CircularBuffer,
    current: Option<(IndicatorValue, usize)>,
}

impl High {
    /// A new indicator over `period` observations.
    pub fn new(period: usize) -> (r: High)
        requires
            period > 0,
        ensures
            r.wf(),
            Self::cleared(r.state()) == r.state(),
            r.state() == new_extreme(period as nat),
    {
        High { buffer: CircularBuffer::new(period), current: None }
    }

    /// What is reported is the largest value of the window, and its offset.
    pub proof fn lemma_reports_largest(&self)
        requires
            self.wf(),
        ensures
            extreme_kept(self.state(), true),
    {
        self.buffer.lemma_len();
    }
}

impl Indicator for High {
    type Input = IndicatorValue;

    type Output = Option<HighOutput>;

    type State = ExtremeState;

    closed spec fn wf(&self) -> bool {
        &&& self.buffer.wf()
        &&& self.current.is_some() ==> self.current.unwrap().1 < self.buffer.spec_capacity()
        &&& holds_extreme(self.buffer@, stored(self.current), true)
    }

    closed spec fn state(&self) -> ExtremeState {
        ExtremeState { window: self.buffer@, capacity: self.buffer.spec_capacity(), best: stored(self.current) }
    }

    open spec fn step(s: ExtremeState, input: IndicatorValue) -> Option<(ExtremeState, Option<HighOutput>)> {
        let next = extreme_step(s, input, true);
        Some(
            (
                next,
                if next.window.len() >= s.capacity {
                    Some(HighOutput { high_value: next.best.unwrap().0, high_index: next.best.unwrap().1 as usize })
                } else {
                    None
                },
            ),
        )
    }

    open spec fn cleared(s: ExtremeState) -> ExtremeState {
        new_extreme(s.capacity)
    }

    open spec fn idle(s: ExtremeState) -> Option<HighOutput> {
        None
    }

    open spec fn ready(s: ExtremeState) -> bool {
        s.window.len() >= s.capacity
    }

    open spec fn available(out: Option<HighOutput>) -> bool {
        out.is_some()
    }

    open spec fn prompt() -> bool {
        true
    }

    proof fn lemma_warm_up(s: ExtremeState, input: IndicatorValue) {
    }

    proof fn lemma_step_keeps_cleared(s: ExtremeState, input: IndicatorValue) {
    }

    proof fn lemma_cleared_twice(s: ExtremeState) {
    }

    fn peek(&self, input: IndicatorValue) -> (r: Option<Option<HighOutput>>) {
        proof {
            self.buffer.lemma_len();
        }
        let (high_value, high_index) = track_from(&self.buffer, self.current, input, true);
        if self.buffer.len() >= self.buffer.capacity() - 1 {
            Some(Some(HighOutput { high_value, high_index }))
        } else {
            Some(None)
        }
    }

    fn next(&mut self, input: IndicatorValue) -> (out: Option<HighOutput>) {
        proof {
            self.buffer.lemma_len();
            lemma_followed_from_is_extreme(
                self.buffer@,
                self.buffer.spec_capacity(),
                stored(self.current),
                input,
                true,
            );
        }
        let (high_value, high_index) = track_from(&self.buffer, self.current, input, true);
        self.buffer.push(input);
        self.current = Some((high_value, high_index));
        if self.buffer.is_full() {
            Some(HighOutput { high_value, high_index })
        } else {
            None
        }
    }

    fn reset(&mut self) {
        self.buffer.clear();
        self.current = None;
    }

    fn duplicate(&self) -> (r: High) {
        High { buffer: self.buffer.duplicate(), current: self.current }
    }

    fn idle_output(&self) -> (out: Option<HighOutput>) {
        None
    }
}

/// The smallest of the last `period` observations and where it is.
///
/// The smallest value is kept with its offset. A new observation takes its
/// place if it is smaller; else the offset grows by one, and when the value
/// has left the window, the window is searched.
#[derive(Debug)]
pub struct Low {
    buffer: CircularBuffer,
    current: Option<(IndicatorValue, usize)>,
}

impl Low {
    /// A new indicator over `period` observations.
    pub fn new(period: usize) -> (r: Low)
        requires
            period > 0,
        ensures
            r.wf(),
            Self::cleared(r.state()) == r.state(),
            r.state() == new_extreme(period as nat),
    {
        Low { buffer: CircularBuffer::new(period), current: None }
    }

    /// What is reported is the smallest value of the window, and its offset.
    pub proof fn lemma_reports_smallest(&self)
        requires
            self.wf(),
        ensures
            extreme_kept(self.state(), false),
    {
        self.buffer.lemma_len();
    }
}

impl Indicator for Low {
    type Input = IndicatorValue;

    type Output = Option<LowOutput>;

    type State = ExtremeState;

    closed spec fn wf(&self) -> bool {
        &&& self.buffer.wf()
        &&& self.current.is_some() ==> self.current.unwrap().1 < self.buffer.spec_capacity()
        &&& holds_extreme(self.buffer@, stored(self.current), false)
    }

    closed spec fn state(&self) -> ExtremeState {
        ExtremeState { window: self.buffer@, capacity: self.buffer.spec_capacity(), best: stored(self.current) }
    }

    open spec fn step(s: ExtremeState, input: IndicatorValue) -> Option<(ExtremeState, Option<LowOutput>)> {
        let next = extreme_step(s, input, false);
        Some(
            (
                next,
                if next.window.len() >= s.capacity {
                    Some(LowOutput { low_value: next.best.unwrap().0, low_index: next.best.unwrap().1 as usize })
                } else {
                    None
                },
            ),
        )
    }

    open spec fn cleared(s: ExtremeState) -> ExtremeState {
        new_extreme(s.capacity)
    }

    open spec fn idle(s: ExtremeState) -> Option<LowOutput> {
        None
    }

    open spec fn ready(s: ExtremeState) -> bool {
        s.window.len() >= s.capacity
    }

    open spec fn available(out: Option<LowOutput>) -> bool {
        out.is_some()
    }

    open spec fn prompt() -> bool {
        true
    }

    proof fn lemma_warm_up(s: ExtremeState, input: IndicatorValue) {
    }

    proof fn lemma_step_keeps_cleared(s: ExtremeState, input: IndicatorValue) {
    }

    proof fn lemma_cleared_twice(s: ExtremeState) {
    }

    fn peek(&self, input: IndicatorValue) -> (r: Option<Option<LowOutput>>) {
        proof {
            self.buffer.lemma_len();
        }
        let (low_value, low_index) = track_from(&self.buffer, self.current, input, false);
        if self.buffer.len() >= self.buffer.capacity() - 1 {
            Some(Some(LowOutput { low_value, low_index }))
        } else {
            Some(None)
        }
    }

    fn next(&mut self, input: IndicatorValue) -> (out: Option<LowOutput>) {
        proof {
            self.buffer.lemma_len();
            lemma_followed_from_is_extreme(
                self.buffer@,
                self.buffer.spec_capacity(),
                stored(self.current),
                input,
                false,
            );
        }
        let (low_value, low_index) = track_from(&self.buffer, self.current, input, false);
        self.buffer.push(input);
        self.current = Some((low_value, low_index));
        if self.buffer.is_full() {
            Some(LowOutput { low_value, low_index })
        } else {
            None
        }
    }

    fn reset(&mut self) {
        self.buffer.clear();
        self.current = None;
    }

    fn duplicate(&self) -> (r: Low) {
        Low { buffer: self.buffer.duplicate(), current: self.current }
    }

    fn idle_output(&self) -> (out: Option<LowOutput>) {
        None
    }
}

/// The largest and the smallest of the last `period` observations and where
/// they are, over one window.
#[derive(Debug)]
pub struct HighLow {
    buffer: CircularBuffer,
    current_high: Option<(IndicatorValue, usize)>,
    current_low: Option<(IndicatorValue, usize)>,
}

impl HighLow {
    /// The state of a new indicator.
    pub open spec fn spec_new(period: nat) -> HighLowState {
        HighLowState { window: Seq::empty(), capacity: period, high: None, low: None }
    }

    /// What holds of every state that is reached: the extremes kept are those of the window.
    pub open spec fn extremes_kept(s: HighLowState) -> bool {
        &&& 0 < s.capacity
        &&& s.window.len() <= s.capacity
        &&& holds_extreme(s.window, s.high, true)
        &&& holds_extreme(s.window, s.low, false)
    }

    /// A new indicator over `period` observations.
    pub fn new(period: usize) -> (r: HighLow)
        requires
            period > 0,
        ensures
            r.wf(),
            Self::cleared(r.state()) == r.state(),
            r.state() == Self::spec_new(period as nat),
    {
        HighLow { buffer: CircularBuffer::new(period), current_high: None, current_low: None }
    }

    /// Whether the window is full.
    pub fn buffer_is_full(&self) -> (r: bool)
        requires
            self.wf(),
        ensures
            r == (self.state().window.len() == self.state().capacity),
    {
        self.buffer.is_full()
    }

    /// What is reported are the largest and the smallest value of the window,
    /// and their offsets.
    pub proof fn lemma_reports_extremes(&self)
        requires
            self.wf(),
        ensures
            Self::extremes_kept(self.state()),
    {
        self.buffer.lemma_len();
    }
}

impl Indicator for HighLow {
    type Input = IndicatorValue;

    type Output = Option<HighLowOutput>;

    type State = HighLowState;

    closed spec fn wf(&self) -> bool {
        &&& self.buffer.wf()
        &&& self.current_high.is_some() ==> self.current_high.unwrap().1 < self.buffer.spec_capacity()
        &&& self.current_low.is_some() ==> self.current_low.unwrap().1 < self.buffer.spec_capacity()
        &&& holds_extreme(self.buffer@, stored(self.current_high), true)
        &&& holds_extreme(self.buffer@, stored(self.current_low), false)
    }

    closed spec fn state(&self) -> HighLowState {
        HighLowState {
            window: self.buffer@,
            capacity: self.buffer.spec_capacity(),
            high: stored(self.current_high),
            low: stored(self.current_low),
        }
    }

    open spec fn step(s: HighLowState, input: IndicatorValue) -> Option<(HighLowState, Option<HighLowOutput>)> {
        let window = CircularBuffer::pushed(s.window, s.capacity, input);
        let high = followed_from(window, s.capacity, s.high, input, true);
        let low = followed_from(window, s.capacity, s.low, input, false);
        Some(
            (
                HighLowState { window, high: Some(high), low: Some(low), ..s },
                if window.len() >= s.capacity {
                    Some(
                        HighLowOutput {
                            high_value: high.0,
                            high_index: high.1 as usize,
                            low_value: low.0,
                            low_index: low.1 as usize,
                        },
                    )
                } else {
                    None
                },
            ),
        )
    }

    open spec fn cleared(s: HighLowState) -> HighLowState {
        Self::spec_new(s.capacity)
    }

    open spec fn idle(s: HighLowState) -> Option<HighLowOutput> {
        None
    }

    open spec fn ready(s: HighLowState) -> bool {
        s.window.len() >= s.capacity
    }

    open spec fn available(out: Option<HighLowOutput>) -> bool {
        out.is_some()
    }

    open spec fn prompt() -> bool {
        true
    }

    proof fn lemma_warm_up(s: HighLowState, input: IndicatorValue) {
    }

    proof fn lemma_step_keeps_cleared(s: HighLowState, input: IndicatorValue) {
    }

    proof fn lemma_cleared_twice(s: HighLowState) {
    }

    fn peek(&self, input: IndicatorValue) -> (r: Option<Option<HighLowOutput>>) {
        proof {
            self.buffer.lemma_len();
        }
        let (high_value, high_index) = track_from(&self.buffer, self.current_high, input, true);
        let (low_value, low_index) = track_from(&self.buffer, self.current_low, input, false);
        if self.buffer.len() >= self.buffer.capacity() - 1 {
            Some(Some(HighLowOutput { high_value, high_index, low_value, low_index }))
        } else {
            Some(None)
        }
    }

    fn next(&mut self, input: IndicatorValue) -> (out: Option<HighLowOutput>) {
        proof {
            self.buffer.lemma_len();
            lemma_followed_from_is_extreme(
                self.buffer@,
                self.buffer.spec_capacity(),
                stored(self.current_high),
                input,
                true,
            );
            lemma_followed_from_is_extreme(
                self.buffer@,
                self.buffer.spec_capacity(),
                stored(self.current_low),
                input,
                false,
            );
        }
        let (high_value, high_index) = track_from(&self.buffer, self.current_high, input, true);
        let (low_value, low_index) = track_from(&self.buffer, self.current_low, input, false);
        self.buffer.push(input);
        self.current_high = Some((high_value, high_index));
        self.current_low = Some((low_value, low_index));
        if self.buffer.is_full() {
            Some(HighLowOutput { high_value, high_index, low_value, low_index })
        } else {
            None
        }
    }

    fn reset(&mut self) {
        self.buffer.clear();
        self.current_high = None;
        self.current_low = None;
    }

    fn duplicate(&self) -> (r: HighLow) {
        HighLow {
            buffer: self.buffer.duplicate(),
            current_high: self.current_high,
            current_low: self.current_low,
        }
    }

    fn idle_output(&self) -> (out: Option<HighLowOutput>) {
        None
    }
}

} // verus!
