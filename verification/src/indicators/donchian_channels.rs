//! Donchian channels.

use vstd::prelude::*;
use crate::circular_buffer::CircularBuffer;
use crate::indicator_value::{plain_quotient, plain_sum, quotient_of, whole, IndicatorValue, MAX_MANTISSA};
use crate::indicators::window::{bounds, extreme_offset, find_extreme_after, lemma_extreme_offset};
use crate::value_laws::{lemma_largest_is_unique, lemma_lt_asymmetric, lemma_lt_cotransitive, lemma_range};
use crate::indicators::Indicator;

verus! {

/// The highest high, the lowest low and their midpoint.
#[derive(Debug, Clone, Copy, PartialEq)]
pub struct DonchianChannelsOutput {
    pub upper_band: IndicatorValue,
    pub lower_band: IndicatorValue,
    pub middle_band: IndicatorValue,
}

/// The highest high and the lowest low of the last `period` observations, and
/// the midpoint between them.
///
/// Both extremes are kept up to date: when the value that leaves the window
/// equals the extreme, the window is searched, else the new value is compared
/// with the extreme.
pub struct DonchianChannels {
    high_buffer: CircularBuffer,
    low_buffer: CircularBuffer,
    current_max: IndicatorValue,
    current_min: IndicatorValue,
}

/// The model of a [`DonchianChannels`].
pub struct DonchianChannelsState {
    /// The highs kept, newest first.
    pub highs: Seq<IndicatorValue>,
    /// The lows kept, newest first.
    pub lows: Seq<IndicatorValue>,
    /// The period.
    pub capacity: nat,
    /// The highest high, the smallest value there is while there is none.
    pub max: IndicatorValue,
    /// The lowest low, the largest value there is while there is none.
    pub min: IndicatorValue,
}

impl DonchianChannels {
    /// The state of a new indicator.
    pub open spec fn spec_new(period: nat) -> DonchianChannelsState {
        DonchianChannelsState {
            highs: Seq::empty(),
            lows: Seq::empty(),
            capacity: period,
            max: whole(-MAX_MANTISSA),
            min: whole(MAX_MANTISSA as int),
        }
    }

    /// The extreme after `input` was pushed and gave the window `window`,
    /// `leaving` being the value that left.
    pub open spec fn renewed(
        window: Seq<IndicatorValue>,
        extreme: IndicatorValue,
        leaving: Option<IndicatorValue>,
        input: IndicatorValue,
        largest: bool,
    ) -> IndicatorValue {
        if leaving.is_some() && extreme.spec_eq(leaving.unwrap()) {
            window[extreme_offset(window, window.len(), largest, largest) as int]
        } else if largest {
            extreme.spec_greater_of(input)
        } else {
            extreme.spec_lesser_of(input)
        }
    }

    /// The value that an extreme starts from: the smallest value there is
    /// for the highest high, the largest for the lowest low.
    pub open spec fn start(largest: bool) -> IndicatorValue {
        if largest { whole(-MAX_MANTISSA) } else { whole(MAX_MANTISSA as int) }
    }

    /// Whether `extreme` is the extreme of `window`: a value of the window
    /// that none is beyond, or the starting value while the window is empty.
    pub open spec fn is_band(window: Seq<IndicatorValue>, extreme: IndicatorValue, largest: bool) -> bool {
        if window.len() == 0 {
            extreme == Self::start(largest)
        } else {
            &&& exists|i: int| 0 <= i < window.len() && #[trigger] window[i] == extreme
            &&& bounds(window, window.len(), extreme, largest)
        }
    }

    /// What holds of every state that is reached: the bands kept are the
    /// highest high and the lowest low of the windows.
    pub open spec fn bands_kept(s: DonchianChannelsState) -> bool {
        &&& 0 < s.capacity
        &&& s.highs.len() == s.lows.len()
        &&& s.highs.len() <= s.capacity
        &&& Self::is_band(s.highs, s.max, true)
        &&& Self::is_band(s.lows, s.min, false)
    }

    /// Renewing keeps the band: where `extreme` was the extreme of the window
    /// before, what is renewed is the extreme of the window after the push.
    pub proof fn lemma_renewed_is_band(
        before: Seq<IndicatorValue>,
        capacity: nat,
        extreme: IndicatorValue,
        input: IndicatorValue,
        largest: bool,
    )
        requires
            0 < capacity,
            before.len() <= capacity,
            Self::is_band(before, extreme, largest),
            IndicatorValue::in_range(input@.0, input@.1),
        ensures
            Self::is_band(
                CircularBuffer::pushed(before, capacity, input),
                Self::renewed(
                    CircularBuffer::pushed(before, capacity, input),
                    extreme,
                    CircularBuffer::evicted(before, capacity),
                    input,
                    largest,
                ),
                largest,
            ),
    {
        let window = CircularBuffer::pushed(before, capacity, input);
        let leaving = CircularBuffer::evicted(before, capacity);
        let next = Self::renewed(window, extreme, leaving, input, largest);
        assert(window[0] == input);
        assert forall|i: int| 1 <= i < window.len() implies window[i] == before[i - 1] by {}
        lemma_range(input);
        lemma_lt_asymmetric(input, input);
        lemma_lt_asymmetric(input, extreme);
        if before.len() == 0 {
            assert(window =~= seq![input]);
            if !largest && !input.spec_lt(extreme) {
                lemma_largest_is_unique(input);
                IndicatorValue::lemma_of_parts(MAX_MANTISSA as int, 0);
                input.lemma_view_decides(extreme);
            }
            assert(next == input);
        } else if leaving.is_some() && extreme.spec_eq(leaving.unwrap()) {
            lemma_extreme_offset(window, window.len(), largest, largest);
            let found = extreme_offset(window, window.len(), largest, largest) as int;
            assert(window[found] == next);
        } else {
            let at = choose|i: int| 0 <= i < before.len() && #[trigger] before[i] == extreme;
            let keeps = if largest { input.spec_lt(extreme) } else { !input.spec_lt(extreme) };
            if keeps {
                assert(next == extreme);
                assert(at + 1 < window.len());
                assert(window[at + 1] == extreme);
                assert forall|i: int| 0 <= i < window.len() implies if largest {
                    !next.spec_lt(#[trigger] window[i])
                } else {
                    !(#[trigger] window[i]).spec_lt(next)
                } by {
                    if i > 0 {
                        assert(window[i] == before[i - 1]);
                    }
                }
            } else {
                assert(next == input);
                assert forall|i: int| 0 <= i < window.len() implies if largest {
                    !next.spec_lt(#[trigger] window[i])
                } else {
                    !(#[trigger] window[i]).spec_lt(next)
                } by {
                    if i > 0 {
                        assert(window[i] == before[i - 1]);
                        if largest {
                            if input.spec_lt(window[i]) {
                                lemma_lt_cotransitive(input, window[i], extreme);
                            }
                        } else {
                            if window[i].spec_lt(input) {
                                lemma_lt_cotransitive(window[i], input, extreme);
                                lemma_lt_asymmetric(extreme, input);
                            }
                        }
                    }
                }
            }
        }
    }

    /// The bands reported are the highest high and the lowest low of the window.
    pub proof fn lemma_reports_extremes(&self)
        requires
            self.wf(),
        ensures
            Self::bands_kept(self.state()),
    {
        self.high_buffer.lemma_len();
        self.low_buffer.lemma_len();
    }

    /// The midpoint of two bands.
    pub open spec fn midpoint(upper: IndicatorValue, lower: IndicatorValue) -> Option<IndicatorValue> {
        quotient_of(IndicatorValue::spec_sum(upper, lower), Some(whole(2)))
    }

    /// A new indicator over `period` observations.
    pub fn new(period: usize) -> (r: DonchianChannels)
        requires
            period > 0,
        ensures
            r.wf(),
            Self::cleared(r.state()) == r.state(),
            r.state() == Self::spec_new(period as nat),
    {
        DonchianChannels {
            high_buffer: CircularBuffer::new(period),
            low_buffer: CircularBuffer::new(period),
            current_max: IndicatorValue::min(),
            current_min: IndicatorValue::max(),
        }
    }

    /// The extreme once `input` is pushed onto `buffer`.
    fn renew(buffer: &CircularBuffer, extreme: IndicatorValue, input: IndicatorValue, largest: bool) -> (r: IndicatorValue)
        requires
            buffer.wf(),
        ensures
            r == Self::renewed(
                CircularBuffer::pushed(buffer@, buffer.spec_capacity(), input),
                extreme,
                CircularBuffer::evicted(buffer@, buffer.spec_capacity()),
                input,
                largest,
            ),
    {
        let searched = match buffer.next_evicted() {
            Some(leaving) => extreme.equals(leaving),
            None => false,
        };
        if searched {
            find_extreme_after(buffer, input, largest, largest).1
        } else if largest {
            extreme.greater_of(input)
        } else {
            extreme.lesser_of(input)
        }
    }

    /// The new extremes and the output for `input`, where the step is defined.
    fn plan(&self, input: (IndicatorValue, IndicatorValue)) -> (r: Option<
        (IndicatorValue, IndicatorValue, Option<DonchianChannelsOutput>),
    >)
        requires
            self.wf(),
        ensures
            match Self::step(self.state(), input) {
                Some((s, out)) => r == Some((s.max, s.min, out)),
                None => r.is_none(),
            },
    {
        proof {
            self.high_buffer.lemma_len();
            self.low_buffer.lemma_len();
        }
        let upper_band = Self::renew(&self.high_buffer, self.current_max, input.0, true);
        let lower_band = Self::renew(&self.low_buffer, self.current_min, input.1, false);
        if self.high_buffer.len() >= self.high_buffer.capacity() - 1 {
            let middle_band = plain_quotient(plain_sum(upper_band, lower_band)?, IndicatorValue::from_u64(2))?;
            Some((upper_band, lower_band, Some(DonchianChannelsOutput { upper_band, lower_band, middle_band })))
        } else {
            Some((upper_band, lower_band, None))
        }
    }
}

impl Default for DonchianChannels {
    fn default() -> (r: DonchianChannels)
        ensures
            r.wf(),
            r.state() == DonchianChannels::spec_new(20),
    {
        DonchianChannels::new(20)
    }
}

impl Indicator for DonchianChannels {
    /// The high and the low.
    type Input = (IndicatorValue, IndicatorValue);

    type Output = Option<DonchianChannelsOutput>;

    type State = DonchianChannelsState;

    closed spec fn wf(&self) -> bool {
        &&& self.high_buffer.wf()
        &&& self.low_buffer.wf()
        &&& self.high_buffer.spec_capacity() == self.low_buffer.spec_capacity()
        &&& self.high_buffer@.len() == self.low_buffer@.len()
        &&& Self::is_band(self.high_buffer@, self.current_max, true)
        &&& Self::is_band(self.low_buffer@, self.current_min, false)
    }

    closed spec fn state(&self) -> DonchianChannelsState {
        DonchianChannelsState {
            highs: self.high_buffer@,
            lows: self.low_buffer@,
            capacity: self.high_buffer.spec_capacity(),
            max: self.current_max,
            min: self.current_min,
        }
    }

    open spec fn step(s: DonchianChannelsState, input: (IndicatorValue, IndicatorValue)) -> Option<
        (DonchianChannelsState, Option<DonchianChannelsOutput>),
    > {
        let highs = CircularBuffer::pushed(s.highs, s.capacity, input.0);
        let lows = CircularBuffer::pushed(s.lows, s.capacity, input.1);
        let max = Self::renewed(highs, s.max, CircularBuffer::evicted(s.highs, s.capacity), input.0, true);
        let min = Self::renewed(lows, s.min, CircularBuffer::evicted(s.lows, s.capacity), input.1, false);
        let next = DonchianChannelsState { highs, lows, max, min, ..s };
        if highs.len() >= s.capacity {
            match Self::midpoint(max, min) {
                Some(middle_band) => Some(
                    (next, Some(DonchianChannelsOutput { upper_band: max, lower_band: min, middle_band })),
                ),
                None => None,
            }
        } else {
            Some((next, None))
        }
    }

    open spec fn cleared(s: DonchianChannelsState) -> DonchianChannelsState {
        Self::spec_new(s.capacity)
    }

    open spec fn idle(s: DonchianChannelsState) -> Option<DonchianChannelsOutput> {
        None
    }

    open spec fn ready(s: DonchianChannelsState) -> bool {
        s.highs.len() >= s.capacity
    }

    open spec fn available(out: Option<DonchianChannelsOutput>) -> bool {
        out.is_some()
    }

    open spec fn prompt() -> bool {
        true
    }

    proof fn lemma_warm_up(s: DonchianChannelsState, input: (IndicatorValue, IndicatorValue)) {
    }

    proof fn lemma_step_keeps_cleared(s: DonchianChannelsState, input: (IndicatorValue, IndicatorValue)) {
    }

    proof fn lemma_cleared_twice(s: DonchianChannelsState) {
    }

    fn peek(&self, input: (IndicatorValue, IndicatorValue)) -> (r: Option<Option<DonchianChannelsOutput>>) {
        match self.plan(input) {
            Some((_, _, out)) => Some(out),
            None => None,
        }
    }

    fn next(&mut self, input: (IndicatorValue, IndicatorValue)) -> (out: Option<DonchianChannelsOutput>) {
        let (max, min, out) = self.plan(input).unwrap();
        proof {
            self.high_buffer.lemma_len();
            self.low_buffer.lemma_len();
            use_type_invariant(&input.0);
            use_type_invariant(&input.1);
            input.0.lemma_parts();
            input.1.lemma_parts();
            Self::lemma_renewed_is_band(
                self.high_buffer@,
                self.high_buffer.spec_capacity(),
                self.current_max,
                input.0,
                true,
            );
            Self::lemma_renewed_is_band(
                self.low_buffer@,
                self.low_buffer.spec_capacity(),
                self.current_min,
                input.1,
                false,
            );
        }
        self.high_buffer.push(input.0);
        self.low_buffer.push(input.1);
        self.current_max = max;
        self.current_min = min;
        out
    }

    fn reset(&mut self) {
        self.high_buffer.clear();
        self.low_buffer.clear();
        self.current_max = IndicatorValue::min();
        self.current_min = IndicatorValue::max();
    }

    fn duplicate(&self) -> (r: DonchianChannels) {
        DonchianChannels {
            high_buffer: self.high_buffer.duplicate(),
            low_buffer: self.low_buffer.duplicate(),
            current_max: self.current_max,
            current_min: self.current_min,
        }
    }

    fn idle_output(&self) -> (out: Option<DonchianChannelsOutput>) {
        None
    }
}

} // verus!
