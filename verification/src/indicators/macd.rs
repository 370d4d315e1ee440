//! Moving average convergence divergence.

use vstd::prelude::*;
use crate::indicator_value::{plain_difference, IndicatorValue};
use crate::indicators::ema::{ExponentialMovingAverage, ExponentialMovingAverageState};
use crate::indicators::Indicator;

verus! {

/// The difference of two averages, its own average, and the difference of those.
#[derive(Debug, Clone, Copy, PartialEq)]
pub struct MovingAverageConvergenceDivergenceOutput {
    pub macd_value: IndicatorValue,
    pub signal_value: IndicatorValue,
    pub histogram_value: IndicatorValue,
}

/// The short exponential average less the long one (the MACD), the
/// exponential average of that (the signal), and the MACD less the signal
/// (the histogram).
///
/// The signal average is fed only once both averages report; nothing is
/// reported before the signal average does.
pub struct MovingAverageConvergenceDivergence {
    short_ema: ExponentialMovingAverage,
    long_ema: ExponentialMovingAverage,
    signal_ema: ExponentialMovingAverage,
}

/// The model of a [`MovingAverageConvergenceDivergence`].
pub struct MovingAverageConvergenceDivergenceState {
    /// The short average.
    pub short_ema: ExponentialMovingAverageState,
    /// The long average.
    pub long_ema: ExponentialMovingAverageState,
    /// The average of the MACD.
    pub signal_ema: ExponentialMovingAverageState,
}

impl MovingAverageConvergenceDivergence {
    /// The state of a new indicator.
    pub open spec fn spec_new(short_period: nat, long_period: nat, signal_period: nat) -> MovingAverageConvergenceDivergenceState {
        MovingAverageConvergenceDivergenceState {
            short_ema: ExponentialMovingAverage::spec_new(short_period),
            long_ema: ExponentialMovingAverage::spec_new(long_period),
            signal_ema: ExponentialMovingAverage::spec_new(signal_period),
        }
    }

    /// The MACD for the two averages: `short - long`.
    pub open spec fn line(short: IndicatorValue, long: IndicatorValue) -> Option<IndicatorValue> {
        IndicatorValue::spec_difference(short, long)
    }

    /// The signal average and the output, after the two averages gave `short` and `long`.
    pub open spec fn signalled(
        signal_ema: ExponentialMovingAverageState,
        short: Option<IndicatorValue>,
        long: Option<IndicatorValue>,
    ) -> Option<(ExponentialMovingAverageState, Option<MovingAverageConvergenceDivergenceOutput>)> {
        match (short, long) {
            (Some(s), Some(l)) => match Self::line(s, l) {
                None => None,
                Some(macd_value) => match ExponentialMovingAverage::step(signal_ema, macd_value) {
                    None => None,
                    Some((next, None)) => Some((next, None)),
                    Some((next, Some(signal_value))) => match IndicatorValue::spec_difference(
                        macd_value,
                        signal_value,
                    ) {
                        None => None,
                        Some(histogram_value) => Some(
                            (
                                next,
                                Some(
                                    MovingAverageConvergenceDivergenceOutput {
                                        macd_value,
                                        signal_value,
                                        histogram_value,
                                    },
                                ),
                            ),
                        ),
                    },
                },
            },
            _ => Some((signal_ema, None)),
        }
    }

    /// A new indicator from averages over `short_period` and `long_period` observations and a signal average over `signal_period` values.
    pub fn new(short_period: usize, long_period: usize, signal_period: usize) -> (r: MovingAverageConvergenceDivergence)
        requires
            short_period < usize::MAX,
            long_period < usize::MAX,
            signal_period < usize::MAX,
        ensures
            r.wf(),
            Self::cleared(r.state()) == r.state(),
            r.state() == Self::spec_new(short_period as nat, long_period as nat, signal_period as nat),
    {
        MovingAverageConvergenceDivergence {
            short_ema: ExponentialMovingAverage::new(short_period),
            long_ema: ExponentialMovingAverage::new(long_period),
            signal_ema: ExponentialMovingAverage::new(signal_period),
        }
    }

    /// The MACD for the two averages.
    fn value(short: IndicatorValue, long: IndicatorValue) -> (r: Option<IndicatorValue>)
        ensures
            r == Self::line(short, long),
    {
        plain_difference(short, long)
    }
}

impl Default for MovingAverageConvergenceDivergence {
    fn default() -> (r: MovingAverageConvergenceDivergence)
        ensures
            r.wf(),
            r.state() == MovingAverageConvergenceDivergence::spec_new(12, 26, 9),
    {
        MovingAverageConvergenceDivergence::new(12, 26, 9)
    }
}

impl Indicator for MovingAverageConvergenceDivergence {
    type Input = IndicatorValue;

    type Output = Option<MovingAverageConvergenceDivergenceOutput>;

    type State = MovingAverageConvergenceDivergenceState;

    closed spec fn wf(&self) -> bool {
        &&& self.short_ema.wf()
        &&& self.long_ema.wf()
        &&& self.signal_ema.wf()
    }

    closed spec fn state(&self) -> MovingAverageConvergenceDivergenceState {
        MovingAverageConvergenceDivergenceState {
            short_ema: self.short_ema.state(),
            long_ema: self.long_ema.state(),
            signal_ema: self.signal_ema.state(),
        }
    }

    open spec fn step(s: MovingAverageConvergenceDivergenceState, input: IndicatorValue) -> Option<
        (MovingAverageConvergenceDivergenceState, Option<MovingAverageConvergenceDivergenceOutput>),
    > {
        match (ExponentialMovingAverage::step(s.short_ema, input), ExponentialMovingAverage::step(s.long_ema, input)) {
            (Some((short_ema, short)), Some((long_ema, long))) => match Self::signalled(s.signal_ema, short, long) {
                Some((signal_ema, out)) => Some(
                    (MovingAverageConvergenceDivergenceState { short_ema, long_ema, signal_ema }, out),
                ),
                None => None,
            },
            _ => None,
        }
    }

    open spec fn cleared(s: MovingAverageConvergenceDivergenceState) -> MovingAverageConvergenceDivergenceState {
        MovingAverageConvergenceDivergenceState {
            short_ema: ExponentialMovingAverage::cleared(s.short_ema),
            long_ema: ExponentialMovingAverage::cleared(s.long_ema),
            signal_ema: ExponentialMovingAverage::cleared(s.signal_ema),
        }
    }

    open spec fn idle(s: MovingAverageConvergenceDivergenceState) -> Option<MovingAverageConvergenceDivergenceOutput> {
        None
    }

    open spec fn ready(s: MovingAverageConvergenceDivergenceState) -> bool {
        ExponentialMovingAverage::ready(s.short_ema) && ExponentialMovingAverage::ready(s.long_ema)
            && ExponentialMovingAverage::ready(s.signal_ema)
    }

    open spec fn available(out: Option<MovingAverageConvergenceDivergenceOutput>) -> bool {
        out.is_some()
    }

    open spec fn prompt() -> bool {
        true
    }

    proof fn lemma_warm_up(s: MovingAverageConvergenceDivergenceState, input: IndicatorValue) {
        ExponentialMovingAverage::lemma_warm_up(s.short_ema, input);
        ExponentialMovingAverage::lemma_warm_up(s.long_ema, input);
        let short = ExponentialMovingAverage::step(s.short_ema, input).unwrap().1;
        let long = ExponentialMovingAverage::step(s.long_ema, input).unwrap().1;
        if short.is_some() && long.is_some() {
            let fed = Self::line(short.unwrap(), long.unwrap()).unwrap();
            ExponentialMovingAverage::lemma_warm_up(s.signal_ema, fed);
        }
    }

    proof fn lemma_step_keeps_cleared(s: MovingAverageConvergenceDivergenceState, input: IndicatorValue) {
        ExponentialMovingAverage::lemma_step_keeps_cleared(s.short_ema, input);
        ExponentialMovingAverage::lemma_step_keeps_cleared(s.long_ema, input);
        let short = ExponentialMovingAverage::step(s.short_ema, input).unwrap().1;
        let long = ExponentialMovingAverage::step(s.long_ema, input).unwrap().1;
        if short.is_some() && long.is_some() {
            let fed = Self::line(short.unwrap(), long.unwrap()).unwrap();
            ExponentialMovingAverage::lemma_step_keeps_cleared(s.signal_ema, fed);
        }
    }

    proof fn lemma_cleared_twice(s: MovingAverageConvergenceDivergenceState) {
        ExponentialMovingAverage::lemma_cleared_twice(s.short_ema);
        ExponentialMovingAverage::lemma_cleared_twice(s.long_ema);
        ExponentialMovingAverage::lemma_cleared_twice(s.signal_ema);
    }

    fn peek(&self, input: IndicatorValue) -> (r: Option<Option<MovingAverageConvergenceDivergenceOutput>>) {
        let short = self.short_ema.peek(input)?;
        let long = self.long_ema.peek(input)?;
        match (short, long) {
            (Some(s), Some(l)) => {
                let macd_value = Self::value(s, l)?;
                match self.signal_ema.peek(macd_value)? {
                    None => Some(None),
                    Some(signal_value) => {
                        let histogram_value = plain_difference(macd_value, signal_value)?;
                        Some(
                            Some(
                                MovingAverageConvergenceDivergenceOutput {
                                    macd_value,
                                    signal_value,
                                    histogram_value,
                                },
                            ),
                        )
                    },
                }
            },
            _ => Some(None),
        }
    }

    fn next(&mut self, input: IndicatorValue) -> (out: Option<MovingAverageConvergenceDivergenceOutput>) {
        let short = self.short_ema.next(input);
        let long = self.long_ema.next(input);
        match (short, long) {
            (Some(s), Some(l)) => {
                let macd_value = Self::value(s, l).unwrap();
                match self.signal_ema.next(macd_value) {
                    None => None,
                    Some(signal_value) => {
                        let histogram_value = plain_difference(macd_value, signal_value).unwrap();
                        Some(
                            MovingAverageConvergenceDivergenceOutput {
                                macd_value,
                                signal_value,
                                histogram_value,
                            },
                        )
                    },
                }
            },
            _ => None,
        }
    }

    fn reset(&mut self) {
        self.short_ema.reset();
        self.long_ema.reset();
        self.signal_ema.reset();
    }

    fn duplicate(&self) -> (r: MovingAverageConvergenceDivergence) {
        MovingAverageConvergenceDivergence {
            short_ema: self.short_ema.duplicate(),
            long_ema: self.long_ema.duplicate(),
            signal_ema: self.signal_ema.duplicate(),
        }
    }

    fn idle_output(&self) -> (out: Option<MovingAverageConvergenceDivergenceOutput>) {
        None
    }
}

} // verus!
