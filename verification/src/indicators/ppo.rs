//! Percentage price oscillator.

use vstd::prelude::*;
use crate::indicator_value::{plain_difference, plain_product, plain_quotient, product_of, quotient_of, whole, IndicatorValue};
use crate::indicators::ema::{ExponentialMovingAverage, ExponentialMovingAverageState};
use crate::indicators::Indicator;

verus! {

/// The difference of two averages in percent of the longer, its own average,
/// and the difference of those.
#[derive(Debug, Clone, Copy, PartialEq)]
pub struct PPOOutput {
    pub ppo_value: IndicatorValue,
    pub signal_value: IndicatorValue,
    pub histogram_value: IndicatorValue,
}

/// The short exponential average less the long one in percent of the long
/// one (the PPO), the exponential average of that (the signal), and the PPO
/// less the signal (the histogram).
///
/// The signal average is fed only once both averages report; nothing is
/// reported before the signal average does.
pub struct PercentagePriceOscillator {
    short_ema: ExponentialMovingAverage,
    long_ema: ExponentialMovingAverage,
    signal_ema: ExponentialMovingAverage,
}

/// The model of a [`PercentagePriceOscillator`].
pub struct PercentagePriceOscillatorState {
    /// The short average.
    pub short_ema: ExponentialMovingAverageState,
    /// The long average.
    pub long_ema: ExponentialMovingAverageState,
    /// The average of the PPO.
    pub signal_ema: ExponentialMovingAverageState,
}

impl PercentagePriceOscillator {
    /// The state of a new indicator.
    pub open spec fn spec_new(short_period: nat, long_period: nat, signal_period: nat) -> PercentagePriceOscillatorState {
        PercentagePriceOscillatorState {
            short_ema: ExponentialMovingAverage::spec_new(short_period),
            long_ema: ExponentialMovingAverage::spec_new(long_period),
            signal_ema: ExponentialMovingAverage::spec_new(signal_period),
        }
    }

    /// The PPO for the two averages: `(short - long) / long * 100`.
    pub open spec fn line(short: IndicatorValue, long: IndicatorValue) -> Option<IndicatorValue> {
        product_of(quotient_of(IndicatorValue::spec_difference(short, long), Some(long)), Some(whole(100)))
    }

    /// The signal average and the output, after the two averages gave `short` and `long`.
    pub open spec fn signalled(
        signal_ema: ExponentialMovingAverageState,
        short: Option<IndicatorValue>,
        long: Option<IndicatorValue>,
    ) -> Option<(ExponentialMovingAverageState, Option<PPOOutput>)> {
        match (short, long) {
            (Some(s), Some(l)) => match Self::line(s, l) {
                None => None,
                Some(ppo_value) => match ExponentialMovingAverage::step(signal_ema, ppo_value) {
                    None => None,
                    Some((next, None)) => Some((next, None)),
                    Some((next, Some(signal_value))) => match IndicatorValue::spec_difference(
                        ppo_value,
                        signal_value,
                    ) {
                        None => None,
                        Some(histogram_value) => Some(
                            (
                                next,
                                Some(
                                    PPOOutput {
                                        ppo_value,
                                        signal_value,
                                        histogram_value,
                                    },
                                ),
                            ),
                        ),
                    },
                },
            },
            _ => Some((signal_ema, None)),
        }
    }

    /// A new oscillator from averages over `short_period` and `long_period` observations and a signal average over `signal_period` values.
    pub fn new(short_period: usize, long_period: usize, signal_period: usize) -> (r: PercentagePriceOscillator)
        requires
            short_period < usize::MAX,
            long_period < usize::MAX,
            signal_period < usize::MAX,
        ensures
            r.wf(),
            Self::cleared(r.state()) == r.state(),
            r.state() == Self::spec_new(short_period as nat, long_period as nat, signal_period as nat),
    {
        PercentagePriceOscillator {
            short_ema: ExponentialMovingAverage::new(short_period),
            long_ema: ExponentialMovingAverage::new(long_period),
            signal_ema: ExponentialMovingAverage::new(signal_period),
        }
    }

    /// The PPO for the two averages.
    fn value(short: IndicatorValue, long: IndicatorValue) -> (r: Option<IndicatorValue>)
        ensures
            r == Self::line(short, long),
    {
        let share = plain_quotient(plain_difference(short, long)?, long)?;
        plain_product(share, IndicatorValue::from_u64(100))
    }
}

impl Default for PercentagePriceOscillator {
    fn default() -> (r: PercentagePriceOscillator)
        ensures
            r.wf(),
            r.state() == PercentagePriceOscillator::spec_new(12, 26, 9),
    {
        PercentagePriceOscillator::new(12, 26, 9)
    }
}

impl Indicator for PercentagePriceOscillator {
    type Input = IndicatorValue;

    type Output = Option<PPOOutput>;

    type State = PercentagePriceOscillatorState;

    closed spec fn wf(&self) -> bool {
        &&& self.short_ema.wf()
        &&& self.long_ema.wf()
        &&& self.signal_ema.wf()
    }

    closed spec fn state(&self) -> PercentagePriceOscillatorState {
        PercentagePriceOscillatorState {
            short_ema: self.short_ema.state(),
            long_ema: self.long_ema.state(),
            signal_ema: self.signal_ema.state(),
        }
    }

    open spec fn step(s: PercentagePriceOscillatorState, input: IndicatorValue) -> Option<
        (PercentagePriceOscillatorState, Option<PPOOutput>),
    > {
        match (ExponentialMovingAverage::step(s.short_ema, input), ExponentialMovingAverage::step(s.long_ema, input)) {
            (Some((short_ema, short)), Some((long_ema, long))) => match Self::signalled(s.signal_ema, short, long) {
                Some((signal_ema, out)) => Some(
                    (PercentagePriceOscillatorState { short_ema, long_ema, signal_ema }, out),
                ),
                None => None,
            },
            _ => None,
        }
    }

    open spec fn cleared(s: PercentagePriceOscillatorState) -> PercentagePriceOscillatorState {
        PercentagePriceOscillatorState {
            short_ema: ExponentialMovingAverage::cleared(s.short_ema),
            long_ema: ExponentialMovingAverage::cleared(s.long_ema),
            signal_ema: ExponentialMovingAverage::cleared(s.signal_ema),
        }
    }

    open spec fn idle(s: PercentagePriceOscillatorState) -> Option<PPOOutput> {
        None
    }

    open spec fn ready(s: PercentagePriceOscillatorState) -> bool {
        ExponentialMovingAverage::ready(s.short_ema) && ExponentialMovingAverage::ready(s.long_ema)
            && ExponentialMovingAverage::ready(s.signal_ema)
    }

    open spec fn available(out: Option<PPOOutput>) -> bool {
        out.is_some()
    }

    open spec fn prompt() -> bool {
        true
    }

    proof fn lemma_warm_up(s: PercentagePriceOscillatorState, input: IndicatorValue) {
        ExponentialMovingAverage::lemma_warm_up(s.short_ema, input);
        ExponentialMovingAverage::lemma_warm_up(s.long_ema, input);
        let short = ExponentialMovingAverage::step(s.short_ema, input).unwrap().1;
        let long = ExponentialMovingAverage::step(s.long_ema, input).unwrap().1;
        if short.is_some() && long.is_some() {
            let fed = Self::line(short.unwrap(), long.unwrap()).unwrap();
            ExponentialMovingAverage::lemma_warm_up(s.signal_ema, fed);
        }
    }

    proof fn lemma_step_keeps_cleared(s: PercentagePriceOscillatorState, input: IndicatorValue) {
        ExponentialMovingAverage::lemma_step_keeps_cleared(s.short_ema, input);
        ExponentialMovingAverage::lemma_step_keeps_cleared(s.long_ema, input);
        let short = ExponentialMovingAverage::step(s.short_ema, input).unwrap().1;
        let long = ExponentialMovingAverage::step(s.long_ema, input).unwrap().1;
        if short.is_some() && long.is_some() {
            let fed = Self::line(short.unwrap(), long.unwrap()).unwrap();
            ExponentialMovingAverage::lemma_step_keeps_cleared(s.signal_ema, fed);
        }
    }

    proof fn lemma_cleared_twice(s: PercentagePriceOscillatorState) {
        ExponentialMovingAverage::lemma_cleared_twice(s.short_ema);
        ExponentialMovingAverage::lemma_cleared_twice(s.long_ema);
        ExponentialMovingAverage::lemma_cleared_twice(s.signal_ema);
    }

    fn peek(&self, input: IndicatorValue) -> (r: Option<Option<PPOOutput>>) {
        let short = self.short_ema.peek(input)?;
        let long = self.long_ema.peek(input)?;
        match (short, long) {
            (Some(s), Some(l)) => {
                let ppo_value = Self::value(s, l)?;
                match self.signal_ema.peek(ppo_value)? {
                    None => Some(None),
                    Some(signal_value) => {
                        let histogram_value = plain_difference(ppo_value, signal_value)?;
                        Some(
                            Some(
                                PPOOutput {
                                    ppo_value,
                                    signal_value,
                                    histogram_value,
                                },
                            ),
                        )
                    },
                }
            },
            _ => Some(None),
        }
    }

    fn next(&mut self, input: IndicatorValue) -> (out: Option<PPOOutput>) {
        let short = self.short_ema.next(input);
        let long = self.long_ema.next(input);
        match (short, long) {
            (Some(s), Some(l)) => {
                let ppo_value = Self::value(s, l).unwrap();
                match self.signal_ema.next(ppo_value) {
                    None => None,
                    Some(signal_value) => {
                        let histogram_value = plain_difference(ppo_value, signal_value).unwrap();
                        Some(
                            PPOOutput {
                                ppo_value,
                                signal_value,
                                histogram_value,
                            },
                        )
                    },
                }
            },
            _ => None,
        }
    }

    fn reset(&mut self) {
        self.short_ema.reset();
        self.long_ema.reset();
        self.signal_ema.reset();
    }

    fn duplicate(&self) -> (r: PercentagePriceOscillator) {
        PercentagePriceOscillator {
            short_ema: self.short_ema.duplicate(),
            long_ema: self.long_ema.duplicate(),
            signal_ema: self.signal_ema.duplicate(),
        }
    }

    fn idle_output(&self) -> (out: Option<PPOOutput>) {
        None
    }
}

} // verus!
