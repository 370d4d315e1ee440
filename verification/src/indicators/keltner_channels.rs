//! Keltner channels.

use vstd::prelude::*;
use crate::indicator_value::{plain_difference, plain_product, plain_sum, whole, IndicatorValue};
use crate::indicators::atr::{AverageTrueRange, AverageTrueRangeState};
use crate::indicators::ema::{ExponentialMovingAverage, ExponentialMovingAverageState};
use crate::indicators::Indicator;

verus! {

/// An exponential average of the close and the bands around it.
#[derive(Debug, Clone, Copy, PartialEq)]
pub struct KeltnerChannelsOutput {
    pub middle_band: IndicatorValue,
    pub upper_band: IndicatorValue,
    pub lower_band: IndicatorValue,
}

/// The exponential moving average of the close, plus and minus `multiplier`
/// average true ranges.
pub struct KeltnerChannels {
    ema: ExponentialMovingAverage,
    atr: AverageTrueRange,
    multiplier: IndicatorValue,
}

/// The model of a [`KeltnerChannels`].
pub struct KeltnerChannelsState {
    /// The exponential moving average of the close.
    pub ema: ExponentialMovingAverageState,
    /// The average true range.
    pub atr: AverageTrueRangeState,
    /// How many average true ranges the bands are away from the average.
    pub multiplier: IndicatorValue,
}

impl KeltnerChannels {
    /// The state of new channels.
    pub open spec fn spec_new(ema_period: nat, atr_period: nat, multiplier: nat) -> KeltnerChannelsState {
        KeltnerChannelsState {
            ema: ExponentialMovingAverage::spec_new(ema_period),
            atr: AverageTrueRange::spec_new(atr_period),
            multiplier: whole(multiplier as int),
        }
    }

    /// The bands around `average`: `average + multiplier * range` and `average - multiplier * range`.
    pub open spec fn bands(multiplier: IndicatorValue, average: IndicatorValue, range: IndicatorValue) -> Option<
        KeltnerChannelsOutput,
    > {
        match IndicatorValue::spec_product(multiplier, range) {
            None => None,
            Some(offset) => match (
                IndicatorValue::spec_sum(average, offset),
                IndicatorValue::spec_difference(average, offset),
            ) {
                (Some(upper_band), Some(lower_band)) => Some(
                    KeltnerChannelsOutput { middle_band: average, upper_band, lower_band },
                ),
                _ => None,
            },
        }
    }

    /// What the outputs of the parts give.
    pub open spec fn combined(
        multiplier: IndicatorValue,
        average: Option<IndicatorValue>,
        range: Option<IndicatorValue>,
    ) -> Option<Option<KeltnerChannelsOutput>> {
        match (average, range) {
            (Some(a), Some(r)) => match Self::bands(multiplier, a, r) {
                Some(out) => Some(Some(out)),
                None => None,
            },
            _ => Some(None),
        }
    }

    /// New channels: an average over `ema_period` closes, with bands `multiplier` average true ranges of `atr_period` observations away.
    pub fn new(ema_period: usize, atr_period: usize, multiplier: usize) -> (r: KeltnerChannels)
        requires
            ema_period < usize::MAX,
            atr_period > 0,
        ensures
            r.wf(),
            Self::cleared(r.state()) == r.state(),
            r.state() == Self::spec_new(ema_period as nat, atr_period as nat, multiplier as nat),
    {
        KeltnerChannels {
            ema: ExponentialMovingAverage::new(ema_period),
            atr: AverageTrueRange::new(atr_period),
            multiplier: IndicatorValue::from_usize(multiplier),
        }
    }

    /// What the outputs of the parts give.
    fn combine(&self, average: Option<IndicatorValue>, range: Option<IndicatorValue>) -> (r: Option<
        Option<KeltnerChannelsOutput>,
    >)
        ensures
            r == Self::combined(self.multiplier, average, range),
    {
        match (average, range) {
            (Some(a), Some(r)) => {
                let offset = plain_product(self.multiplier, r)?;
                let upper_band = plain_sum(a, offset)?;
                let lower_band = plain_difference(a, offset)?;
                Some(Some(KeltnerChannelsOutput { middle_band: a, upper_band, lower_band }))
            },
            _ => Some(None),
        }
    }
}

impl Default for KeltnerChannels {
    fn default() -> (r: KeltnerChannels)
        ensures
            r.wf(),
            r.state() == KeltnerChannels::spec_new(20, 10, 2),
    {
        KeltnerChannels::new(20, 10, 2)
    }
}

impl Indicator for KeltnerChannels {
    /// The high, the low and the close.
    type Input = (IndicatorValue, IndicatorValue, IndicatorValue);

    type Output = Option<KeltnerChannelsOutput>;

    type State = KeltnerChannelsState;

    closed spec fn wf(&self) -> bool {
        &&& self.ema.wf()
        &&& self.atr.wf()
    }

    closed spec fn state(&self) -> KeltnerChannelsState {
        KeltnerChannelsState { ema: self.ema.state(), atr: self.atr.state(), multiplier: self.multiplier }
    }

    open spec fn step(s: KeltnerChannelsState, input: (IndicatorValue, IndicatorValue, IndicatorValue)) -> Option<
        (KeltnerChannelsState, Option<KeltnerChannelsOutput>),
    > {
        match (ExponentialMovingAverage::step(s.ema, input.2), AverageTrueRange::step(s.atr, input)) {
            (Some((ema, average)), Some((atr, range))) => match Self::combined(s.multiplier, average, range) {
                Some(out) => Some((KeltnerChannelsState { ema, atr, ..s }, out)),
                None => None,
            },
            _ => None,
        }
    }

    open spec fn cleared(s: KeltnerChannelsState) -> KeltnerChannelsState {
        KeltnerChannelsState {
            ema: ExponentialMovingAverage::cleared(s.ema),
            atr: AverageTrueRange::cleared(s.atr),
            ..s
        }
    }

    open spec fn idle(s: KeltnerChannelsState) -> Option<KeltnerChannelsOutput> {
        None
    }

    open spec fn ready(s: KeltnerChannelsState) -> bool {
        ExponentialMovingAverage::ready(s.ema) && AverageTrueRange::ready(s.atr)
    }

    open spec fn available(out: Option<KeltnerChannelsOutput>) -> bool {
        out.is_some()
    }

    open spec fn prompt() -> bool {
        true
    }

    proof fn lemma_warm_up(s: KeltnerChannelsState, input: (IndicatorValue, IndicatorValue, IndicatorValue)) {
        ExponentialMovingAverage::lemma_warm_up(s.ema, input.2);
        AverageTrueRange::lemma_warm_up(s.atr, input);
    }

    proof fn lemma_step_keeps_cleared(s: KeltnerChannelsState, input: (IndicatorValue, IndicatorValue, IndicatorValue)) {
        ExponentialMovingAverage::lemma_step_keeps_cleared(s.ema, input.2);
        AverageTrueRange::lemma_step_keeps_cleared(s.atr, input);
    }

    proof fn lemma_cleared_twice(s: KeltnerChannelsState) {
        ExponentialMovingAverage::lemma_cleared_twice(s.ema);
        AverageTrueRange::lemma_cleared_twice(s.atr);
    }

    fn peek(&self, input: (IndicatorValue, IndicatorValue, IndicatorValue)) -> (r: Option<
        Option<KeltnerChannelsOutput>,
    >) {
        let average = self.ema.peek(input.2)?;
        let range = self.atr.peek(input)?;
        self.combine(average, range)
    }

    fn next(&mut self, input: (IndicatorValue, IndicatorValue, IndicatorValue)) -> (out: Option<
        KeltnerChannelsOutput,
    >) {
        let average = self.ema.next(input.2);
        let range = self.atr.next(input);
        self.combine(average, range).unwrap()
    }

    fn reset(&mut self) {
        self.ema.reset();
        self.atr.reset();
    }

    fn duplicate(&self) -> (r: KeltnerChannels) {
        KeltnerChannels { ema: self.ema.duplicate(), atr: self.atr.duplicate(), multiplier: self.multiplier }
    }

    fn idle_output(&self) -> (out: Option<KeltnerChannelsOutput>) {
        None
    }
}

} // verus!
