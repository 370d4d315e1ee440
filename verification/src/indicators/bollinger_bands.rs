//! Bollinger bands.

use vstd::prelude::*;
use crate::indicator_value::{plain_difference, plain_product, plain_sum, whole, IndicatorValue};
use crate::indicators::sma::{SimpleMovingAverage, SimpleMovingAverageState};
use crate::indicators::stdev::{StandardDeviation, StandardDeviationState};
use crate::indicators::Indicator;

verus! {

/// The band above and the band below a moving average.
#[derive(Debug, Clone, Copy, PartialEq)]
pub struct BollingerBandsOutput {
    pub upper_band: IndicatorValue,
    pub lower_band: IndicatorValue,
}

impl Default for BollingerBandsOutput {
    fn default() -> (r: BollingerBandsOutput)
        ensures
            r.upper_band == whole(0),
            r.lower_band == whole(0),
    {
        BollingerBandsOutput { upper_band: IndicatorValue::zero(), lower_band: IndicatorValue::zero() }
    }
}

/// The moving average of the last `period` observations, plus and minus
/// `multiplier` standard deviations of them.
pub struct BollingerBands {
    multiplier: IndicatorValue,
    sma: SimpleMovingAverage,
    std_dev: StandardDeviation,
}

/// The model of a [`BollingerBands`].
pub struct BollingerBandsState {
    /// How many standard deviations the bands are away from the average.
    pub multiplier: IndicatorValue,
    /// The moving average.
    pub sma: SimpleMovingAverageState,
    /// The standard deviation.
    pub std_dev: StandardDeviationState,
}

impl BollingerBands {
    /// The state of a new indicator.
    pub open spec fn spec_new(period: nat, multiplier: nat) -> BollingerBandsState {
        BollingerBandsState {
            multiplier: whole(multiplier as int),
            sma: SimpleMovingAverage::spec_new(period),
            std_dev: StandardDeviation::spec_new(period),
        }
    }

    /// The bands around `mean`: `mean + multiplier * deviation` and `mean - multiplier * deviation`.
    pub open spec fn bands(multiplier: IndicatorValue, mean: IndicatorValue, deviation: IndicatorValue) -> Option<
        BollingerBandsOutput,
    > {
        match IndicatorValue::spec_product(multiplier, deviation) {
            None => None,
            Some(offset) => match (
                IndicatorValue::spec_sum(mean, offset),
                IndicatorValue::spec_difference(mean, offset),
            ) {
                (Some(upper_band), Some(lower_band)) => Some(BollingerBandsOutput { upper_band, lower_band }),
                _ => None,
            },
        }
    }

    /// What the outputs of the parts give.
    pub open spec fn combined(
        multiplier: IndicatorValue,
        mean: Option<IndicatorValue>,
        deviation: Option<IndicatorValue>,
    ) -> Option<Option<BollingerBandsOutput>> {
        match (mean, deviation) {
            (Some(m), Some(d)) => match Self::bands(multiplier, m, d) {
                Some(out) => Some(Some(out)),
                None => None,
            },
            _ => Some(None),
        }
    }

    /// New bands over `period` observations, `multiplier` standard deviations away from the average.
    pub fn new(period: usize, multiplier: usize) -> (r: BollingerBands)
        requires
            period > 1,
        ensures
            r.wf(),
            Self::cleared(r.state()) == r.state(),
            r.state() == Self::spec_new(period as nat, multiplier as nat),
    {
        BollingerBands {
            multiplier: IndicatorValue::from_usize(multiplier),
            sma: SimpleMovingAverage::new(period),
            std_dev: StandardDeviation::new(period),
        }
    }

    /// What the outputs of the parts give.
    fn combine(&self, mean: Option<IndicatorValue>, deviation: Option<IndicatorValue>) -> (r: Option<
        Option<BollingerBandsOutput>,
    >)
        ensures
            r == Self::combined(self.multiplier, mean, deviation),
    {
        match (mean, deviation) {
            (Some(m), Some(d)) => {
                let offset = plain_product(self.multiplier, d)?;
                let upper_band = plain_sum(m, offset)?;
                let lower_band = plain_difference(m, offset)?;
                Some(Some(BollingerBandsOutput { upper_band, lower_band }))
            },
            _ => Some(None),
        }
    }
}

impl Default for BollingerBands {
    fn default() -> (r: BollingerBands)
        ensures
            r.wf(),
            r.state() == BollingerBands::spec_new(20, 2),
    {
        BollingerBands::new(20, 2)
    }
}

impl Indicator for BollingerBands {
    type Input = IndicatorValue;

    type Output = Option<BollingerBandsOutput>;

    type State = BollingerBandsState;

    closed spec fn wf(&self) -> bool {
        &&& self.sma.wf()
        &&& self.std_dev.wf()
    }

    closed spec fn state(&self) -> BollingerBandsState {
        BollingerBandsState { multiplier: self.multiplier, sma: self.sma.state(), std_dev: self.std_dev.state() }
    }

    open spec fn step(s: BollingerBandsState, input: IndicatorValue) -> Option<
        (BollingerBandsState, Option<BollingerBandsOutput>),
    > {
        match (SimpleMovingAverage::step(s.sma, input), StandardDeviation::step(s.std_dev, input)) {
            (Some((sma, mean)), Some((std_dev, deviation))) => match Self::combined(s.multiplier, mean, deviation) {
                Some(out) => Some((BollingerBandsState { sma, std_dev, ..s }, out)),
                None => None,
            },
            _ => None,
        }
    }

    open spec fn cleared(s: BollingerBandsState) -> BollingerBandsState {
        BollingerBandsState {
            sma: SimpleMovingAverage::cleared(s.sma),
            std_dev: StandardDeviation::cleared(s.std_dev),
            ..s
        }
    }

    open spec fn idle(s: BollingerBandsState) -> Option<BollingerBandsOutput> {
        None
    }

    open spec fn ready(s: BollingerBandsState) -> bool {
        SimpleMovingAverage::ready(s.sma) && StandardDeviation::ready(s.std_dev)
    }

    open spec fn available(out: Option<BollingerBandsOutput>) -> bool {
        out.is_some()
    }

    open spec fn prompt() -> bool {
        true
    }

    proof fn lemma_warm_up(s: BollingerBandsState, input: IndicatorValue) {
        SimpleMovingAverage::lemma_warm_up(s.sma, input);
        StandardDeviation::lemma_warm_up(s.std_dev, input);
    }

    proof fn lemma_step_keeps_cleared(s: BollingerBandsState, input: IndicatorValue) {
        SimpleMovingAverage::lemma_step_keeps_cleared(s.sma, input);
        StandardDeviation::lemma_step_keeps_cleared(s.std_dev, input);
    }

    proof fn lemma_cleared_twice(s: BollingerBandsState) {
        SimpleMovingAverage::lemma_cleared_twice(s.sma);
        StandardDeviation::lemma_cleared_twice(s.std_dev);
    }

    fn peek(&self, input: IndicatorValue) -> (r: Option<Option<BollingerBandsOutput>>) {
        let mean = self.sma.peek(input)?;
        let deviation = self.std_dev.peek(input)?;
        self.combine(mean, deviation)
    }

    fn next(&mut self, input: IndicatorValue) -> (out: Option<BollingerBandsOutput>) {
        let mean = self.sma.next(input);
        let deviation = self.std_dev.next(input);
        self.combine(mean, deviation).unwrap()
    }

    fn reset(&mut self) {
        self.sma.reset();
        self.std_dev.reset();
    }

    fn duplicate(&self) -> (r: BollingerBands) {
        BollingerBands {
            multiplier: self.multiplier,
            sma: self.sma.duplicate(),
            std_dev: self.std_dev.duplicate(),
        }
    }

    fn idle_output(&self) -> (out: Option<BollingerBandsOutput>) {
        None
    }
}

} // verus!
