//! Commodity channel index.

use vstd::prelude::*;
use crate::indicator_value::{
    decimal, plain_difference, plain_product, plain_quotient, plain_sum, quotient_of, sum_of, whole,
    IndicatorValue,
};
use crate::indicators::mean_abs_dev::{MeanAbsDev, MeanAbsDevState};
use crate::indicators::sma::{SimpleMovingAverage, SimpleMovingAverageState};
use crate::indicators::Indicator;

verus! {

/// How far the typical price is from its moving average, in units of
/// `0.015` mean absolute deviations:
/// `(typical - average) / (0.015 * deviation)`, and zero where the deviation
/// is zero. The typical price is `(high + low + close) / 3`.
pub struct CommodityChannelIndex {
    sma: SimpleMovingAverage,
    mean_abs_dev: MeanAbsDev,
    constant: IndicatorValue,
}

/// The model of a [`CommodityChannelIndex`].
pub struct CommodityChannelIndexState {
    /// The moving average of the typical price.
    pub sma: SimpleMovingAverageState,
    /// The mean absolute deviation of the typical price.
    pub mean_abs_dev: MeanAbsDevState,
}

impl CommodityChannelIndex {
    /// The state of a new index.
    pub open spec fn spec_new(period: nat) -> CommodityChannelIndexState {
        CommodityChannelIndexState {
            sma: SimpleMovingAverage::spec_new(period),
            mean_abs_dev: MeanAbsDev::spec_new(period),
        }
    }

    /// `(high + low + close) / 3`.
    pub open spec fn typical_price(high: IndicatorValue, low: IndicatorValue, close: IndicatorValue) -> Option<
        IndicatorValue,
    > {
        quotient_of(sum_of(IndicatorValue::spec_sum(high, low), Some(close)), Some(whole(3)))
    }

    /// The index for a typical price, its average and its deviation.
    pub open spec fn index(typical: IndicatorValue, average: IndicatorValue, deviation: IndicatorValue) -> Option<
        IndicatorValue,
    > {
        if deviation.spec_is_zero() {
            Some(whole(0))
        } else {
            quotient_of(
                IndicatorValue::spec_difference(typical, average),
                IndicatorValue::spec_product(decimal(15, 3), deviation),
            )
        }
    }

    /// What the outputs of the parts give.
    pub open spec fn combined(
        typical: IndicatorValue,
        average: Option<IndicatorValue>,
        deviation: Option<IndicatorValue>,
    ) -> Option<Option<IndicatorValue>> {
        match (average, deviation) {
            (Some(a), Some(d)) => match Self::index(typical, a, d) {
                Some(out) => Some(Some(out)),
                None => None,
            },
            _ => Some(None),
        }
    }

    /// A new indicator over `period` observations.
    pub fn new(period: usize) -> (r: CommodityChannelIndex)
        requires
            period > 0,
        ensures
            r.wf(),
            Self::cleared(r.state()) == r.state(),
            r.state() == Self::spec_new(period as nat),
    {
        CommodityChannelIndex {
            sma: SimpleMovingAverage::new(period),
            mean_abs_dev: MeanAbsDev::new(period),
            constant: IndicatorValue::scaled(15, 3),
        }
    }

    /// `(high + low + close) / 3`.
    fn typical(input: (IndicatorValue, IndicatorValue, IndicatorValue)) -> (r: Option<IndicatorValue>)
        ensures
            r == Self::typical_price(input.0, input.1, input.2),
    {
        plain_quotient(plain_sum(plain_sum(input.0, input.1)?, input.2)?, IndicatorValue::from_u64(3))
    }

    /// What the outputs of the parts give.
    fn combine(&self, typical: IndicatorValue, average: Option<IndicatorValue>, deviation: Option<IndicatorValue>) -> (r: Option<
        Option<IndicatorValue>,
    >)
        requires
            self.wf(),
        ensures
            r == Self::combined(typical, average, deviation),
    {
        match (average, deviation) {
            (Some(a), Some(d)) => {
                if d.is_zero() {
                    Some(Some(IndicatorValue::zero()))
                } else {
                    let distance = plain_difference(typical, a)?;
                    let unit = plain_product(self.constant, d)?;
                    Some(Some(plain_quotient(distance, unit)?))
                }
            },
            _ => Some(None),
        }
    }
}

impl Indicator for CommodityChannelIndex {
    /// The high, the low and the close.
    type Input = (IndicatorValue, IndicatorValue, IndicatorValue);

    type Output = Option<IndicatorValue>;

    type State = CommodityChannelIndexState;

    closed spec fn wf(&self) -> bool {
        &&& self.sma.wf()
        &&& self.mean_abs_dev.wf()
        &&& self.constant == decimal(15, 3)
    }

    closed spec fn state(&self) -> CommodityChannelIndexState {
        CommodityChannelIndexState { sma: self.sma.state(), mean_abs_dev: self.mean_abs_dev.state() }
    }

    open spec fn step(s: CommodityChannelIndexState, input: (IndicatorValue, IndicatorValue, IndicatorValue)) -> Option<
        (CommodityChannelIndexState, Option<IndicatorValue>),
    > {
        match Self::typical_price(input.0, input.1, input.2) {
            None => None,
            Some(typical) => match (
                SimpleMovingAverage::step(s.sma, typical),
                MeanAbsDev::step(s.mean_abs_dev, typical),
            ) {
                (Some((sma, average)), Some((mean_abs_dev, deviation))) => match Self::combined(
                    typical,
                    average,
                    deviation,
                ) {
                    Some(out) => Some((CommodityChannelIndexState { sma, mean_abs_dev }, out)),
                    None => None,
                },
                _ => None,
            },
        }
    }

    open spec fn cleared(s: CommodityChannelIndexState) -> CommodityChannelIndexState {
        CommodityChannelIndexState {
            sma: SimpleMovingAverage::cleared(s.sma),
            mean_abs_dev: MeanAbsDev::cleared(s.mean_abs_dev),
        }
    }

    open spec fn idle(s: CommodityChannelIndexState) -> Option<IndicatorValue> {
        None
    }

    open spec fn ready(s: CommodityChannelIndexState) -> bool {
        SimpleMovingAverage::ready(s.sma) && MeanAbsDev::ready(s.mean_abs_dev)
    }

    open spec fn available(out: Option<IndicatorValue>) -> bool {
        out.is_some()
    }

    open spec fn prompt() -> bool {
        true
    }

    proof fn lemma_warm_up(s: CommodityChannelIndexState, input: (IndicatorValue, IndicatorValue, IndicatorValue)) {
        let typical = Self::typical_price(input.0, input.1, input.2).unwrap();
        SimpleMovingAverage::lemma_warm_up(s.sma, typical);
        MeanAbsDev::lemma_warm_up(s.mean_abs_dev, typical);
    }

    proof fn lemma_step_keeps_cleared(
        s: CommodityChannelIndexState,
        input: (IndicatorValue, IndicatorValue, IndicatorValue),
    ) {
        let typical = Self::typical_price(input.0, input.1, input.2).unwrap();
        SimpleMovingAverage::lemma_step_keeps_cleared(s.sma, typical);
        MeanAbsDev::lemma_step_keeps_cleared(s.mean_abs_dev, typical);
    }

    proof fn lemma_cleared_twice(s: CommodityChannelIndexState) {
        SimpleMovingAverage::lemma_cleared_twice(s.sma);
        MeanAbsDev::lemma_cleared_twice(s.mean_abs_dev);
    }

    fn peek(&self, input: (IndicatorValue, IndicatorValue, IndicatorValue)) -> (r: Option<Option<IndicatorValue>>) {
        let typical = Self::typical(input)?;
        let average = self.sma.peek(typical)?;
        let deviation = self.mean_abs_dev.peek(typical)?;
        self.combine(typical, average, deviation)
    }

    fn next(&mut self, input: (IndicatorValue, IndicatorValue, IndicatorValue)) -> (out: Option<IndicatorValue>) {
        let typical = Self::typical(input).unwrap();
        let average = self.sma.next(typical);
        let deviation = self.mean_abs_dev.next(typical);
        self.combine(typical, average, deviation).unwrap()
    }

    fn reset(&mut self) {
        self.sma.reset();
        self.mean_abs_dev.reset();
    }

    fn duplicate(&self) -> (r: CommodityChannelIndex) {
        CommodityChannelIndex {
            sma: self.sma.duplicate(),
            mean_abs_dev: self.mean_abs_dev.duplicate(),
            constant: self.constant,
        }
    }

    fn idle_output(&self) -> (out: Option<IndicatorValue>) {
        None
    }
}

} // verus!
