//! Stochastic oscillator.

use vstd::prelude::*;
use crate::indicator_value::{plain_difference, plain_product, plain_quotient, product_of, quotient_of, whole, IndicatorValue};
use crate::indicators::high_low::{new_extreme, ExtremeState, High, HighOutput, Low, LowOutput};
use crate::indicators::sma::{SimpleMovingAverage, SimpleMovingAverageState};
use crate::indicators::Indicator;

verus! {

/// Where the close lies between the lowest low and the highest high, and the
/// moving average of that.
#[derive(Debug, Clone, Copy, PartialEq)]
pub struct StochasticOutput {
    pub k: IndicatorValue,
    pub d: IndicatorValue,
}

/// `%K`: where the close lies between the lowest low and the highest high of
/// the last `period` observations, in percent; where the two are equal, the
/// `%K` before, which starts at 50. `%D`: the moving average of the last
/// `d_period` values of `%K`.
pub struct StochasticOscillator {
    high: High,
    low: Low,
    d_sma: SimpleMovingAverage,
    last_k: IndicatorValue,
}

/// The model of a [`StochasticOscillator`].
pub struct StochasticOscillatorState {
    /// The highest high.
    pub high: ExtremeState,
    /// The lowest low.
    pub low: ExtremeState,
    /// The moving average of `%K`.
    pub d_sma: SimpleMovingAverageState,
    /// The last `%K`.
    pub last_k: IndicatorValue,
}

impl StochasticOscillator {
    /// The state of a new oscillator.
    pub open spec fn spec_new(period: nat, d_period: nat) -> StochasticOscillatorState {
        StochasticOscillatorState {
            high: new_extreme(period),
            low: new_extreme(period),
            d_sma: SimpleMovingAverage::spec_new(d_period),
            last_k: whole(50),
        }
    }

    /// `%K` for a close between `lowest` and `highest`:
    /// `(close - lowest) / (highest - lowest) * 100`, and `last_k` where the
    /// range is not positive.
    pub open spec fn percent_k(
        last_k: IndicatorValue,
        highest: IndicatorValue,
        lowest: IndicatorValue,
        close: IndicatorValue,
    ) -> Option<IndicatorValue> {
        match IndicatorValue::spec_difference(highest, lowest) {
            None => None,
            Some(range) => if range.spec_is_positive() {
                product_of(quotient_of(IndicatorValue::spec_difference(close, lowest), Some(range)), Some(whole(100)))
            } else {
                Some(last_k)
            },
        }
    }

    /// The moving average, the last `%K` and the output, after the extremes
    /// gave `highest` and `lowest`.
    pub open spec fn smoothed(
        d_sma: SimpleMovingAverageState,
        last_k: IndicatorValue,
        highest: Option<HighOutput>,
        lowest: Option<LowOutput>,
        close: IndicatorValue,
    ) -> Option<(SimpleMovingAverageState, IndicatorValue, Option<StochasticOutput>)> {
        match (highest, lowest) {
            (Some(h), Some(l)) => match Self::percent_k(last_k, h.high_value, l.low_value, close) {
                None => None,
                Some(k) => match SimpleMovingAverage::step(d_sma, k) {
                    None => None,
                    Some((next, None)) => Some((next, k, None)),
                    Some((next, Some(d))) => Some((next, k, Some(StochasticOutput { k, d }))),
                },
            },
            _ => Some((d_sma, last_k, None)),
        }
    }

    /// A new oscillator over `period` observations whose `%D` averages `d_period` values of `%K`.
    pub fn new(period: usize, d_period: usize) -> (r: StochasticOscillator)
        requires
            period > 0,
            d_period > 0,
        ensures
            r.wf(),
            Self::cleared(r.state()) == r.state(),
            r.state() == Self::spec_new(period as nat, d_period as nat),
    {
        StochasticOscillator {
            high: High::new(period),
            low: Low::new(period),
            d_sma: SimpleMovingAverage::new(d_period),
            last_k: IndicatorValue::from_u64(50),
        }
    }

    /// `%K` for a close between `lowest` and `highest`.
    fn k_of(&self, highest: IndicatorValue, lowest: IndicatorValue, close: IndicatorValue) -> (r: Option<IndicatorValue>)
        ensures
            r == Self::percent_k(self.last_k, highest, lowest, close),
    {
        let range = plain_difference(highest, lowest)?;
        if range.is_positive() {
            let share = plain_quotient(plain_difference(close, lowest)?, range)?;
            plain_product(share, IndicatorValue::from_u64(100))
        } else {
            Some(self.last_k)
        }
    }
}

impl Default for StochasticOscillator {
    fn default() -> (r: StochasticOscillator)
        ensures
            r.wf(),
            r.state() == StochasticOscillator::spec_new(14, 3),
    {
        StochasticOscillator::new(14, 3)
    }
}

impl Indicator for StochasticOscillator {
    /// The high, the low and the close.
    type Input = (IndicatorValue, IndicatorValue, IndicatorValue);

    type Output = Option<StochasticOutput>;

    type State = StochasticOscillatorState;

    closed spec fn wf(&self) -> bool {
        &&& self.high.wf()
        &&& self.low.wf()
        &&& self.d_sma.wf()
    }

    closed spec fn state(&self) -> StochasticOscillatorState {
        StochasticOscillatorState {
            high: self.high.state(),
            low: self.low.state(),
            d_sma: self.d_sma.state(),
            last_k: self.last_k,
        }
    }

    open spec fn step(s: StochasticOscillatorState, input: (IndicatorValue, IndicatorValue, IndicatorValue)) -> Option<
        (StochasticOscillatorState, Option<StochasticOutput>),
    > {
        match (High::step(s.high, input.0), Low::step(s.low, input.1)) {
            (Some((high, highest)), Some((low, lowest))) => match Self::smoothed(
                s.d_sma,
                s.last_k,
                highest,
                lowest,
                input.2,
            ) {
                Some((d_sma, last_k, out)) => Some((StochasticOscillatorState { high, low, d_sma, last_k }, out)),
                None => None,
            },
            _ => None,
        }
    }

    open spec fn cleared(s: StochasticOscillatorState) -> StochasticOscillatorState {
        StochasticOscillatorState {
            high: High::cleared(s.high),
            low: Low::cleared(s.low),
            d_sma: SimpleMovingAverage::cleared(s.d_sma),
            last_k: whole(50),
        }
    }

    open spec fn idle(s: StochasticOscillatorState) -> Option<StochasticOutput> {
        None
    }

    open spec fn ready(s: StochasticOscillatorState) -> bool {
        High::ready(s.high) && Low::ready(s.low) && SimpleMovingAverage::ready(s.d_sma)
    }

    open spec fn available(out: Option<StochasticOutput>) -> bool {
        out.is_some()
    }

    open spec fn prompt() -> bool {
        true
    }

    proof fn lemma_warm_up(s: StochasticOscillatorState, input: (IndicatorValue, IndicatorValue, IndicatorValue)) {
        High::lemma_warm_up(s.high, input.0);
        Low::lemma_warm_up(s.low, input.1);
        let highest = High::step(s.high, input.0).unwrap().1;
        let lowest = Low::step(s.low, input.1).unwrap().1;
        if highest.is_some() && lowest.is_some() {
            let k = Self::percent_k(s.last_k, highest.unwrap().high_value, lowest.unwrap().low_value, input.2).unwrap();
            SimpleMovingAverage::lemma_warm_up(s.d_sma, k);
        }
    }

    proof fn lemma_step_keeps_cleared(
        s: StochasticOscillatorState,
        input: (IndicatorValue, IndicatorValue, IndicatorValue),
    ) {
        High::lemma_step_keeps_cleared(s.high, input.0);
        Low::lemma_step_keeps_cleared(s.low, input.1);
        let highest = High::step(s.high, input.0).unwrap().1;
        let lowest = Low::step(s.low, input.1).unwrap().1;
        if highest.is_some() && lowest.is_some() {
            let k = Self::percent_k(s.last_k, highest.unwrap().high_value, lowest.unwrap().low_value, input.2).unwrap();
            SimpleMovingAverage::lemma_step_keeps_cleared(s.d_sma, k);
        }
    }

    proof fn lemma_cleared_twice(s: StochasticOscillatorState) {
        High::lemma_cleared_twice(s.high);
        Low::lemma_cleared_twice(s.low);
        SimpleMovingAverage::lemma_cleared_twice(s.d_sma);
    }

    fn peek(&self, input: (IndicatorValue, IndicatorValue, IndicatorValue)) -> (r: Option<Option<StochasticOutput>>) {
        let highest = self.high.peek(input.0)?;
        let lowest = self.low.peek(input.1)?;
        match (highest, lowest) {
            (Some(h), Some(l)) => {
                let k = self.k_of(h.high_value, l.low_value, input.2)?;
                match self.d_sma.peek(k)? {
                    Some(d) => Some(Some(StochasticOutput { k, d })),
                    None => Some(None),
                }
            },
            _ => Some(None),
        }
    }

    fn next(&mut self, input: (IndicatorValue, IndicatorValue, IndicatorValue)) -> (out: Option<StochasticOutput>) {
        let highest = self.high.next(input.0);
        let lowest = self.low.next(input.1);
        match (highest, lowest) {
            (Some(h), Some(l)) => {
                let k = self.k_of(h.high_value, l.low_value, input.2).unwrap();
                let d = self.d_sma.next(k);
                self.last_k = k;
                match d {
                    Some(d) => Some(StochasticOutput { k, d }),
                    None => None,
                }
            },
            _ => None,
        }
    }

    fn reset(&mut self) {
        self.high.reset();
        self.low.reset();
        self.d_sma.reset();
        self.last_k = IndicatorValue::from_u64(50);
    }

    fn duplicate(&self) -> (r: StochasticOscillator) {
        StochasticOscillator {
            high: self.high.duplicate(),
            low: self.low.duplicate(),
            d_sma: self.d_sma.duplicate(),
            last_k: self.last_k,
        }
    }

    fn idle_output(&self) -> (out: Option<StochasticOutput>) {
        None
    }
}

} // verus!
