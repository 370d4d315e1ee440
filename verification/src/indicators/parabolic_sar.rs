//! Parabolic stop and reverse.

use vstd::prelude::*;
use crate::indicator_value::{
    decimal, difference_of, plain_difference, plain_product, plain_sum, product_of, sum_of, whole,
    IndicatorValue,
};
use crate::indicators::Indicator;

verus! {

/// A stop level that trails the price and flips side when the price crosses it.
///
/// The first `initialization_period` observations only set the direction, the
/// stop and the extreme point. After that each observation moves the stop
/// towards the extreme point by the acceleration factor, which grows by its
/// starting value with every new extreme, up to a maximum.
#[derive(Clone, Copy)]
pub struct ParabolicSAR {
    sar: IndicatorValue,
    ep: IndicatorValue,
    af: IndicatorValue,
    max_af: IndicatorValue,
    start_af: IndicatorValue,
    is_rising: bool,
    periods: usize,
    initialization_period: usize,
}

/// The model of a [`ParabolicSAR`].
pub struct ParabolicSARState {
    /// The stop level.
    pub sar: IndicatorValue,
    /// The extreme point of the current trend.
    pub ep: IndicatorValue,
    /// The acceleration factor.
    pub af: IndicatorValue,
    /// The largest acceleration factor.
    pub max_af: IndicatorValue,
    /// The acceleration factor that a trend starts with and grows by.
    pub start_af: IndicatorValue,
    /// Whether the trend is upwards.
    pub is_rising: bool,
    /// How many observations of the initialization were seen.
    pub periods: nat,
    /// How many observations the initialization takes.
    pub initialization_period: nat,
}

impl ParabolicSAR {
    /// The state of a new indicator.
    pub open spec fn spec_new(
        acceleration_factor: IndicatorValue,
        max_acceleration_factor: IndicatorValue,
        initialization_period: nat,
    ) -> ParabolicSARState {
        ParabolicSARState {
            sar: whole(0),
            ep: whole(0),
            af: acceleration_factor,
            max_af: max_acceleration_factor,
            start_af: acceleration_factor,
            is_rising: false,
            periods: 0,
            initialization_period,
        }
    }

    /// One observation of the initialization.
    pub open spec fn initialized(s: ParabolicSARState, high: IndicatorValue, low: IndicatorValue) -> ParabolicSARState {
        let periods = s.periods + 1;
        if periods == 1 {
            let rising = low.spec_lt(high);
            ParabolicSARState {
                is_rising: rising,
                sar: if rising { low } else { high },
                ep: if rising { high } else { low },
                periods,
                ..s
            }
        } else if s.is_rising {
            ParabolicSARState { sar: s.sar.spec_lesser_of(low), ep: s.ep.spec_greater_of(high), periods, ..s }
        } else {
            ParabolicSARState { sar: s.sar.spec_greater_of(high), ep: s.ep.spec_lesser_of(low), periods, ..s }
        }
    }

    /// The stop moved towards the extreme point: `sar + af * (ep - sar)`.
    pub open spec fn moved_stop(s: ParabolicSARState) -> Option<IndicatorValue> {
        sum_of(Some(s.sar), product_of(Some(s.af), difference_of(Some(s.ep), Some(s.sar))))
    }

    /// The acceleration factor after a new extreme: grown by its starting
    /// value, but not beyond the maximum.
    pub open spec fn raised_factor(s: ParabolicSARState) -> Option<IndicatorValue> {
        match IndicatorValue::spec_sum(s.af, s.start_af) {
            Some(raised) => Some(raised.spec_lesser_of(s.max_af)),
            None => None,
        }
    }

    /// One observation after the initialization, the stop already moved to `sar`.
    pub open spec fn trailed(
        s: ParabolicSARState,
        sar: IndicatorValue,
        high: IndicatorValue,
        low: IndicatorValue,
    ) -> Option<ParabolicSARState> {
        if s.is_rising {
            if low.spec_lt(sar) {
                Some(ParabolicSARState { is_rising: false, sar: s.ep, ep: low, af: s.start_af, ..s })
            } else if s.ep.spec_lt(high) {
                match Self::raised_factor(s) {
                    Some(af) => Some(ParabolicSARState { sar, ep: high, af, ..s }),
                    None => None,
                }
            } else {
                Some(ParabolicSARState { sar, ..s })
            }
        } else {
            if sar.spec_lt(high) {
                Some(ParabolicSARState { is_rising: true, sar: s.ep, ep: high, af: s.start_af, ..s })
            } else if low.spec_lt(s.ep) {
                match Self::raised_factor(s) {
                    Some(af) => Some(ParabolicSARState { sar, ep: low, af, ..s }),
                    None => None,
                }
            } else {
                Some(ParabolicSARState { sar, ..s })
            }
        }
    }

    /// A new indicator. The acceleration factor starts at
    /// `acceleration_factor`, grows by that much with each new extreme and
    /// never exceeds `max_acceleration_factor`.
    pub fn new(
        acceleration_factor: IndicatorValue,
        max_acceleration_factor: IndicatorValue,
        initialization_period: usize,
    ) -> (r: ParabolicSAR)
        ensures
            r.wf(),
            Self::cleared(r.state()) == r.state(),
            r.state() == Self::spec_new(
                acceleration_factor,
                max_acceleration_factor,
                initialization_period as nat,
            ),
    {
        ParabolicSAR {
            sar: IndicatorValue::zero(),
            ep: IndicatorValue::zero(),
            af: acceleration_factor,
            max_af: max_acceleration_factor,
            start_af: acceleration_factor,
            is_rising: false,
            periods: 0,
            initialization_period,
        }
    }

    /// The acceleration factor after a new extreme.
    fn raise_factor(&self) -> (r: Option<IndicatorValue>)
        ensures
            r == Self::raised_factor(self.state()),
    {
        Some(plain_sum(self.af, self.start_af)?.lesser_of(self.max_af))
    }

    /// The indicator after `input`, and the output, where the step is defined.
    fn advance(&self, input: (IndicatorValue, IndicatorValue)) -> (r: Option<(ParabolicSAR, Option<IndicatorValue>)>)
        requires
            self.wf(),
        ensures
            match Self::step(self.state(), input) {
                Some((s, out)) => r.is_some() && r.unwrap().0.wf() && r.unwrap().0.state() == s && r.unwrap().1
                    == out,
                None => r.is_none(),
            },
    {
        let (high, low) = input;
        let mut next = *self;
        if self.periods < self.initialization_period {
            next.periods = self.periods + 1;
            if next.periods == 1 {
                next.is_rising = low.less_than(high);
                next.sar = if next.is_rising { low } else { high };
                next.ep = if next.is_rising { high } else { low };
            } else if self.is_rising {
                next.sar = self.sar.lesser_of(low);
                next.ep = self.ep.greater_of(high);
            } else {
                next.sar = self.sar.greater_of(high);
                next.ep = self.ep.lesser_of(low);
            }
            return Some((next, None));
        }
        let reach = plain_difference(self.ep, self.sar)?;
        let sar = plain_sum(self.sar, plain_product(self.af, reach)?)?;
        next.sar = sar;
        if self.is_rising {
            if low.less_than(sar) {
                next.is_rising = false;
                next.sar = self.ep;
                next.ep = low;
                next.af = self.start_af;
            } else if self.ep.less_than(high) {
                next.ep = high;
                next.af = self.raise_factor()?;
            }
        } else {
            if sar.less_than(high) {
                next.is_rising = true;
                next.sar = self.ep;
                next.ep = high;
                next.af = self.start_af;
            } else if low.less_than(self.ep) {
                next.ep = low;
                next.af = self.raise_factor()?;
            }
        }
        Some((next, Some(next.sar)))
    }
}

impl Default for ParabolicSAR {
    fn default() -> (r: ParabolicSAR)
        ensures
            r.wf(),
            r.state() == ParabolicSAR::spec_new(decimal(2, 2), decimal(2, 1), 5),
    {
        ParabolicSAR::new(IndicatorValue::scaled(2, 2), IndicatorValue::scaled(2, 1), 5)
    }
}

impl Indicator for ParabolicSAR {
    /// The high and the low.
    type Input = (IndicatorValue, IndicatorValue);

    type Output = Option<IndicatorValue>;

    type State = ParabolicSARState;

    closed spec fn wf(&self) -> bool {
        self.periods <= self.initialization_period
    }

    closed spec fn state(&self) -> ParabolicSARState {
        ParabolicSARState {
            sar: self.sar,
            ep: self.ep,
            af: self.af,
            max_af: self.max_af,
            start_af: self.start_af,
            is_rising: self.is_rising,
            periods: self.periods as nat,
            initialization_period: self.initialization_period as nat,
        }
    }

    open spec fn step(s: ParabolicSARState, input: (IndicatorValue, IndicatorValue)) -> Option<
        (ParabolicSARState, Option<IndicatorValue>),
    > {
        if s.periods < s.initialization_period {
            Some((Self::initialized(s, input.0, input.1), None))
        } else {
            match Self::moved_stop(s) {
                None => None,
                Some(sar) => match Self::trailed(s, sar, input.0, input.1) {
                    None => None,
                    Some(next) => Some((next, Some(next.sar))),
                },
            }
        }
    }

    open spec fn cleared(s: ParabolicSARState) -> ParabolicSARState {
        Self::spec_new(s.start_af, s.max_af, s.initialization_period)
    }

    open spec fn idle(s: ParabolicSARState) -> Option<IndicatorValue> {
        None
    }

    open spec fn ready(s: ParabolicSARState) -> bool {
        s.periods >= s.initialization_period
    }

    open spec fn available(out: Option<IndicatorValue>) -> bool {
        out.is_some()
    }

    open spec fn prompt() -> bool {
        true
    }

    proof fn lemma_warm_up(s: ParabolicSARState, input: (IndicatorValue, IndicatorValue)) {
    }

    proof fn lemma_step_keeps_cleared(s: ParabolicSARState, input: (IndicatorValue, IndicatorValue)) {
    }

    proof fn lemma_cleared_twice(s: ParabolicSARState) {
    }

    fn peek(&self, input: (IndicatorValue, IndicatorValue)) -> (r: Option<Option<IndicatorValue>>) {
        match self.advance(input) {
            Some((_, out)) => Some(out),
            None => None,
        }
    }

    fn next(&mut self, input: (IndicatorValue, IndicatorValue)) -> (out: Option<IndicatorValue>) {
        let (next, out) = self.advance(input).unwrap();
        *self = next;
        out
    }

    fn reset(&mut self) {
        self.sar = IndicatorValue::zero();
        self.ep = IndicatorValue::zero();
        self.af = self.start_af;
        self.is_rising = false;
        self.periods = 0;
    }

    fn duplicate(&self) -> (r: ParabolicSAR) {
        *self
    }

    fn idle_output(&self) -> (out: Option<IndicatorValue>) {
        None
    }
}

} // verus!
