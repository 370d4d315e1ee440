//! On-balance volume.

use vstd::prelude::*;
use crate::indicator_value::{plain_difference, plain_sum, whole, IndicatorValue};
use crate::indicators::Indicator;

verus! {

/// The volume that went with rising prices less the volume that went with
/// falling prices: each observation adds its volume where the price rose
/// since the one before, subtracts it where the price fell, and changes
/// nothing where the price stayed or there was no observation before.
#[derive(Clone, Copy)]
pub struct OnBalanceVolume {
    prev_price: Option<IndicatorValue>,
    obv: IndicatorValue,
}

/// The model of an [`OnBalanceVolume`].
pub struct OnBalanceVolumeState {
    /// The price before, if there was one.
    pub prev_price: Option<IndicatorValue>,
    /// The balance so far.
    pub obv: IndicatorValue,
}

impl OnBalanceVolume {
    /// The state of a new indicator.
    pub open spec fn spec_new() -> OnBalanceVolumeState {
        OnBalanceVolumeState { prev_price: None, obv: whole(0) }
    }

    /// The balance after an observation.
    pub open spec fn balance(s: OnBalanceVolumeState, price: IndicatorValue, volume: IndicatorValue) -> Option<
        IndicatorValue,
    > {
        match s.prev_price {
            None => Some(s.obv),
            Some(previous) => if previous.spec_lt(price) {
                IndicatorValue::spec_sum(s.obv, volume)
            } else if price.spec_lt(previous) {
                IndicatorValue::spec_difference(s.obv, volume)
            } else {
                Some(s.obv)
            },
        }
    }

    /// A new indicator with a balance of zero.
    pub fn new() -> (r: OnBalanceVolume)
        ensures
            r.wf(),
            Self::cleared(r.state()) == r.state(),
            r.state() == Self::spec_new(),
    {
        OnBalanceVolume { prev_price: None, obv: IndicatorValue::zero() }
    }
}

impl Default for OnBalanceVolume {
    fn default() -> (r: OnBalanceVolume)
        ensures
            r.wf(),
            r.state() == OnBalanceVolume::spec_new(),
    {
        OnBalanceVolume::new()
    }
}

impl Indicator for OnBalanceVolume {
    /// The price and the volume.
    type Input = (IndicatorValue, IndicatorValue);

    type Output = IndicatorValue;

    type State = OnBalanceVolumeState;

    closed spec fn wf(&self) -> bool {
        true
    }

    closed spec fn state(&self) -> OnBalanceVolumeState {
        OnBalanceVolumeState { prev_price: self.prev_price, obv: self.obv }
    }

    open spec fn step(s: OnBalanceVolumeState, input: (IndicatorValue, IndicatorValue)) -> Option<
        (OnBalanceVolumeState, IndicatorValue),
    > {
        match Self::balance(s, input.0, input.1) {
            Some(obv) => Some((OnBalanceVolumeState { prev_price: Some(input.0), obv }, obv)),
            None => None,
        }
    }

    open spec fn cleared(s: OnBalanceVolumeState) -> OnBalanceVolumeState {
        Self::spec_new()
    }

    open spec fn idle(s: OnBalanceVolumeState) -> IndicatorValue {
        s.obv
    }

    open spec fn ready(s: OnBalanceVolumeState) -> bool {
        true
    }

    open spec fn available(out: IndicatorValue) -> bool {
        true
    }

    open spec fn prompt() -> bool {
        true
    }

    proof fn lemma_warm_up(s: OnBalanceVolumeState, input: (IndicatorValue, IndicatorValue)) {
    }

    proof fn lemma_step_keeps_cleared(s: OnBalanceVolumeState, input: (IndicatorValue, IndicatorValue)) {
    }

    proof fn lemma_cleared_twice(s: OnBalanceVolumeState) {
    }

    fn peek(&self, input: (IndicatorValue, IndicatorValue)) -> (r: Option<IndicatorValue>) {
        match self.prev_price {
            None => Some(self.obv),
            Some(previous) => {
                if previous.less_than(input.0) {
                    plain_sum(self.obv, input.1)
                } else if input.0.less_than(previous) {
                    plain_difference(self.obv, input.1)
                } else {
                    Some(self.obv)
                }
            },
        }
    }

    fn next(&mut self, input: (IndicatorValue, IndicatorValue)) -> (out: IndicatorValue) {
        let obv = self.peek(input).unwrap();
        self.prev_price = Some(input.0);
        self.obv = obv;
        obv
    }

    fn reset(&mut self) {
        self.prev_price = None;
        self.obv = IndicatorValue::zero();
    }

    fn duplicate(&self) -> (r: OnBalanceVolume) {
        *self
    }

    fn idle_output(&self) -> (out: IndicatorValue) {
        self.obv
    }
}

} // verus!
