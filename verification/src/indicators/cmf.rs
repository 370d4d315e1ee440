//! Chaikin money flow.

use vstd::prelude::*;
use crate::circular_buffer::CircularBuffer;
use crate::indicator_value::{
    difference_of, plain_difference, plain_product, plain_quotient, product_of, quotient_of, whole,
    IndicatorValue,
};
use crate::indicators::window::{roll_sum, rolled_sum};
use crate::indicators::Indicator;

verus! {

/// The money flow volume of the last `period` observations over their volume.
///
/// The money flow volume of an observation is
/// `((close - low) - (high - close)) / (high - low) * volume`. An observation
/// whose high equals its low is skipped: it changes nothing and yields nothing.
pub struct ChaikinMoneyFlow {
    buffer_mfv: CircularBuffer,
    buffer_volume: CircularBuffer,
    running_sum_mfv: IndicatorValue,
    running_sum_volume: IndicatorValue,
}

/// The model of a [`ChaikinMoneyFlow`].
pub struct ChaikinMoneyFlowState {
    /// The money flow volumes kept, newest first.
    pub flows: Seq<IndicatorValue>,
    /// The volumes kept, newest first.
    pub volumes: Seq<IndicatorValue>,
    /// The period.
    pub capacity: nat,
    /// The running sum of the money flow volumes.
    pub sum_flow: IndicatorValue,
    /// The running sum of the volumes.
    pub sum_volume: IndicatorValue,
}

impl ChaikinMoneyFlow {
    /// The state of a new indicator.
    pub open spec fn spec_new(period: nat) -> ChaikinMoneyFlowState {
        ChaikinMoneyFlowState {
            flows: Seq::empty(),
            volumes: Seq::empty(),
            capacity: period,
            sum_flow: whole(0),
            sum_volume: whole(0),
        }
    }

    /// The money flow volume of an observation.
    pub open spec fn money_flow_volume(
        high: IndicatorValue,
        low: IndicatorValue,
        close: IndicatorValue,
        volume: IndicatorValue,
    ) -> Option<IndicatorValue> {
        product_of(
            quotient_of(
                difference_of(
                    IndicatorValue::spec_difference(close, low),
                    IndicatorValue::spec_difference(high, close),
                ),
                IndicatorValue::spec_difference(high, low),
            ),
            Some(volume),
        )
    }

    /// A new indicator over `period` observations.
    pub fn new(period: usize) -> (r: ChaikinMoneyFlow)
        requires
            period > 0,
        ensures
            r.wf(),
            Self::cleared(r.state()) == r.state(),
            r.state() == Self::spec_new(period as nat),
    {
        ChaikinMoneyFlow {
            buffer_mfv: CircularBuffer::new(period),
            buffer_volume: CircularBuffer::new(period),
            running_sum_mfv: IndicatorValue::zero(),
            running_sum_volume: IndicatorValue::zero(),
        }
    }

    /// The money flow volume, the new sums and the output for an observation
    /// that is not skipped, where the step is defined.
    fn plan(&self, input: (IndicatorValue, IndicatorValue, IndicatorValue, IndicatorValue)) -> (r: Option<
        (IndicatorValue, IndicatorValue, IndicatorValue, Option<IndicatorValue>),
    >)
        requires
            self.wf(),
            !input.0.spec_eq(input.1),
        ensures
            match Self::step(self.state(), input) {
                Some((s, out)) => r == Some((s.flows[0], s.sum_flow, s.sum_volume, out)),
                None => r.is_none(),
            },
    {
        proof {
            self.buffer_mfv.lemma_len();
            self.buffer_volume.lemma_len();
        }
        let (high, low, close, volume) = input;
        let position = plain_difference(plain_difference(close, low)?, plain_difference(high, close)?)?;
        let share = plain_quotient(position, plain_difference(high, low)?)?;
        let flow = plain_product(share, volume)?;
        let sum_flow = roll_sum(self.running_sum_mfv, flow, self.buffer_mfv.next_evicted())?;
        let sum_volume = roll_sum(self.running_sum_volume, volume, self.buffer_volume.next_evicted())?;
        if self.buffer_mfv.len() >= self.buffer_mfv.capacity() - 1 {
            let cmf = plain_quotient(sum_flow, sum_volume)?;
            Some((flow, sum_flow, sum_volume, Some(cmf)))
        } else {
            Some((flow, sum_flow, sum_volume, None))
        }
    }
}

impl Default for ChaikinMoneyFlow {
    fn default() -> (r: ChaikinMoneyFlow)
        ensures
            r.wf(),
            r.state() == ChaikinMoneyFlow::spec_new(20),
    {
        ChaikinMoneyFlow::new(20)
    }
}

impl Indicator for ChaikinMoneyFlow {
    /// The high, the low, the close and the volume.
    type Input = (IndicatorValue, IndicatorValue, IndicatorValue, IndicatorValue);

    type Output = Option<IndicatorValue>;

    type State = ChaikinMoneyFlowState;

    closed spec fn wf(&self) -> bool {
        &&& self.buffer_mfv.wf()
        &&& self.buffer_volume.wf()
        &&& self.buffer_mfv.spec_capacity() == self.buffer_volume.spec_capacity()
        &&& self.buffer_mfv@.len() == self.buffer_volume@.len()
    }

    closed spec fn state(&self) -> ChaikinMoneyFlowState {
        ChaikinMoneyFlowState {
            flows: self.buffer_mfv@,
            volumes: self.buffer_volume@,
            capacity: self.buffer_mfv.spec_capacity(),
            sum_flow: self.running_sum_mfv,
            sum_volume: self.running_sum_volume,
        }
    }

    open spec fn step(
        s: ChaikinMoneyFlowState,
        input: (IndicatorValue, IndicatorValue, IndicatorValue, IndicatorValue),
    ) -> Option<(ChaikinMoneyFlowState, Option<IndicatorValue>)> {
        if input.0.spec_eq(input.1) {
            Some((s, None))
        } else {
            match Self::money_flow_volume(input.0, input.1, input.2, input.3) {
                None => None,
                Some(flow) => match (
                    rolled_sum(s.sum_flow, flow, CircularBuffer::evicted(s.flows, s.capacity)),
                    rolled_sum(s.sum_volume, input.3, CircularBuffer::evicted(s.volumes, s.capacity)),
                ) {
                    (Some(sum_flow), Some(sum_volume)) => {
                        let flows = CircularBuffer::pushed(s.flows, s.capacity, flow);
                        let volumes = CircularBuffer::pushed(s.volumes, s.capacity, input.3);
                        let next = ChaikinMoneyFlowState { flows, volumes, sum_flow, sum_volume, ..s };
                        if flows.len() >= s.capacity {
                            match IndicatorValue::spec_quotient(sum_flow, sum_volume) {
                                None => None,
                                Some(cmf) => Some((next, Some(cmf))),
                            }
                        } else {
                            Some((next, None))
                        }
                    },
                    _ => None,
                },
            }
        }
    }

    open spec fn cleared(s: ChaikinMoneyFlowState) -> ChaikinMoneyFlowState {
        Self::spec_new(s.capacity)
    }

    open spec fn idle(s: ChaikinMoneyFlowState) -> Option<IndicatorValue> {
        None
    }

    open spec fn ready(s: ChaikinMoneyFlowState) -> bool {
        s.flows.len() >= s.capacity
    }

    open spec fn available(out: Option<IndicatorValue>) -> bool {
        out.is_some()
    }

    open spec fn prompt() -> bool {
        false
    }

    proof fn lemma_warm_up(s: ChaikinMoneyFlowState, input: (IndicatorValue, IndicatorValue, IndicatorValue, IndicatorValue)) {
    }

    proof fn lemma_step_keeps_cleared(
        s: ChaikinMoneyFlowState,
        input: (IndicatorValue, IndicatorValue, IndicatorValue, IndicatorValue),
    ) {
    }

    proof fn lemma_cleared_twice(s: ChaikinMoneyFlowState) {
    }

    fn peek(&self, input: (IndicatorValue, IndicatorValue, IndicatorValue, IndicatorValue)) -> (r: Option<
        Option<IndicatorValue>,
    >) {
        if input.0.equals(input.1) {
            return Some(None);
        }
        match self.plan(input) {
            Some((_, _, _, out)) => Some(out),
            None => None,
        }
    }

    fn next(&mut self, input: (IndicatorValue, IndicatorValue, IndicatorValue, IndicatorValue)) -> (out: Option<
        IndicatorValue,
    >) {
        if input.0.equals(input.1) {
            return None;
        }
        let (flow, sum_flow, sum_volume, out) = self.plan(input).unwrap();
        proof {
            self.buffer_mfv.lemma_len();
            self.buffer_volume.lemma_len();
        }
        self.buffer_mfv.push(flow);
        self.buffer_volume.push(input.3);
        self.running_sum_mfv = sum_flow;
        self.running_sum_volume = sum_volume;
        out
    }

    fn reset(&mut self) {
        self.buffer_mfv.clear();
        self.buffer_volume.clear();
        self.running_sum_mfv = IndicatorValue::zero();
        self.running_sum_volume = IndicatorValue::zero();
    }

    fn duplicate(&self) -> (r: ChaikinMoneyFlow) {
        ChaikinMoneyFlow {
            buffer_mfv: self.buffer_mfv.duplicate(),
            buffer_volume: self.buffer_volume.duplicate(),
            running_sum_mfv: self.running_sum_mfv,
            running_sum_volume: self.running_sum_volume,
        }
    }

    fn idle_output(&self) -> (out: Option<IndicatorValue>) {
        None
    }
}

} // verus!
