//! The streaming indicators and what they have in common.

use vstd::prelude::*;

pub mod aroon;
pub mod atr;
pub mod bollinger_bands;
pub mod cci;
pub mod cmf;
pub mod cmo;
pub mod donchian_channels;
pub mod ema;
pub mod high_low;
pub mod keltner_channels;
pub mod macd;
pub mod mean_abs_dev;
pub mod median_abs_dev;
pub mod obv;
pub mod parabolic_sar;
pub mod ppo;
pub mod roc;
pub mod rsi;
pub mod sma;
pub mod smm;
pub mod stdev;
pub mod stochastic_oscillator;
pub mod window;

pub use aroon::{Aroon, AroonOutput};
pub use atr::AverageTrueRange;
pub use bollinger_bands::{BollingerBands, BollingerBandsOutput};
pub use cci::CommodityChannelIndex;
pub use cmf::ChaikinMoneyFlow;
pub use cmo::ChandeMomentumOscillator;
pub use donchian_channels::{DonchianChannels, DonchianChannelsOutput};
pub use ema::ExponentialMovingAverage;
pub use high_low::{High, HighLow, HighLowOutput, HighOutput, Low, LowOutput};
pub use keltner_channels::{KeltnerChannels, KeltnerChannelsOutput};
pub use macd::{MovingAverageConvergenceDivergence, MovingAverageConvergenceDivergenceOutput};
pub use mean_abs_dev::MeanAbsDev;
pub use median_abs_dev::MedianAbsoluteStandardDeviation;
pub use obv::OnBalanceVolume;
pub use parabolic_sar::ParabolicSAR;
pub use ppo::{PPOOutput, PercentagePriceOscillator};
pub use roc::RateOfChange;
pub use rsi::RelativeStrengthIndex;
pub use sma::SimpleMovingAverage;
pub use smm::SimpleMovingMedian;
pub use stdev::StandardDeviation;
pub use stochastic_oscillator::{StochasticOscillator, StochasticOutput};

verus! {

/// An indicator that is fed one observation at a time.
///
/// An indicator is modelled by a state and a step function: from a state and
/// an observation to the next state and the output. A step is undefined
/// (`None`) where its arithmetic leaves the decimal type or divides by zero;
/// `next` asks that it be defined, `try_next` finds out.
pub trait Indicator: Sized {
    /// One observation.
    type Input;

    /// What one observation yields.
    type Output;

    /// The model of the indicator.
    type State;

    /// What holds of every indicator that the constructors hand out.
    spec fn wf(&self) -> bool;

    /// The state that the indicator is in.
    spec fn state(&self) -> Self::State;

    /// The next state and the output, where the step is defined.
    spec fn step(state: Self::State, input: Self::Input) -> Option<(Self::State, Self::Output)>;

    /// The state that `reset` leads to: the configuration is kept, the history forgotten.
    spec fn cleared(state: Self::State) -> Self::State;

    /// What a batch without observations yields.
    spec fn idle(state: Self::State) -> Self::Output;

    /// Whether the warm-up is over: enough observations were seen to report.
    spec fn ready(state: Self::State) -> bool;

    /// Whether an output reports something.
    spec fn available(out: Self::Output) -> bool;

    /// Whether the indicator, once ready, reports on every observation.
    spec fn prompt() -> bool;

    /// The warm-up ends once and for all: a ready indicator stays ready,
    /// nothing is reported before the indicator is ready, and a prompt
    /// indicator that is ready reports.
    proof fn lemma_warm_up(state: Self::State, input: Self::Input)
        requires
            Self::step(state, input).is_some(),
        ensures
            Self::ready(state) ==> Self::ready(Self::step(state, input).unwrap().0),
            Self::available(Self::step(state, input).unwrap().1) ==> Self::ready(
                Self::step(state, input).unwrap().0,
            ),
            Self::prompt() && Self::ready(state) ==> Self::available(Self::step(state, input).unwrap().1),
    ;

    /// A step does not change what `reset` leads to.
    proof fn lemma_step_keeps_cleared(state: Self::State, input: Self::Input)
        requires
            Self::step(state, input).is_some(),
        ensures
            Self::cleared(Self::step(state, input).unwrap().0) == Self::cleared(state),
    ;

    /// Resetting twice is resetting once.
    proof fn lemma_cleared_twice(state: Self::State)
        ensures
            Self::cleared(Self::cleared(state)) == Self::cleared(state),
    ;

    /// The output that `next` would give, without feeding the observation;
    /// `None` where the step is undefined.
    fn peek(&self, input: Self::Input) -> (r: Option<Self::Output>)
        requires
            self.wf(),
        ensures
            r == match Self::step(self.state(), input) {
                Some((_, out)) => Some(out),
                None => None,
            },
    ;

    /// Feeds one observation.
    fn next(&mut self, input: Self::Input) -> (out: Self::Output)
        requires
            old(self).wf(),
            Self::step(old(self).state(), input).is_some(),
        ensures
            final(self).wf(),
            Self::step(old(self).state(), input) == Some((final(self).state(), out)),
    ;

    /// Forgets the history.
    fn reset(&mut self)
        requires
            old(self).wf(),
        ensures
            final(self).wf(),
            final(self).state() == Self::cleared(old(self).state()),
    ;

    /// An indicator in the same state.
    fn duplicate(&self) -> (r: Self)
        requires
            self.wf(),
        ensures
            r.wf(),
            r.state() == self.state(),
    ;

    /// What a batch without observations yields.
    fn idle_output(&self) -> (out: Self::Output)
        requires
            self.wf(),
        ensures
            out == Self::idle(self.state()),
    ;
}

/// The state and the last output after the observations were fed in order,
/// where every step is defined.
pub open spec fn run<I: Indicator>(state: I::State, inputs: Seq<I::Input>) -> Option<(I::State, I::Output)>
    decreases inputs.len(),
{
    if inputs.len() == 0 {
        Some((state, I::idle(state)))
    } else {
        match run::<I>(state, inputs.drop_last()) {
            Some((mid, _)) => I::step(mid, inputs.last()),
            None => None,
        }
    }
}

/// Feeding an indicator without a precondition, and in batches. Every
/// indicator whose observations can be copied has it.
pub trait Feed: Indicator where Self::Input: Copy {
    /// Feeds one observation where the step is defined, and otherwise leaves
    /// the indicator as it is and returns `None`.
    fn try_next(&mut self, input: Self::Input) -> (r: Option<Self::Output>)
        requires
            old(self).wf(),
        ensures
            final(self).wf(),
            match Self::step(old(self).state(), input) {
                Some((s, out)) => r == Some(out) && final(self).state() == s,
                None => r.is_none() && final(self).state() == old(self).state(),
            },
    {
        if self.peek(input).is_some() {
            Some(self.next(input))
        } else {
            None
        }
    }

    /// Feeds the observations in order and returns the last output.
    fn next_chunk(&mut self, input: &[Self::Input]) -> (out: Self::Output)
        requires
            old(self).wf(),
            run::<Self>(old(self).state(), input@).is_some(),
        ensures
            final(self).wf(),
            run::<Self>(old(self).state(), input@) == Some((final(self).state(), out)),
    {
        let mut out = self.idle_output();
        let mut i: usize = 0;
        while i < input.len()
            invariant
                i <= input@.len(),
                self.wf(),
                run::<Self>(old(self).state(), input@).is_some(),
                run::<Self>(old(self).state(), input@.take(i as int)) == Some((self.state(), out)),
            decreases input@.len() - i,
        {
            proof {
                lemma_run_prefix::<Self>(old(self).state(), input@, i as int + 1);
                lemma_run_unfold::<Self>(old(self).state(), input@, i as int);
            }
            out = self.next(input[i]);
            i = i + 1;
        }
        assert(input@.take(i as int) =~= input@);
        out
    }

    /// Whether every step of a batch is defined.
    fn can_next_chunk(&self, input: &[Self::Input]) -> (b: bool)
        requires
            self.wf(),
        ensures
            b == run::<Self>(self.state(), input@).is_some(),
    {
        let mut probe = self.duplicate();
        let mut i: usize = 0;
        while i < input.len()
            invariant
                i <= input@.len(),
                probe.wf(),
                run::<Self>(self.state(), input@.take(i as int)).is_some(),
                run::<Self>(self.state(), input@.take(i as int)).unwrap().0 == probe.state(),
            decreases input@.len() - i,
        {
            proof {
                lemma_run_unfold::<Self>(self.state(), input@, i as int);
            }
            if probe.peek(input[i]).is_none() {
                proof {
                    if run::<Self>(self.state(), input@).is_some() {
                        lemma_run_prefix::<Self>(self.state(), input@, i as int + 1);
                    }
                }
                return false;
            }
            probe.next(input[i]);
            i = i + 1;
        }
        assert(input@.take(i as int) =~= input@);
        true
    }

    /// Feeds the observations in order and returns the last output where
    /// every step is defined, and otherwise leaves the indicator as it is and
    /// returns `None`.
    fn try_next_chunk(&mut self, input: &[Self::Input]) -> (r: Option<Self::Output>)
        requires
            old(self).wf(),
        ensures
            final(self).wf(),
            match run::<Self>(old(self).state(), input@) {
                Some((s, out)) => r == Some(out) && final(self).state() == s,
                None => r.is_none() && final(self).state() == old(self).state(),
            },
    {
        if self.can_next_chunk(input) {
            Some(self.next_chunk(input))
        } else {
            None
        }
    }
}

impl<I: Indicator> Feed for I where I::Input: Copy {
}

/// Feeding `n + 1` observations is feeding `n` and then one more.
pub proof fn lemma_run_unfold<I: Indicator>(state: I::State, inputs: Seq<I::Input>, n: int)
    requires
        0 <= n < inputs.len(),
    ensures
        run::<I>(state, inputs.take(n + 1)) == match run::<I>(state, inputs.take(n)) {
            Some((mid, _)) => I::step(mid, inputs[n]),
            None => None,
        },
{
    assert(inputs.take(n + 1).drop_last() =~= inputs.take(n));
    assert(inputs.take(n + 1).last() == inputs[n]);
    assert(inputs.take(n + 1).len() > 0);
}

/// Where a batch can be fed, so can each of its beginnings.
pub proof fn lemma_run_prefix<I: Indicator>(state: I::State, inputs: Seq<I::Input>, n: int)
    requires
        0 <= n <= inputs.len(),
        run::<I>(state, inputs).is_some(),
    ensures
        run::<I>(state, inputs.take(n)).is_some(),
    decreases inputs.len(),
{
    if n == inputs.len() {
        assert(inputs.take(n) =~= inputs);
    } else {
        lemma_run_prefix::<I>(state, inputs.drop_last(), n);
        assert(inputs.drop_last().take(n) =~= inputs.take(n));
    }
}

/// Whatever was fed since, `reset` leads to the same state.
pub proof fn lemma_run_keeps_cleared<I: Indicator>(state: I::State, inputs: Seq<I::Input>)
    requires
        run::<I>(state, inputs).is_some(),
    ensures
        I::cleared(run::<I>(state, inputs).unwrap().0) == I::cleared(state),
    decreases inputs.len(),
{
    if inputs.len() > 0 {
        lemma_run_keeps_cleared::<I>(state, inputs.drop_last());
        I::lemma_step_keeps_cleared(run::<I>(state, inputs.drop_last()).unwrap().0, inputs.last());
    }
}

/// Whatever is fed to a ready indicator, it stays ready.
pub proof fn lemma_ready_is_absorbing<I: Indicator>(state: I::State, inputs: Seq<I::Input>)
    requires
        I::ready(state),
        run::<I>(state, inputs).is_some(),
    ensures
        I::ready(run::<I>(state, inputs).unwrap().0),
    decreases inputs.len(),
{
    if inputs.len() > 0 {
        lemma_ready_is_absorbing::<I>(state, inputs.drop_last());
        I::lemma_warm_up(run::<I>(state, inputs.drop_last()).unwrap().0, inputs.last());
    }
}

/// An indicator that was reset answers a batch as it did when it was new:
/// from a state that a reset leaves unchanged, feed anything, reset, and every
/// later batch gives the state and the output that it gives from the first state.
pub proof fn lemma_reset_replays<I: Indicator>(
    fresh: I::State,
    history: Seq<I::Input>,
    inputs: Seq<I::Input>,
)
    requires
        I::cleared(fresh) == fresh,
        run::<I>(fresh, history).is_some(),
    ensures
        run::<I>(I::cleared(run::<I>(fresh, history).unwrap().0), inputs) == run::<I>(fresh, inputs),
{
    lemma_run_keeps_cleared::<I>(fresh, history);
}

} // verus!
