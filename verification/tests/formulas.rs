use rust_decimal::prelude::FromPrimitive;
use rust_decimal::Decimal;
use technical_analysis::indicators::{
    AverageTrueRange, BollingerBands, BollingerBandsOutput, ChandeMomentumOscillator, CommodityChannelIndex,
    ExponentialMovingAverage, Indicator, KeltnerChannels, KeltnerChannelsOutput, MeanAbsDev,
    MedianAbsoluteStandardDeviation, MovingAverageConvergenceDivergence, MovingAverageConvergenceDivergenceOutput,
    PPOOutput, PercentagePriceOscillator, RelativeStrengthIndex, StandardDeviation, StochasticOscillator,
    StochasticOutput,
};
use technical_analysis::IndicatorValue;

fn iv(x: f64) -> IndicatorValue {
    let d = Decimal::from_f64(x).unwrap();
    IndicatorValue::from_parts(d.mantissa(), d.scale()).unwrap()
}

#[test]
fn exponential_average_weighs_the_newest_by_two_over_period_plus_one() {
    let mut ema = ExponentialMovingAverage::new(3);
    assert_eq!(ema.next(iv(8.0)), None);
    assert_eq!(ema.next(iv(4.0)), None);
    // 0.5 * 4 + 0.5 * 8 = 6, then 0.5 * 10 + 0.5 * 6 = 8
    assert_eq!(ema.next(iv(10.0)), Some(iv(8.0)));
    assert_eq!(ema.next(iv(0.0)), Some(iv(4.0)));
}

#[test]
fn true_range_looks_at_the_close_before() {
    let mut atr = AverageTrueRange::new(2);
    assert_eq!(atr.next((iv(10.0), iv(8.0), iv(9.0))), None);
    assert_eq!(atr.next((iv(12.0), iv(9.0), iv(11.0))), Some(iv(2.5)));
    // the low is 5 below the close before
    assert_eq!(atr.next((iv(7.0), iv(6.0), iv(6.5))), Some(iv(4.0)));
}

#[test]
fn chande_momentum_balances_rises_and_falls() {
    let mut cmo = ChandeMomentumOscillator::new(2);
    assert_eq!(cmo.next(iv(1.0)), None);
    assert_eq!(cmo.next(iv(2.0)), Some(iv(100.0)));
    assert_eq!(cmo.next(iv(3.0)), Some(iv(100.0)));
    assert_eq!(cmo.next(iv(2.0)), Some(iv(0.0)));
    assert_eq!(cmo.next(iv(0.0)), Some(iv(-100.0)));
}

#[test]
fn mean_absolute_deviation_is_the_mean_distance_from_the_mean() {
    let mut mad = MeanAbsDev::new(2);
    assert_eq!(mad.next(iv(1.0)), None);
    assert_eq!(mad.next(iv(3.0)), Some(iv(1.0)));
    assert_eq!(mad.next(iv(8.0)), Some(iv(2.5)));
}

#[test]
fn standard_deviation_divides_by_one_less_than_the_period() {
    let mut sd = StandardDeviation::new(3);
    assert_eq!(sd.next(iv(2.0)), None);
    assert_eq!(sd.next(iv(4.0)), None);
    assert_eq!(sd.next(iv(6.0)).unwrap().round_dp(10), iv(2.0));
}

#[test]
fn deviation_from_the_median_is_input_less_median() {
    let mut mad = MedianAbsoluteStandardDeviation::new(3);
    assert_eq!(mad.next(iv(5.0)), None);
    assert_eq!(mad.next(iv(1.0)), None);
    assert_eq!(mad.next(iv(9.0)), Some(iv(4.0)));
    assert_eq!(mad.next(iv(0.0)), Some(iv(-1.0)));
}

#[test]
fn relative_strength_has_its_boundary_values() {
    let mut up = RelativeStrengthIndex::new(2);
    assert_eq!(up.next(iv(1.0)), None);
    assert_eq!(up.next(iv(2.0)), None);
    assert_eq!(up.next(iv(3.0)), Some(iv(100.0)));
    let mut down = RelativeStrengthIndex::new(2);
    down.next(iv(3.0));
    down.next(iv(2.0));
    assert_eq!(down.next(iv(1.0)), Some(iv(0.0)));
    let mut flat = RelativeStrengthIndex::new(2);
    flat.next(iv(3.0));
    flat.next(iv(3.0));
    assert_eq!(flat.next(iv(3.0)), Some(iv(50.0)));
    let mut mixed = RelativeStrengthIndex::new(2);
    mixed.next(iv(2.0));
    mixed.next(iv(3.0));
    // gains 1, losses 1: 100 - 100 / (1 + 1)
    assert_eq!(mixed.next(iv(2.0)), Some(iv(50.0)));
    // gains 0.5 + 3 over 2, losses 0.5 over 2: 100 - 100 / (1 + 7)
    assert_eq!(mixed.next(iv(5.0)), Some(iv(87.5)));
}

#[test]
fn bands_lie_a_multiple_of_the_spread_around_the_average() {
    let mut bb = BollingerBands::new(2, 3);
    assert_eq!(bb.next(iv(50.0)), None);
    assert_eq!(
        bb.next(iv(50.0)),
        Some(BollingerBandsOutput { upper_band: iv(50.0), lower_band: iv(50.0) })
    );
    let mut kc = KeltnerChannels::new(1, 1, 2);
    assert_eq!(
        kc.next((iv(12.0), iv(9.0), iv(10.0))),
        Some(KeltnerChannelsOutput { middle_band: iv(10.0), upper_band: iv(16.0), lower_band: iv(4.0) })
    );
}

#[test]
fn commodity_channel_index_is_zero_without_deviation() {
    let mut cci = CommodityChannelIndex::new(2);
    assert_eq!(cci.next((iv(3.0), iv(3.0), iv(3.0))), None);
    assert_eq!(cci.next((iv(3.0), iv(3.0), iv(3.0))), Some(iv(0.0)));
    // typical 6, average 4.5, deviation 1.5: 1.5 / (0.015 * 1.5)
    assert_eq!(cci.next((iv(9.0), iv(3.0), iv(6.0))).unwrap().round_dp(10), iv(66.6666666667));
}

#[test]
fn the_signal_line_waits_for_both_averages() {
    let mut macd = MovingAverageConvergenceDivergence::new(1, 2, 1);
    assert_eq!(macd.next(iv(10.0)), None);
    // short 16, long 2/3 * 16 + 1/3 * 10 = 14
    let out = macd.next(iv(16.0)).unwrap();
    assert_eq!(
        MovingAverageConvergenceDivergenceOutput {
            macd_value: out.macd_value.round_dp(20),
            signal_value: out.signal_value.round_dp(20),
            histogram_value: out.histogram_value.round_dp(20),
        },
        MovingAverageConvergenceDivergenceOutput {
            macd_value: iv(2.0),
            signal_value: iv(2.0),
            histogram_value: iv(0.0),
        }
    );
    let mut ppo = PercentagePriceOscillator::new(1, 2, 1);
    assert_eq!(ppo.next(iv(10.0)), None);
    let out = ppo.next(iv(16.0)).unwrap();
    assert_eq!(
        PPOOutput {
            ppo_value: out.ppo_value.round_dp(10),
            signal_value: out.signal_value.round_dp(10),
            histogram_value: out.histogram_value.round_dp(10),
        },
        PPOOutput { ppo_value: iv(14.2857142857), signal_value: iv(14.2857142857), histogram_value: iv(0.0) }
    );
}

#[test]
fn stochastic_k_keeps_its_last_value_without_a_range() {
    let mut stoch = StochasticOscillator::new(1, 1);
    assert_eq!(stoch.next((iv(10.0), iv(10.0), iv(10.0))), Some(StochasticOutput { k: iv(50.0), d: iv(50.0) }));
    assert_eq!(stoch.next((iv(10.0), iv(6.0), iv(9.0))), Some(StochasticOutput { k: iv(75.0), d: iv(75.0) }));
    assert_eq!(stoch.next((iv(8.0), iv(8.0), iv(8.0))), Some(StochasticOutput { k: iv(75.0), d: iv(75.0) }));
}
