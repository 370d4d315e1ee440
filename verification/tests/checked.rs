use rust_decimal::prelude::FromPrimitive;
use rust_decimal::Decimal;
use technical_analysis::indicators::{
    Aroon, AroonOutput, ChaikinMoneyFlow, DonchianChannels, DonchianChannelsOutput, ExponentialMovingAverage, Feed,
    Indicator, OnBalanceVolume, ParabolicSAR, PercentagePriceOscillator, RateOfChange, SimpleMovingAverage,
    StandardDeviation,
};
use technical_analysis::IndicatorValue;

fn iv(x: f64) -> IndicatorValue {
    let d = Decimal::from_f64(x).unwrap();
    IndicatorValue::from_parts(d.mantissa(), d.scale()).unwrap()
}

#[test]
fn an_undefined_step_is_refused_and_changes_nothing() {
    let mut sma = SimpleMovingAverage::new(2);
    assert_eq!(sma.try_next(IndicatorValue::max()), Some(None));
    assert_eq!(sma.peek(IndicatorValue::max()), None);
    assert_eq!(sma.try_next(IndicatorValue::max()), None);
    assert_eq!(sma.try_next(iv(0.0)), Some(Some(IndicatorValue::max() / iv(2.0))));
    assert_eq!(sma.try_next(iv(4.0)), Some(Some(iv(2.0))));
}

#[test]
fn a_division_by_zero_is_an_undefined_step() {
    let mut ppo = PercentagePriceOscillator::new(1, 1, 1);
    assert_eq!(ppo.peek(iv(0.0)), None);
    assert_eq!(ppo.try_next(iv(0.0)), None);
    let out = ppo.try_next(iv(2.0)).unwrap().unwrap();
    assert_eq!(out.ppo_value, iv(0.0));

    let mut cmf = ChaikinMoneyFlow::new(1);
    assert_eq!(cmf.try_next((iv(2.0), iv(1.0), iv(1.5), iv(0.0))), None);
    assert_eq!(cmf.try_next((iv(2.0), iv(1.0), iv(2.0), iv(10.0))), Some(Some(iv(1.0))));
}

#[test]
fn a_batch_is_fed_whole_or_not_at_all() {
    let mut sma = SimpleMovingAverage::new(2);
    let bad = [iv(1.0), IndicatorValue::max(), IndicatorValue::max()];
    assert!(!sma.can_next_chunk(&bad));
    assert_eq!(sma.try_next_chunk(&bad), None);
    let good = [iv(1.0), iv(3.0)];
    assert!(sma.can_next_chunk(&good));
    assert_eq!(sma.try_next_chunk(&good), Some(Some(iv(2.0))));
    assert_eq!(sma.try_next_chunk(&[]), Some(None));
}

#[test]
fn the_deviation_of_two_values() {
    let mut sd = StandardDeviation::new(2);
    assert_eq!(sd.try_next(iv(1.0)), Some(None));
    assert_eq!(sd.try_next(iv(3.0)).unwrap().unwrap().round_dp(6), iv(1.414214));
    assert_eq!(sd.try_next(iv(3.0)).unwrap().unwrap().round_dp(6), iv(0.0));
}

#[test]
fn a_copy_goes_its_own_way() {
    let mut ema = ExponentialMovingAverage::new(2);
    ema.next(iv(1.0));
    let mut copy = ema.duplicate();
    assert_eq!(copy.next(iv(4.0)), ema.next(iv(4.0)));
    copy.next(iv(100.0));
    assert_eq!(ema.peek(iv(4.0)), Some(ema.duplicate().next(iv(4.0))));
    ema.set_ema(iv(10.0));
    assert_eq!(ema.next(iv(10.0)), Some(iv(10.0)));
}

#[test]
fn rate_of_change_is_in_percent_of_the_old_value() {
    let mut roc = RateOfChange::new(2);
    assert_eq!(roc.next(iv(100.0)), None);
    assert_eq!(roc.next(iv(0.0)), None);
    assert_eq!(roc.next(iv(110.0)), Some(iv(10.0)));
    assert_eq!(roc.next(iv(50.0)), Some(iv(0.0)));
    assert_eq!(roc.next(iv(55.0)), Some(iv(-50.0)));
}

#[test]
fn aroon_counts_back_to_the_extremes() {
    let mut aroon = Aroon::new(4);
    let data = [(4.0, 1.0), (3.0, 2.0), (2.0, 1.5), (1.0, 1.2)];
    let mut out = None;
    for (h, l) in data {
        out = aroon.next((iv(h), iv(l)));
    }
    assert_eq!(out, Some(AroonOutput { aroon_up: iv(25.0), aroon_down: iv(25.0) }));
    let out = aroon.next((iv(0.5), iv(0.1)));
    assert_eq!(out, Some(AroonOutput { aroon_up: iv(25.0), aroon_down: iv(100.0) }));
}

#[test]
fn donchian_bands_are_the_extremes_and_their_midpoint() {
    let mut donchian = DonchianChannels::new(2);
    assert_eq!(donchian.next((iv(10.0), iv(4.0))), None);
    assert_eq!(
        donchian.next((iv(8.0), iv(6.0))),
        Some(DonchianChannelsOutput { upper_band: iv(10.0), lower_band: iv(4.0), middle_band: iv(7.0) })
    );
    assert_eq!(
        donchian.next((iv(9.0), iv(5.0))),
        Some(DonchianChannelsOutput { upper_band: iv(9.0), lower_band: iv(5.0), middle_band: iv(7.0) })
    );
}

#[test]
fn on_balance_volume_follows_the_sign_of_the_change() {
    let mut obv = OnBalanceVolume::new();
    assert_eq!(obv.next((iv(10.0), iv(5.0))), iv(0.0));
    assert_eq!(obv.next((iv(11.0), iv(7.0))), iv(7.0));
    assert_eq!(obv.next((iv(11.0), iv(9.0))), iv(7.0));
    assert_eq!(obv.next((iv(9.0), iv(10.0))), iv(-3.0));
}

#[test]
fn the_acceleration_factor_grows_up_to_its_maximum() {
    let mut psar = ParabolicSAR::new(iv(0.1), iv(0.25), 1);
    assert_eq!(psar.next((iv(10.0), iv(5.0))), None);
    // rising, stop 5, extreme 10, factor 0.1
    assert_eq!(psar.next((iv(11.0), iv(9.0))), Some(iv(5.5)));
    // extreme 11, factor 0.2
    assert_eq!(psar.next((iv(12.0), iv(9.0))), Some(iv(6.6)));
    // extreme 12, factor 0.25, not 0.3
    assert_eq!(psar.next((iv(13.0), iv(9.0))), Some(iv(7.95)));
    // the low crosses the stop: the stop jumps to the extreme, the factor starts anew
    assert_eq!(psar.next((iv(13.0), iv(1.0))), Some(iv(13.0)));
    assert_eq!(psar.next((iv(11.0), iv(0.5))), Some(iv(11.8)));
}
