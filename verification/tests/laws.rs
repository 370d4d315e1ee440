use rust_decimal::prelude::{FromPrimitive, ToPrimitive};
use rust_decimal::Decimal;
use technical_analysis::indicators::{
    Aroon, AverageTrueRange, BollingerBands, ChaikinMoneyFlow, ChandeMomentumOscillator, CommodityChannelIndex,
    DonchianChannels, ExponentialMovingAverage, Feed, High, HighLow, Indicator, KeltnerChannels, Low, MeanAbsDev,
    MedianAbsoluteStandardDeviation, MovingAverageConvergenceDivergence, OnBalanceVolume, ParabolicSAR,
    PercentagePriceOscillator, RateOfChange, RelativeStrengthIndex, SimpleMovingAverage, SimpleMovingMedian,
    StandardDeviation, StochasticOscillator,
};
use technical_analysis::{CircularBuffer, IndicatorValue};

fn iv(x: f64) -> IndicatorValue {
    let d = Decimal::from_f64(x).unwrap();
    IndicatorValue::from_parts(d.mantissa(), d.scale()).unwrap()
}

fn prices() -> Vec<f64> {
    vec![
        44.34, 44.09, 44.15, 43.61, 44.33, 44.83, 45.10, 45.42, 45.84, 46.08, 45.89, 46.03, 45.61, 46.28, 46.28,
        46.0, 45.75, 46.15, 46.35, 46.55, 46.75, 46.95, 47.15, 47.35, 47.55, 47.75, 47.95, 48.15, 48.35, 48.55,
        48.75, 48.95, 49.15, 49.35, 49.55, 49.75, 49.95, 50.15, 50.35, 50.55,
    ]
}

fn singles() -> Vec<IndicatorValue> {
    prices().into_iter().map(iv).collect()
}

fn pairs() -> Vec<(IndicatorValue, IndicatorValue)> {
    prices().into_iter().map(|p| (iv(p + 0.5), iv(p - 0.25))).collect()
}

fn triples() -> Vec<(IndicatorValue, IndicatorValue, IndicatorValue)> {
    prices().into_iter().map(|p| (iv(p + 0.5), iv(p - 0.25), iv(p))).collect()
}

fn quads() -> Vec<(IndicatorValue, IndicatorValue, IndicatorValue, IndicatorValue)> {
    prices().into_iter().enumerate().map(|(i, p)| (iv(p + 0.5), iv(p - 0.25), iv(p), iv(100.0 + i as f64))).collect()
}

fn outputs<I: Indicator>(indicator: &mut I, inputs: &[I::Input]) -> Vec<I::Output>
where
    I::Input: Copy,
{
    inputs.iter().map(|x| indicator.next(*x)).collect()
}

fn replays<I: Indicator>(mut fresh: I, mut used: I, inputs: &[I::Input])
where
    I::Input: Copy,
    I::Output: PartialEq + std::fmt::Debug,
{
    let first = outputs(&mut fresh, inputs);
    outputs(&mut used, &inputs[..inputs.len() / 2]);
    used.reset();
    assert_eq!(outputs(&mut used, inputs), first);
    fresh.reset();
    assert_eq!(outputs(&mut fresh, inputs), first);
}

#[test]
fn a_reset_indicator_answers_as_a_new_one() {
    replays(SimpleMovingAverage::new(5), SimpleMovingAverage::new(5), &singles());
    replays(ExponentialMovingAverage::new(5), ExponentialMovingAverage::new(5), &singles());
    replays(StandardDeviation::new(5), StandardDeviation::new(5), &singles());
    replays(RelativeStrengthIndex::new(5), RelativeStrengthIndex::new(5), &singles());
    replays(ChandeMomentumOscillator::new(5), ChandeMomentumOscillator::new(5), &singles());
    replays(RateOfChange::new(5), RateOfChange::new(5), &singles());
    replays(MeanAbsDev::new(5), MeanAbsDev::new(5), &singles());
    replays(SimpleMovingMedian::new(4), SimpleMovingMedian::new(4), &singles());
    replays(MedianAbsoluteStandardDeviation::new(5), MedianAbsoluteStandardDeviation::new(5), &singles());
    replays(High::new(5), High::new(5), &singles());
    replays(Low::new(5), Low::new(5), &singles());
    replays(HighLow::new(5), HighLow::new(5), &singles());
    replays(BollingerBands::new(5, 2), BollingerBands::new(5, 2), &singles());
    replays(
        MovingAverageConvergenceDivergence::new(3, 6, 4),
        MovingAverageConvergenceDivergence::new(3, 6, 4),
        &singles(),
    );
    replays(PercentagePriceOscillator::new(3, 6, 4), PercentagePriceOscillator::new(3, 6, 4), &singles());
    replays(Aroon::new(5), Aroon::new(5), &pairs());
    replays(DonchianChannels::new(5), DonchianChannels::new(5), &pairs());
    replays(OnBalanceVolume::new(), OnBalanceVolume::new(), &pairs());
    replays(
        ParabolicSAR::new(iv(0.03), iv(0.2), 5),
        ParabolicSAR::new(iv(0.03), iv(0.2), 5),
        &pairs(),
    );
    replays(AverageTrueRange::new(5), AverageTrueRange::new(5), &triples());
    replays(CommodityChannelIndex::new(5), CommodityChannelIndex::new(5), &triples());
    replays(KeltnerChannels::new(5, 4, 2), KeltnerChannels::new(5, 4, 2), &triples());
    replays(StochasticOscillator::new(5, 3), StochasticOscillator::new(5, 3), &triples());
    replays(ChaikinMoneyFlow::new(5), ChaikinMoneyFlow::new(5), &quads());
}

#[test]
fn a_batch_is_its_observations_in_order() {
    let inputs = singles();
    let mut one = RelativeStrengthIndex::new(14);
    let mut all = RelativeStrengthIndex::new(14);
    let mut last = None;
    for x in &inputs {
        last = one.next(*x);
    }
    assert_eq!(all.next_chunk(&inputs), last);
    assert_eq!(all.next_chunk(&[]), None);
    let mut obv = OnBalanceVolume::new();
    obv.next_chunk(&pairs()[..5]);
    let before = obv.next_chunk(&[]);
    assert_eq!(obv.next_chunk(&[]), before);
}

#[test]
fn a_full_buffer_stays_full_and_returns_the_oldest() {
    for capacity in 1..6usize {
        let mut buffer = CircularBuffer::new(capacity);
        for i in 0..capacity {
            assert!(!buffer.is_full());
            assert_eq!(buffer.len(), i);
            assert_eq!(buffer.push(iv(i as f64)), None);
            assert_eq!(buffer.get(0), Some(&iv(i as f64)));
        }
        assert!(buffer.is_full());
        assert_eq!(buffer.len(), capacity);
        assert_eq!(buffer.push(iv(100.0)), Some(iv(0.0)));
        assert_eq!(buffer.get(0), Some(&iv(100.0)));
        assert!(buffer.is_full());
        assert_eq!(buffer.len(), capacity);
    }
}

#[test]
fn constant_prices_give_the_price_exactly() {
    let mut ema = ExponentialMovingAverage::new(10);
    let result = ema.next_chunk(&vec![iv(50.0); 10]);
    assert_eq!(result, Some(iv(50.0)));
}

#[test]
fn moving_average_waits_for_a_full_window() {
    let mut sma = SimpleMovingAverage::new(3);
    assert_eq!(sma.next(iv(1.0)), None);
    assert_eq!(sma.next(iv(2.0)), None);
    assert_eq!(sma.next(iv(3.0)), Some(iv(2.0)));
    assert_eq!(sma.next(iv(4.0)), Some(iv(3.0)));
}

#[test]
fn decimal_results_agree_with_floating_point() {
    let inputs = prices();
    let mut sma = SimpleMovingAverage::new(5);
    let mut ema = ExponentialMovingAverage::new(5);
    let mut float_ema = inputs[0];
    for (i, p) in inputs.iter().enumerate() {
        let got_sma = sma.next(iv(*p));
        let got_ema = ema.next(iv(*p));
        if i > 0 {
            float_ema = (2.0 / 6.0) * p + (1.0 - 2.0 / 6.0) * float_ema;
        }
        if i >= 4 {
            let float_sma: f64 = inputs[i - 4..=i].iter().sum::<f64>() / 5.0;
            assert!((got_sma.unwrap().value().to_f64().unwrap() - float_sma).abs() < 1e-9);
            assert!((got_ema.unwrap().value().to_f64().unwrap() - float_ema).abs() < 1e-9);
        } else {
            assert_eq!(got_sma, None);
            assert_eq!(got_ema, None);
        }
    }
}

#[test]
fn the_highest_is_the_largest_of_the_window() {
    let inputs = prices();
    let mut high = High::new(4);
    let mut low = Low::new(4);
    for (i, p) in inputs.iter().enumerate() {
        let h = high.next(iv(*p));
        let l = low.next(iv(*p));
        if i >= 3 {
            let window = &inputs[i - 3..=i];
            let max = window.iter().cloned().fold(f64::MIN, f64::max);
            let min = window.iter().cloned().fold(f64::MAX, f64::min);
            let h = h.unwrap();
            let l = l.unwrap();
            assert_eq!(h.high_value, iv(max));
            assert_eq!(l.low_value, iv(min));
            assert_eq!(iv(inputs[i - h.high_index]), h.high_value);
            assert_eq!(iv(inputs[i - l.low_index]), l.low_value);
        } else {
            assert_eq!(h, None);
            assert_eq!(l, None);
        }
    }
}

#[test]
fn the_median_is_the_middle_of_the_window() {
    let inputs = prices();
    let mut odd = SimpleMovingMedian::new(5);
    let mut even = SimpleMovingMedian::new(4);
    for (i, p) in inputs.iter().enumerate() {
        let o = odd.next(iv(*p));
        let e = even.next(iv(*p));
        if i >= 4 {
            let mut window: Vec<f64> = inputs[i - 4..=i].to_vec();
            window.sort_by(|a, b| a.partial_cmp(b).unwrap());
            assert_eq!(o, Some(iv(window[2])));
        }
        if i >= 3 {
            let mut window: Vec<f64> = inputs[i - 3..=i].to_vec();
            window.sort_by(|a, b| a.partial_cmp(b).unwrap());
            assert_eq!(e, Some((iv(window[1]) + iv(window[2])) / iv(2.0)));
        }
    }
}
