use rust_decimal::prelude::FromPrimitive;
use rust_decimal::Decimal;
use technical_analysis::indicators::{ExponentialMovingAverage, Feed, Indicator};
use technical_analysis::IndicatorValue;

fn iv(x: f64) -> IndicatorValue {
    let d = Decimal::from_f64(x).unwrap();
    IndicatorValue::from_parts(d.mantissa(), d.scale()).unwrap()
}

#[test]
fn test_ema_next() {
    let mut ema = ExponentialMovingAverage::new(10);
    let prices = vec![22.27, 22.19, 22.08, 22.17, 22.18, 22.13, 22.23, 22.43, 22.24, 22.29]
        .into_iter()
        .map(iv)
        .collect::<Vec<_>>();

    for price in prices {
        ema.next(price);
    }

    let result = ema.next(iv(23.82));
    assert_eq!(result.unwrap().round_dp(2), iv(22.54));
}

#[test]
fn test_ema_empty_input() {
    let mut ema = ExponentialMovingAverage::new(10);
    let result = ema.next(iv(0.0));
    assert_eq!(result, None);
}

#[test]
fn test_ema_single_input() {
    let mut ema = ExponentialMovingAverage::new(3);
    let result = ema.next(iv(23.82));
    assert_eq!(result, None);
}

#[test]
fn test_ema_with_constant_prices() {
    let mut ema = ExponentialMovingAverage::new(10);
    let prices = vec![iv(50.0); 10];

    let result = ema.next_chunk(&prices);
    assert_eq!(result.unwrap().round_dp(2), iv(50.0));
}

#[test]
fn test_ema_with_increasing_prices() {
    let mut ema = ExponentialMovingAverage::new(10);
    let prices: Vec<IndicatorValue> = (1..=10).map(|x| iv(x as f64)).collect();

    let result = ema.next_chunk(&prices);
    assert_eq!(result.unwrap().round_dp(2), iv(6.24));
}

#[test]
fn test_ema_with_decreasing_prices() {
    let mut ema = ExponentialMovingAverage::new(10);
    let prices: Vec<IndicatorValue> = (1..=10).rev().map(|x| iv(x as f64)).collect();

    let result = ema.next_chunk(&prices);
    assert_eq!(result.unwrap().round_dp(2), iv(4.76));
}

#[test]
fn test_ema_reset() {
    let mut ema = ExponentialMovingAverage::new(10);
    let prices = vec![22.27, 22.19, 22.08, 22.17, 22.18, 22.13, 22.23, 22.43, 22.24, 22.29]
        .into_iter()
        .map(iv)
        .collect::<Vec<_>>();

    for price in prices {
        ema.next(price);
    }

    ema.reset();
    let result = ema.next(iv(23.82));
    assert_eq!(result, None);
}
