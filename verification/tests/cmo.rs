use rust_decimal::prelude::FromPrimitive;
use rust_decimal::Decimal;
use technical_analysis::indicators::{ChandeMomentumOscillator, Feed, Indicator};
use technical_analysis::IndicatorValue;

fn iv(x: f64) -> IndicatorValue {
    let d = Decimal::from_f64(x).unwrap();
    IndicatorValue::from_parts(d.mantissa(), d.scale()).unwrap()
}

#[test]
fn test_cmo_next() {
    let mut cmo = ChandeMomentumOscillator::new(14);
    let data = vec![1.0, 2.0, 3.0, 2.5, 3.5, 2.7, 3.8, 2.6, 3.7, 2.9, 3.6, 2.8, 3.9, 2.7]
        .into_iter()
        .map(iv)
        .collect::<Vec<_>>();

    let result = cmo.next_chunk(&data);

    assert_eq!(result.unwrap().round_dp(2), iv(13.82));
}

#[test]
fn test_cmo_empty_input() {
    let mut cmo = ChandeMomentumOscillator::new(14);
    let result = cmo.next(iv(0.0));
    assert_eq!(result, None); // CMO with no data should be zero
}

#[test]
fn test_cmo_single_input() {
    let mut cmo = ChandeMomentumOscillator::new(14);
    let result = cmo.next(iv(3.0));
    assert_eq!(result, None); // CMO with single positive input should be max positive
}

#[test]
fn test_cmo_with_constant_prices() {
    let mut cmo = ChandeMomentumOscillator::new(14);
    let data = vec![iv(50.0); 14];

    let result = cmo.next_chunk(&data).unwrap();
    assert_eq!(result.round_dp(2), iv(0.0));
}

#[test]
fn test_cmo_with_increasing_prices() {
    let mut cmo = ChandeMomentumOscillator::new(14);
    let prices: Vec<IndicatorValue> = (1..=14).map(|x| iv(x as f64)).collect();

    let result = cmo.next_chunk(&prices).unwrap();
    assert!(result.round_dp(2) > iv(0.0));
}

#[test]
fn test_cmo_with_decreasing_prices() {
    let mut cmo = ChandeMomentumOscillator::new(14);
    let prices: Vec<IndicatorValue> = (1..=14).rev().map(|x| iv(x as f64)).collect();

    let result = cmo.next_chunk(&prices).unwrap();
    assert!(result.round_dp(2) < iv(0.0)); // CMO should be negative with decreasing prices
}

#[test]
fn test_cmo_reset() {
    let mut cmo = ChandeMomentumOscillator::new(14);
    let prices = vec![1.0, 2.0, 3.0, 2.5, 3.5, 2.7, 3.8, 2.6, 3.7, 2.9, 3.6, 2.8, 3.9, 2.7]
        .into_iter()
        .map(iv)
        .collect::<Vec<_>>();

    for price in prices {
        cmo.next(price);
    }

    cmo.reset();
    let result = cmo.next(iv(3.0));
    assert_eq!(result, None);
}
