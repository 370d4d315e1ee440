use rust_decimal::prelude::FromPrimitive;
use rust_decimal::Decimal;
use technical_analysis::indicators::{Feed, Indicator, OnBalanceVolume};
use technical_analysis::IndicatorValue;

fn iv(x: f64) -> IndicatorValue {
    let d = Decimal::from_f64(x).unwrap();
    IndicatorValue::from_parts(d.mantissa(), d.scale()).unwrap()
}

#[test]
fn test_obv_typical_case() {
    let mut obv = OnBalanceVolume::new();
    let prices_and_volumes = vec![
        (iv(44.34), iv(100.0)),  // Initial value, OBV = 0
        (iv(44.09), iv(120.0)),  // Price down, OBV = -120
        (iv(44.15), iv(130.0)),  // Price up, OBV = 10
        (iv(43.61), iv(90.0)),   // Price down, OBV = -80
        (iv(44.33), iv(150.0)),  // Price up, OBV = 70
    ];

    let result = obv.next_chunk(&prices_and_volumes);
    assert_eq!(result, iv(70.0));
}

#[test]
fn test_obv_constant_prices() {
    let mut obv = OnBalanceVolume::new();
    let prices_and_volumes = vec![
        (iv(44.34), iv(100.0)),  // Initial value, OBV = 0
        (iv(44.34), iv(120.0)),  // Price unchanged, OBV = 0
        (iv(44.34), iv(130.0)),  // Price unchanged, OBV = 0
    ];

    let result = obv.next_chunk(&prices_and_volumes);
    assert_eq!(result, iv(0.0));
}

#[test]
fn test_obv_all_upward() {
    let mut obv = OnBalanceVolume::new();
    let prices_and_volumes = vec![
        (iv(44.34), iv(100.0)),  // Initial value, OBV = 0
        (iv(44.50), iv(120.0)),  // Price up, OBV = 120
        (iv(44.75), iv(130.0)),  // Price up, OBV = 250
        (iv(45.00), iv(90.0)),   // Price up, OBV = 340
        (iv(45.25), iv(150.0)),  // Price up, OBV = 490
    ];

    let result = obv.next_chunk(&prices_and_volumes);
    assert_eq!(result, iv(490.0));
}

#[test]
fn test_obv_all_downward() {
    let mut obv = OnBalanceVolume::new();
    let prices_and_volumes = vec![
        (iv(45.25), iv(150.0)),  // Initial value, OBV = 0
        (iv(45.00), iv(120.0)),  // Price down, OBV = -120
        (iv(44.75), iv(130.0)),  // Price down, OBV = -250
        (iv(44.50), iv(90.0)),   // Price down, OBV = -340
        (iv(44.25), iv(150.0)),  // Price down, OBV = -490
    ];

    let result = obv.next_chunk(&prices_and_volumes);
    assert_eq!(result, iv(-490.0));
}

#[test]
fn test_obv_reset_behavior() {
    let mut obv = OnBalanceVolume::new();
    let prices_and_volumes = vec![
        (iv(44.34), iv(100.0)),  // Initial value, OBV = 0
        (iv(44.09), iv(120.0)),  // Price down, OBV = -120
    ];

    obv.next_chunk(&prices_and_volumes);
    obv.reset();

    let new_prices_and_volumes = vec![
        (iv(45.00), iv(100.0)),  // After reset, OBV = 0
        (iv(45.25), iv(150.0)),  // Price up, OBV = 150
    ];

    let result = obv.next_chunk(&new_prices_and_volumes);
    assert_eq!(result, iv(150.0));
}

#[test]
fn test_obv_mixed_movement() {
    let mut obv = OnBalanceVolume::new();
    let prices_and_volumes = vec![
        (iv(44.34), iv(100.0)),  // Initial value, OBV = 0
        (iv(44.50), iv(120.0)),  // Price up, OBV = 120
        (iv(44.25), iv(130.0)),  // Price down, OBV = -10
        (iv(44.75), iv(90.0)),   // Price up, OBV = 80
        (iv(44.50), iv(150.0)),  // Price down, OBV = -70
    ];

    let result = obv.next_chunk(&prices_and_volumes);
    assert_eq!(result, iv(-70.0));
}

#[test]
fn test_obv_single_data_point() {
    let mut obv = OnBalanceVolume::new();
    let prices_and_volumes = vec![
        (iv(44.34), iv(100.0)),  // Initial value, OBV = 0
    ];

    let result = obv.next_chunk(&prices_and_volumes);
    assert_eq!(result, iv(0.0));
}
