use rust_decimal::prelude::FromPrimitive;
use rust_decimal::Decimal;
use technical_analysis::indicators::{Feed, Indicator, ParabolicSAR};
use technical_analysis::IndicatorValue;

fn iv(x: f64) -> IndicatorValue {
    let d = Decimal::from_f64(x).unwrap();
    IndicatorValue::from_parts(d.mantissa(), d.scale()).unwrap()
}

#[test]
fn test_initialization_period() {
    let mut psar = ParabolicSAR::new(iv(0.02), iv(0.2), 5);
    let data = [
        (iv(10.0), iv(5.0)),
        (iv(12.0), iv(6.0)),
        (iv(11.0), iv(7.0)),
        (iv(13.0), iv(8.0)),
        (iv(14.0), iv(9.0)),
    ];

    for value in data {
        assert_eq!(psar.next(value), None);
    }

    assert_eq!(psar.next(data[4]).unwrap().round_dp(2), iv(5.18));
}

#[test]
fn test_rising_market() {
    let mut psar = ParabolicSAR::new(iv(0.02), iv(0.2), 5);
    let data = [
        (iv(10.0), iv(5.0)),
        (iv(12.0), iv(6.0)),
        (iv(11.0), iv(7.0)),
        (iv(13.0), iv(8.0)),
        (iv(14.0), iv(9.0)),
        (iv(15.0), iv(10.0)),
        (iv(16.0), iv(11.0)),
    ];

    for i in 0..5 {
        psar.next(data[i]);
    }

    assert_eq!(psar.next(data[5]).unwrap().round_dp(2), iv(5.18));

    assert_eq!(psar.next(data[6]).unwrap().round_dp(2), iv(5.57));
}

#[test]
fn test_falling_market() {
    let mut psar = ParabolicSAR::new(iv(0.02), iv(0.2), 5);
    let data = [
        (iv(10.0), iv(5.0)),
        (iv(12.0), iv(6.0)),
        (iv(11.0), iv(7.0)),
        (iv(13.0), iv(8.0)),
        (iv(14.0), iv(9.0)),
        (iv(13.0), iv(8.0)),
        (iv(12.0), iv(7.0)),
    ];

    for i in 0..5 {
        psar.next(data[i]);
    }

    assert_eq!(psar.next(data[5]).unwrap().round_dp(2), iv(5.18));

    assert_eq!(psar.next(data[6]).unwrap().round_dp(2), iv(5.36));
}

#[test]
fn test_reversal_rising_to_falling() {
    let mut psar = ParabolicSAR::new(iv(0.02), iv(0.2), 5);
    let data = [
        (iv(10.0), iv(5.0)),
        (iv(12.0), iv(6.0)),
        (iv(11.0), iv(7.0)),
        (iv(13.0), iv(8.0)),
        (iv(14.0), iv(9.0)),
        (iv(15.0), iv(10.0)),
        (iv(12.0), iv(7.0)),
    ];

    for i in 0..5 {
        psar.next(data[i]);
    }

    assert_eq!(psar.next(data[5]).unwrap().round_dp(2), iv(5.18));
    assert_eq!(psar.next(data[6]).unwrap().round_dp(2), iv(5.57));
}

#[test]
fn test_reversal_falling_to_rising() {
    let mut psar = ParabolicSAR::new(iv(0.02), iv(0.2), 5);
    let data = [
        (iv(10.0), iv(5.0)),
        (iv(12.0), iv(6.0)),
        (iv(11.0), iv(7.0)),
        (iv(13.0), iv(8.0)),
        (iv(14.0), iv(9.0)),
        (iv(13.0), iv(8.0)),
        (iv(16.0), iv(11.0)),
    ];

    for i in 0..5 {
        psar.next(data[i]);
    }

    assert_eq!(psar.next(data[5]).unwrap().round_dp(2), iv(5.18));
    assert_eq!(psar.next(data[6]).unwrap().round_dp(2), iv(5.36));
}

#[test]
fn parabolic_sar_test_reset_functionality() {
    let mut psar = ParabolicSAR::new(iv(0.02), iv(0.2), 5);
    let data = [
        (iv(10.0), iv(5.0)),
        (iv(12.0), iv(6.0)),
        (iv(11.0), iv(7.0)),
        (iv(13.0), iv(8.0)),
        (iv(14.0), iv(9.0)),
    ];

    for i in 0..5 {
        psar.next(data[i]);
    }

    psar.reset();

    assert_eq!(psar.next((iv(14.0), iv(9.0))), None);
}
