use rust_decimal::prelude::FromPrimitive;
use rust_decimal::Decimal;
use technical_analysis::indicators::{Feed, Indicator, MedianAbsoluteStandardDeviation};
use technical_analysis::IndicatorValue;

fn iv(x: f64) -> IndicatorValue {
    let d = Decimal::from_f64(x).unwrap();
    IndicatorValue::from_parts(d.mantissa(), d.scale()).unwrap()
}

#[test]
fn test_mad_basic_functionality() {
    let mut mad = MedianAbsoluteStandardDeviation::new(3);

    assert_eq!(mad.next(iv(10.0)), None);
    assert_eq!(mad.next(iv(20.0)), None);
    assert_eq!(mad.next(iv(30.0)).unwrap().round_dp(2), iv(10.0));
    assert_eq!(mad.next(iv(40.0)).unwrap().round_dp(2), iv(10.0));
    assert_eq!(mad.next(iv(50.0)).unwrap().round_dp(2), iv(10.0));
}

#[test]
fn median_abs_stdev_test_mad_reset() {
    let mut mad = MedianAbsoluteStandardDeviation::new(3);

    mad.next(iv(10.0));
    mad.next(iv(20.0));
    mad.reset();

    assert_eq!(mad.next(iv(10.0)), None);
}

#[test]
fn test_mad_single_value() {
    let mut mad = MedianAbsoluteStandardDeviation::new(3);
    assert_eq!(mad.next(iv(10.0)), None);
}
