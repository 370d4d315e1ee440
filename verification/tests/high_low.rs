use rust_decimal::prelude::FromPrimitive;
use rust_decimal::Decimal;
use technical_analysis::indicators::{Feed, High, HighLow, Indicator, Low};
use technical_analysis::IndicatorValue;

fn iv(x: f64) -> IndicatorValue {
    let d = Decimal::from_f64(x).unwrap();
    IndicatorValue::from_parts(d.mantissa(), d.scale()).unwrap()
}

#[test]
fn test_high_only() {
    let mut high_indicator = High::new(3);

    let output = high_indicator.next(iv(10.0));
    assert_eq!(output, None);
    assert_eq!(output, None);
    
    let output = high_indicator.next(iv(20.0));
    assert_eq!(output, None);
    assert_eq!(output, None);


    let output = high_indicator.next(iv(5.0)).unwrap();
    assert_eq!(output.high_value, iv(20.0));
    assert_eq!(output.high_index, 1);

    
    let output = high_indicator.next(iv(30.0)).unwrap();

    assert_eq!(output.high_value, iv(30.0));
    assert_eq!(output.high_index, 0);

    let output = high_indicator.next(iv(15.0)).unwrap();
    assert_eq!(output.high_value, iv(30.0));
    assert_eq!(output.high_index, 1);
}

#[test]
fn test_low_only() {
    let mut low_indicator = Low::new(3);

    let output = low_indicator.next(iv(10.0));
    assert_eq!(output, None);
    assert_eq!(output, None);
    
    let output = low_indicator.next(iv(5.0));
    assert_eq!(output, None);
    assert_eq!(output, None);

    let output = low_indicator.next(iv(15.0)).unwrap();
    assert_eq!(output.low_value, iv(5.0));
    assert_eq!(output.low_index, 1);

    // Overflow, the oldest value (10.0) is pushed out
    let output = low_indicator.next(iv(3.0)).unwrap();
    assert_eq!(output.low_value, iv(3.0));
    assert_eq!(output.low_index, 0);

    let output = low_indicator.next(iv(12.0)).unwrap();
    assert_eq!(output.low_value, iv(3.0));
    assert_eq!(output.low_index, 1);
}

#[test]
fn test_high_and_low() {
    let mut high_low_indicator = HighLow::new(3);

    let output = high_low_indicator.next(iv(10.0));
    assert_eq!(output, None);
    assert_eq!(output, None);
    assert_eq!(output, None);
    assert_eq!(output, None);

    let output = high_low_indicator.next(iv(20.0));
    assert_eq!(output, None);
    assert_eq!(output, None);
    assert_eq!(output, None);
    assert_eq!(output, None);

    let output = high_low_indicator.next(iv(5.0)).unwrap();
    assert_eq!(output.high_value, iv(20.0));
    assert_eq!(output.high_index, 1);
    assert_eq!(output.low_value, iv(5.0));
    assert_eq!(output.low_index, 0);

    // Overflow, the oldest value (10.0) is pushed out
    let output = high_low_indicator.next(iv(15.0)).unwrap();
    assert_eq!(output.high_value, iv(20.0));
    assert_eq!(output.high_index, 2);
    assert_eq!(output.low_value, iv(5.0));
    assert_eq!(output.low_index, 1);

    // Test edge case where the low is pushed out
    let output = high_low_indicator.next(iv(25.0)).unwrap();
    assert_eq!(output.high_value, iv(25.0));
    assert_eq!(output.high_index, 0);
    assert_eq!(output.low_value, iv(5.0));
    assert_eq!(output.low_index, 2);
}

// #[test]
// fn test_reset() {
//     let mut high_low_indicator = HighLow::new(3);

//     high_low_indicator.next(iv(10.0));
//     high_low_indicator.next(iv(20.0));
//     high_low_indicator.next(iv(5.0));

//     high_low_indicator.reset();
//     let output = high_low_indicator.next(iv(15.0));

//     assert_eq!(output.high_value, iv(15.0)));
//     assert_eq!(output.high_index, 0));
//     assert_eq!(output.low_value, iv(15.0)));
//     assert_eq!(output.low_index, 0));
// }
