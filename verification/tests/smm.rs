use rust_decimal::prelude::FromPrimitive;
use rust_decimal::Decimal;
use technical_analysis::indicators::{Feed, Indicator, SimpleMovingMedian};
use technical_analysis::IndicatorValue;

fn iv(x: f64) -> IndicatorValue {
    let d = Decimal::from_f64(x).unwrap();
    IndicatorValue::from_parts(d.mantissa(), d.scale()).unwrap()
}

#[test]
fn test_basic_functionality() {
    let mut smm = SimpleMovingMedian::new(3);

    assert_eq!(smm.next(iv(10.0)), None);
    assert_eq!(smm.next(iv(20.0)), None);
    assert_eq!(smm.next(iv(30.0)).unwrap(), iv(20.0));
}

#[test]
fn test_empty_buffer() {
    let mut smm = SimpleMovingMedian::new(3);
    assert_eq!(smm.next(iv(0.0)), None);
}

#[test]
fn test_single_element() {
    let mut smm = SimpleMovingMedian::new(3);
    assert_eq!(smm.next(iv(25.0)), None);
}

#[test]
fn test_full_buffer() {
    let mut smm = SimpleMovingMedian::new(3);
    assert_eq!(smm.next(iv(10.0)), None);
    assert_eq!(smm.next(iv(10.0)), None);
    assert_eq!(smm.next(iv(20.0)).unwrap(), iv(10.0));
    assert_eq!(smm.next(iv(30.0)).unwrap(), iv(20.0));
    assert_eq!(smm.next(iv(40.0)).unwrap(), iv(30.0));
    assert_eq!(smm.next(iv(50.0)).unwrap(), iv(40.0));
}

#[test]
fn smm_test_reset_functionality() {
    let mut smm = SimpleMovingMedian::new(3);
    smm.next(iv(10.0));
    smm.next(iv(20.0));
    smm.next(iv(30.0));

    smm.reset();

    assert_eq!(smm.next(iv(0.0)), None);
    assert_eq!(smm.next(iv(12.5)), None);
    assert_eq!(smm.next(iv(40.0)).unwrap(), iv(12.5));
}

#[test]
fn test_next_chunk() {
    let mut smm = SimpleMovingMedian::new(3);

    // Pass a chunk of values
    assert_eq!(smm.next_chunk(&[
        iv(10.0),
        iv(20.0),
        iv(30.0),
    ]).unwrap(), iv(20.0));
    assert_eq!(smm.next_chunk(&[
        iv(40.0),
        iv(50.0),
    ]).unwrap(), iv(40.0)); // Median of [30, 40, 50] should be 40
}
