use rust_decimal::prelude::FromPrimitive;
use rust_decimal::Decimal;
use technical_analysis::indicators::{Feed, Indicator, StochasticOscillator, StochasticOutput};
use technical_analysis::IndicatorValue;

fn iv(x: f64) -> IndicatorValue {
    let d = Decimal::from_f64(x).unwrap();
    IndicatorValue::from_parts(d.mantissa(), d.scale()).unwrap()
}

#[test]
fn test_stochastic_oscillator_basic() {
    let mut stoch = StochasticOscillator::new(3, 3);

    let output = stoch.next((iv(10.0), iv(5.0), iv(7.0)));
    assert!(output.is_none());

    let output = stoch.next((iv(15.0), iv(6.0), iv(9.0)));
    assert!(output.is_none());

    let output = stoch.next((iv(20.0), iv(5.0), iv(15.0)));
    assert!(output.is_none());

    let output = stoch.next((iv(25.0), iv(10.0), iv(20.0)));
    assert!(output.is_none());

    let output = stoch.next((iv(25.0), iv(10.0), iv(20.0)));
    
    let output = output.unwrap();
    assert_eq!(output.k.round_dp(2), iv(75.0));
    assert_eq!(output.d.round_dp(2), iv(72.22)); 
}

#[test]
fn test_stochastic_oscillator_identical_high_low() {
    let mut stoch = StochasticOscillator::new(3, 3);

    // All high and low values are the same, causing the range to be 0
    let output = stoch.next((iv(10.0), iv(10.0), iv(10.0)));
    assert!(output.is_none());

    let output = stoch.next((iv(10.0), iv(10.0), iv(10.0)));
    assert!(output.is_none());

    let output = stoch.next((iv(10.0), iv(10.0), iv(10.0)));
    assert!(output.is_none());

    let output = stoch.next((iv(10.0), iv(10.0), iv(10.0)));
    assert!(output.is_none());

    let output = stoch.next((iv(10.0), iv(10.0), iv(10.0)));

    if let Some(output) = output {
        assert_eq!(output.k.round_dp(2), iv(50.0));
        assert_eq!(output.d.round_dp(2), iv(50.0));
    }
}

#[test]
fn test_stochastic_oscillator_reset() {
    let mut stoch = StochasticOscillator::new(3, 3);

    stoch.next((iv(10.0), iv(5.0), iv(7.0)));
    stoch.next((iv(15.0), iv(6.0), iv(9.0)));
    stoch.next((iv(20.0), iv(5.0), iv(15.0)));
    stoch.next((iv(20.0), iv(5.0), iv(15.0)));
    let output = stoch.next((iv(20.0), iv(5.0), iv(15.0)));
    assert!(output.is_some());
    stoch.reset();

    let output = stoch.next((iv(10.0), iv(5.0), iv(7.0)));
    assert!(output.is_none());


}

#[test]
fn test_stochastic_oscillator_minimal_period() {
    let mut stoch = StochasticOscillator::new(1, 1);

    // With period of 1, each call should produce an output immediately after the first call
    let output = stoch.next((iv(10.0), iv(5.0), iv(7.0)));
    assert!(output.is_some());

    if let Some(output) = output {
        assert_eq!(output.k.round_dp(2), iv(40.0));
        assert_eq!(output.d.round_dp(2), iv(40.0));
    }
}

#[test]
fn test_stochastic_oscillator_next_chunk() {
    let mut stoch = StochasticOscillator::new(3, 3);

    let data = [
        (iv(127.01), iv(125.36), iv(126.63)),
        (iv(126.59), iv(124.93), iv(125.54)),
        (iv(126.82), iv(125.72), iv(126.30)),
        (iv(127.14), iv(126.09), iv(126.82)),
        (iv(128.23), iv(126.64), iv(127.91)),
    ];

    let output = stoch.next_chunk(&data).unwrap();

    assert_eq!(output.k.round_dp(2), iv(87.25));
    assert_eq!(output.d.round_dp(2), iv(79.55));
}
