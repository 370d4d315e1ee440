//! One candle.

use vstd::prelude::*;
use crate::indicator_value::IndicatorValue;

verus! {

/// The open, the high, the low, the close and the volume of one interval.
#[derive(Clone, Copy, Debug)]
pub struct OHLCV {
    pub open: IndicatorValue,
    pub high: IndicatorValue,
    pub low: IndicatorValue,
    pub close: IndicatorValue,
    pub volume: IndicatorValue,
}

} // verus!
