//! Streaming technical indicators over exact decimal numbers.
//!
//! Every indicator consumes one observation at a time and keeps only a bounded
//! window of history. Numbers are fixed-point decimals whose arithmetic is done
//! by the `rust_decimal` crate; everything else is verified.

pub mod decimal;
pub mod indicator_value;
pub mod comparison;
pub mod value_laws;
pub mod circular_buffer;
pub mod indicators;
pub mod load_balancing;
pub mod ohlcv;

pub use indicator_value::IndicatorValue;
pub use circular_buffer::CircularBuffer;
pub use ohlcv::OHLCV;
