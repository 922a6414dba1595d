//! Verified core of a small technical-analysis toolkit.
//!
//! Three indicators are served: the simple moving average, the Relative
//! Strength Index and the Average True Range, the last two smoothed after
//! Wilder. This crate holds what each of them decides about its arguments:
//! whether the period and the series are acceptable, whether there is
//! enough history for a value, which samples enter the value and in which
//! order, and how the index treats averages of zero. The arithmetic on the
//! samples themselves is left to the caller, so the functions here are
//! generic in the sample type and never look inside a sample.

pub mod error;
pub mod period;
pub mod span;
pub mod wilder;
pub mod moving_average;
pub mod rsi;
pub mod atr;
pub mod laws;
