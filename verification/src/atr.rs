//! The Average True Range: what is decided before its arithmetic.

use vstd::prelude::*;
use crate::error::InvalidArgument;
use crate::period::validate_period;
use crate::wilder::{wilder_schedule, wilder_schedule_spec, WilderSchedule};

verus! {

/// The three series describe the same bars when they have one common
/// length and hold at least one bar.
pub open spec fn series_aligned(high_len: usize, low_len: usize, close_len: usize) -> bool {
    high_len != 0 && low_len == high_len && close_len == high_len
}

/// What the range makes of its series: a zero period is refused first,
/// then series that are empty or differ in length; with fewer than `period`
/// true ranges there is no value; otherwise the true ranges are scheduled.
pub open spec fn atr_schedule_spec(
    high_len: usize,
    low_len: usize,
    close_len: usize,
    period: usize,
) -> Result<Option<WilderSchedule>, InvalidArgument> {
    if period == 0 {
        Err(InvalidArgument::ZeroPeriod)
    } else if !series_aligned(high_len, low_len, close_len) {
        Err(InvalidArgument::SeriesLength)
    } else {
        Ok(wilder_schedule_spec(high_len, period))
    }
}

/// Checks the period, then the alignment of the series, then the amount of
/// history, and says which true ranges seed the average and which are
/// smoothed in. Bar `i` of the schedule stands for the true range of bar
/// `i`, taken from `high[i]`, `low[i]` and `close[i - 1]`; bar 0 has none,
/// so `len` bars give `len - 1` true ranges.
pub fn atr_schedule<T>(high: &[T], low: &[T], close: &[T], period: usize) -> (r: Result<
    Option<WilderSchedule>,
    InvalidArgument,
>)
    ensures
        r == atr_schedule_spec(high.len(), low.len(), close.len(), period),
{
    match validate_period(period) {
        Err(e) => Err(e),
        Ok(()) => {
            let len: usize = high.len();
            if len == 0 || low.len() != len || close.len() != len {
                Err(InvalidArgument::SeriesLength)
            } else {
                Ok(wilder_schedule(len, period))
            }
        },
    }
}

} // verus!
