//! Laws that hold across the operations.

use vstd::prelude::*;
use crate::atr::{atr_schedule, atr_schedule_spec, series_aligned};
use crate::error::InvalidArgument;
use crate::moving_average::{moving_average_window, moving_average_window_spec, window_view};
use crate::period::validate_period_spec;
use crate::rsi::{rsi_reading, rsi_schedule, rsi_schedule_spec, RsiReading};
use crate::wilder::WilderSchedule;

verus! {

/// A period of zero is refused by every operation, whatever the data, and
/// always for the same reason.
pub proof fn lemma_zero_period_is_always_refused<T>(
    prices: Seq<T>,
    len: usize,
    high_len: usize,
    low_len: usize,
    close_len: usize,
)
    ensures
        moving_average_window_spec(prices, 0) matches Err(InvalidArgument::ZeroPeriod),
        rsi_schedule_spec(len, 0) matches Err(InvalidArgument::ZeroPeriod),
        atr_schedule_spec(high_len, low_len, close_len, 0) matches Err(InvalidArgument::ZeroPeriod),
        validate_period_spec(0) matches Err(InvalidArgument::ZeroPeriod),
{
}

/// With a valid period, too little history is never an error: each
/// operation then has a value or has none, and has one exactly when the
/// history suffices.
pub proof fn lemma_short_history_is_no_error<T>(prices: Seq<T>, len: usize, period: usize)
    requires
        period >= 1,
    ensures
        moving_average_window_spec(prices, period as nat) matches Ok(w) && (w is Some
            <==> prices.len() >= period),
        rsi_schedule_spec(len, period) matches Ok(s) && (s is Some <==> len >= period + 1),
        atr_schedule_spec(len, len, len, period) is Ok <==> len != 0,
        atr_schedule_spec(len, len, len, period) matches Ok(s) ==> (s is Some <==> len >= period
            + 1),
{
}

/// Series that are empty or differ in length are refused whatever the
/// period: for the period itself when that is zero, else for their length.
pub proof fn lemma_misaligned_series_are_refused(
    high_len: usize,
    low_len: usize,
    close_len: usize,
    period: usize,
)
    requires
        !series_aligned(high_len, low_len, close_len),
    ensures
        atr_schedule_spec(high_len, low_len, close_len, period) is Err,
        period >= 1 ==> atr_schedule_spec(high_len, low_len, close_len, period) matches Err(
            InvalidArgument::SeriesLength,
        ),
{
}

/// No operation keeps state between calls: two results of
/// `moving_average_window` on the same arguments are the same.
pub proof fn lemma_moving_average_window_is_deterministic<'a, T>(
    prices: &'a [T],
    period: usize,
    first: Result<Option<&'a [T]>, InvalidArgument>,
    second: Result<Option<&'a [T]>, InvalidArgument>,
)
    requires
        call_ensures(moving_average_window::<T>, (prices, period), first),
        call_ensures(moving_average_window::<T>, (prices, period), second),
    ensures
        window_view(first) == window_view(second),
        first == second,
{
    if let Ok(Some(a)) = first {
        let b = second->Ok_0->Some_0;
        assert(a@ == b@);
        assert(a =~= b);
    }
}

/// Two results of `rsi_schedule` on the same arguments are the same.
pub proof fn lemma_rsi_schedule_is_deterministic<T>(
    prices: &[T],
    period: usize,
    first: Result<Option<WilderSchedule>, InvalidArgument>,
    second: Result<Option<WilderSchedule>, InvalidArgument>,
)
    requires
        call_ensures(rsi_schedule::<T>, (prices, period), first),
        call_ensures(rsi_schedule::<T>, (prices, period), second),
    ensures
        first == second,
{
}

/// Two results of `rsi_reading` on the same arguments are the same.
pub proof fn lemma_rsi_reading_is_deterministic(
    avg_gain_is_zero: bool,
    avg_loss_is_zero: bool,
    first: RsiReading,
    second: RsiReading,
)
    requires
        call_ensures(rsi_reading, (avg_gain_is_zero, avg_loss_is_zero), first),
        call_ensures(rsi_reading, (avg_gain_is_zero, avg_loss_is_zero), second),
    ensures
        first == second,
{
}

/// Two results of `atr_schedule` on the same arguments are the same.
pub proof fn lemma_atr_schedule_is_deterministic<T>(
    high: &[T],
    low: &[T],
    close: &[T],
    period: usize,
    first: Result<Option<WilderSchedule>, InvalidArgument>,
    second: Result<Option<WilderSchedule>, InvalidArgument>,
)
    requires
        call_ensures(atr_schedule::<T>, (high, low, close, period), first),
        call_ensures(atr_schedule::<T>, (high, low, close, period), second),
    ensures
        first == second,
{
}

} // verus!
