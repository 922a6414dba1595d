//! The simple moving average: which samples it is the mean of.

use vstd::prelude::*;
use crate::error::InvalidArgument;
use crate::period::validate_period;

verus! {

/// The last `period` samples of a series, oldest first.
pub open spec fn trailing_window<T>(series: Seq<T>, period: nat) -> Seq<T>
    recommends
        period <= series.len(),
{
    series.subrange(series.len() - period, series.len() as int)
}

/// What the average makes of a series: a zero period is refused whatever
/// the data; a series shorter than the period has no value; otherwise the
/// value is the mean of the trailing window.
pub open spec fn moving_average_window_spec<T>(prices: Seq<T>, period: nat) -> Result<
    Option<Seq<T>>,
    InvalidArgument,
> {
    if period == 0 {
        Err(InvalidArgument::ZeroPeriod)
    } else if prices.len() < period {
        Ok(None)
    } else {
        Ok(Some(trailing_window(prices, period)))
    }
}

/// The samples behind a result of `moving_average_window`.
pub open spec fn window_view<T>(r: Result<Option<&[T]>, InvalidArgument>) -> Result<
    Option<Seq<T>>,
    InvalidArgument,
> {
    match r {
        Ok(Some(window)) => Ok(Some(window@)),
        Ok(None) => Ok(None),
        Err(e) => Err(e),
    }
}

/// Checks the period, then the amount of history, and hands out the
/// samples to average: the last `period` of them, of which the mean is the
/// sum divided by `period`.
pub fn moving_average_window<'a, T>(prices: &'a [T], period: usize) -> (r: Result<
    Option<&'a [T]>,
    InvalidArgument,
>)
    ensures
        window_view(r) == moving_average_window_spec(prices@, period as nat),
{
    match validate_period(period) {
        Err(e) => Err(e),
        Ok(()) => {
            let len: usize = prices.len();
            if len < period {
                Ok(None)
            } else {
                Ok(Some(&prices[len - period..len]))
            }
        },
    }
}

/// History older than the window does not matter: with at least `period`
/// samples in `recent`, putting any `older` samples in front of them leaves
/// the trailing window, and with it the whole outcome, as it was.
pub proof fn lemma_older_history_is_ignored<T>(older: Seq<T>, recent: Seq<T>, period: nat)
    requires
        period <= recent.len(),
    ensures
        trailing_window(older + recent, period) == trailing_window(recent, period),
        moving_average_window_spec(older + recent, period) == moving_average_window_spec(
            recent,
            period,
        ),
{
    assert(trailing_window(older + recent, period) =~= trailing_window(recent, period));
}

} // verus!
