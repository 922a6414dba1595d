//! The Relative Strength Index: what is decided before and after its arithmetic.

use vstd::prelude::*;
use crate::error::InvalidArgument;
use crate::period::validate_period;
use crate::wilder::{wilder_schedule, wilder_schedule_spec, WilderSchedule};

verus! {

/// What the index makes of a series of `len` prices: a zero period is
/// refused whatever the data; with too little history for `period` price
/// changes there is no value; otherwise the changes are scheduled.
pub open spec fn rsi_schedule_spec(len: usize, period: usize) -> Result<
    Option<WilderSchedule>,
    InvalidArgument,
> {
    if period == 0 {
        Err(InvalidArgument::ZeroPeriod)
    } else {
        Ok(wilder_schedule_spec(len, period))
    }
}

/// Checks the period, then the amount of history, and says which price
/// changes seed the average gain and loss and which are smoothed in.
/// Bar `i` of the schedule stands for the change `prices[i] - prices[i - 1]`.
pub fn rsi_schedule<T>(prices: &[T], period: usize) -> (r: Result<
    Option<WilderSchedule>,
    InvalidArgument,
>)
    ensures
        r == rsi_schedule_spec(prices.len(), period),
{
    match validate_period(period) {
        Err(e) => Err(e),
        Ok(()) => Ok(wilder_schedule(prices.len(), period)),
    }
}

/// How the two smoothed averages turn into the final reading.
#[derive(Clone, Copy, Debug, PartialEq, Eq, Structural)]
pub enum RsiReading {
    /// No movement at all: the index rests at its midpoint.
    Neutral,
    /// Gains and no losses: the index is at its ceiling.
    Saturated,
    /// Some losses: the index is `100 - 100 / (1 + avg_gain / avg_loss)`.
    Ratio,
}

impl RsiReading {
    /// The value of a reading that needs no division: 50 at rest, 100 at the
    /// ceiling.
    pub open spec fn fixed_value_spec(self) -> Option<u8> {
        match self {
            RsiReading::Neutral => Some(50u8),
            RsiReading::Saturated => Some(100u8),
            RsiReading::Ratio => None,
        }
    }

    /// The fixed value of the reading, if it has one.
    pub fn fixed_value(&self) -> (value: Option<u8>)
        ensures
            value == self.fixed_value_spec(),
    {
        match self {
            RsiReading::Neutral => Some(50),
            RsiReading::Saturated => Some(100),
            RsiReading::Ratio => None,
        }
    }
}

/// Chooses the final mapping from whether each smoothed average is zero.
/// A zero average loss never reaches the division.
pub fn rsi_reading(avg_gain_is_zero: bool, avg_loss_is_zero: bool) -> (r: RsiReading)
    ensures
        r is Neutral <==> avg_loss_is_zero && avg_gain_is_zero,
        r is Saturated <==> avg_loss_is_zero && !avg_gain_is_zero,
        r is Ratio <==> !avg_loss_is_zero,
{
    if avg_loss_is_zero {
        if avg_gain_is_zero {
            RsiReading::Neutral
        } else {
            RsiReading::Saturated
        }
    } else {
        RsiReading::Ratio
    }
}

} // verus!
