//! The smoothing period and its one constraint.

use vstd::prelude::*;
use crate::error::InvalidArgument;

verus! {

/// A period spans at least one sample: one or more is accepted, zero is
/// refused.
pub open spec fn validate_period_spec(period: usize) -> Result<(), InvalidArgument> {
    if period >= 1 {
        Ok(())
    } else {
        Err(InvalidArgument::ZeroPeriod)
    }
}

/// Accepts a period of one or more and refuses zero. Every operation runs
/// this check before it looks at its data.
pub fn validate_period(period: usize) -> (r: Result<(), InvalidArgument>)
    ensures
        r == validate_period_spec(period),
{
    if period == 0 {
        Err(InvalidArgument::ZeroPeriod)
    } else {
        Ok(())
    }
}

} // verus!
