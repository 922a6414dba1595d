//! The one way in which a call can be wrong: an argument breaks a constraint.

use vstd::prelude::*;

verus! {

/// Why the arguments of an indicator were refused.
#[derive(Clone, Copy, Debug, PartialEq, Eq, Structural)]
pub enum InvalidArgument {
    /// The smoothing period is zero.
    ZeroPeriod,
    /// The high, low and close series are empty or differ in length.
    SeriesLength,
}

impl InvalidArgument {
    /// The text that `message` hands out, as a sequence of characters.
    pub open spec fn message_text(self) -> Seq<char> {
        match self {
            InvalidArgument::ZeroPeriod => "period must be greater than zero"@,
            InvalidArgument::SeriesLength => "high, low, close must have the same non-zero length"@,
        }
    }

    /// Names the violated constraint in words, for the caller to report.
    pub fn message(&self) -> (text: &'static str)
        ensures
            text@ == self.message_text(),
    {
        match self {
            InvalidArgument::ZeroPeriod => "period must be greater than zero",
            InvalidArgument::SeriesLength => "high, low, close must have the same non-zero length",
        }
    }
}

} // verus!
