//! Runs of consecutive bar indices.

use vstd::prelude::*;

verus! {

/// A run of consecutive bar indices: `start` is the first one, `end` the one
/// after the last. A span with `end <= start` holds no index.
#[derive(Clone, Copy, Debug, PartialEq, Eq, Structural)]
pub struct Span {
    pub start: usize,
    pub end: usize,
}

impl Span {
    /// How many indices the span holds.
    pub open spec fn count(self) -> nat {
        if self.start <= self.end {
            (self.end - self.start) as nat
        } else {
            0
        }
    }

    /// The indices of the span, in the order in which they are to be visited:
    /// ascending, oldest bar first.
    pub open spec fn indices(self) -> Seq<int> {
        Seq::new(self.count(), |k: int| self.start + k)
    }
}

} // verus!
