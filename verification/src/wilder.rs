//! Which bars feed a Wilder-smoothed average, and in which order.
//!
//! A Wilder average of period `n` over bars `0 .. len` works on the changes
//! from one bar to the next, so bar `i` stands for the step from bar `i - 1`
//! to bar `i`. The first `n` steps are averaged plainly to seed the value;
//! each later step is folded in by `avg = ((n - 1) * avg + x) / n`. The
//! recurrence is sensitive to order, so the schedule fixes it: ascending.

use vstd::prelude::*;
use crate::span::Span;

verus! {

/// The bars of one Wilder average: those that seed it, then those that are
/// smoothed in one by one.
#[derive(Clone, Copy, Debug, PartialEq, Eq, Structural)]
pub struct WilderSchedule {
    /// The bars whose steps are summed and divided by the period.
    pub seed: Span,
    /// The bars whose steps update the average by the recurrence.
    pub smoothing: Span,
}

impl WilderSchedule {
    /// Every bar of the schedule in processing order: the seed bars, then the
    /// smoothing bars.
    pub open spec fn bars(self) -> Seq<int> {
        self.seed.indices() + self.smoothing.indices()
    }
}

/// There is enough history when `period` steps exist, that is one bar to
/// start from and `period` bars after it.
pub open spec fn has_enough_history(len: usize, period: usize) -> bool {
    len >= period + 1
}

/// The schedule for `len` bars: nothing while history is short; otherwise
/// bars `1 ..= period` seed the average and bars `period + 1 .. len` are
/// smoothed in.
pub open spec fn wilder_schedule_spec(len: usize, period: usize) -> Option<WilderSchedule> {
    if has_enough_history(len, period) {
        Some(
            WilderSchedule {
                seed: Span { start: 1, end: (period + 1) as usize },
                smoothing: Span { start: (period + 1) as usize, end: len },
            },
        )
    } else {
        None
    }
}

/// Lays out the seed and smoothing bars for a validated period.
pub(crate) fn wilder_schedule(len: usize, period: usize) -> (r: Option<WilderSchedule>)
    requires
        period >= 1,
    ensures
        r == wilder_schedule_spec(len, period),
{
    if len <= period {
        None
    } else {
        let first_smoothed: usize = period + 1;
        Some(
            WilderSchedule {
                seed: Span { start: 1, end: first_smoothed },
                smoothing: Span { start: first_smoothed, end: len },
            },
        )
    }
}

/// A schedule visits every bar after the first exactly once and in
/// chronological order, and exactly `period` of them seed the average.
/// Each bar that it names has a bar before it in a series of `len` bars.
pub proof fn lemma_schedule_is_chronological(len: usize, period: usize)
    requires
        period >= 1,
        has_enough_history(len, period),
    ensures
        wilder_schedule_spec(len, period) matches Some(s) && {
            &&& s.seed.count() == period
            &&& s.seed.count() + s.smoothing.count() == len - 1
            &&& s.bars() == Seq::new((len - 1) as nat, |k: int| k + 1)
            &&& forall|k: int| 0 <= k < s.bars().len() ==> 1 <= #[trigger] s.bars()[k] < len
        },
{
    let s = wilder_schedule_spec(len, period)->Some_0;
    assert(s.bars() =~= Seq::new((len - 1) as nat, |k: int| k + 1));
}

} // verus!
