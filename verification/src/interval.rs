//! Recurring daily work windows `[start, end)` in UTC, including windows
//! that wrap past midnight.

use crate::time::TimeOfDay;
use vstd::prelude::*;

verus! {

/// A recurring daily UTC window `[start, end)`.
///
/// When `start >= end` the window wraps past midnight: it covers the
/// readings from `start` to midnight and from midnight up to (excluding)
/// `end`. In particular a window with `start == end` is defined to cover
/// every reading of the day ("always on"): the wraparound rule below makes
/// `t >= start || t < end` hold for every `t`.
#[derive(Clone, Copy, Debug, PartialEq, Eq, Structural)]
pub struct TimeInterval {
    pub start: TimeOfDay,
    pub end: TimeOfDay,
}

impl TimeInterval {
    /// Both endpoints are well-formed readings.
    pub open spec fn wf(self) -> bool {
        self.start.wf() && self.end.wf()
    }

    /// Whether the window covers the reading `t`: for a non-wrapping window
    /// (`start < end`) exactly when `start <= t < end`; for a wrapping one
    /// (`start >= end`) exactly when `t >= start || t < end`.
    pub open spec fn spec_contains(self, t: TimeOfDay) -> bool {
        if self.start.secs() < self.end.secs() {
            self.start.secs() <= t.secs() < self.end.secs()
        } else {
            t.secs() >= self.start.secs() || t.secs() < self.end.secs()
        }
    }

    /// Builds the window `[start, end)`; `start >= end` is meaningful and
    /// denotes a window wrapping past midnight.
    pub fn new(start: TimeOfDay, end: TimeOfDay) -> (iv: TimeInterval)
        ensures
            iv == (TimeInterval { start, end }),
    {
        TimeInterval { start, end }
    }

    /// Containment test for the window, over both the non-wrapping and the
    /// wrapping case.
    pub fn contains(&self, t: TimeOfDay) -> (r: bool)
        ensures
            r == self.spec_contains(t),
    {
        let start = self.start.num_seconds_from_midnight();
        let end = self.end.num_seconds_from_midnight();
        let at = t.num_seconds_from_midnight();
        if start < end {
            start <= at && at < end
        } else {
            at >= start || at < end
        }
    }
}

/// For every non-wrapping window (`start < end`), containment is exactly
/// the half-open test `start <= t < end`.
pub proof fn lemma_contains_non_wrapping(iv: TimeInterval, t: TimeOfDay)
    requires
        iv.wf(),
        t.wf(),
        iv.start.secs() < iv.end.secs(),
    ensures
        iv.spec_contains(t) == (iv.start.secs() <= t.secs() < iv.end.secs()),
{
}

/// For every wrapping window (`start >= end`), containment is exactly the
/// disjunction `t >= start || t < end`.
pub proof fn lemma_contains_wrapping(iv: TimeInterval, t: TimeOfDay)
    requires
        iv.wf(),
        t.wf(),
        iv.start.secs() >= iv.end.secs(),
    ensures
        iv.spec_contains(t) == (t.secs() >= iv.start.secs() || t.secs() < iv.end.secs()),
{
}

} // verus!
