//! Team members: a display name together with an ordered sequence of
//! recurring daily work windows, all expressed in UTC.

use crate::convert::FixedOffset;
use crate::interval::TimeInterval;
use crate::time::TimeOfDay;
use vstd::prelude::*;

verus! {

/// The mathematical content of a member: their name and their work
/// windows, in the order they were supplied.
pub struct MemberView {
    pub name: Seq<char>,
    pub work_intervals: Seq<TimeInterval>,
}

impl MemberView {
    /// Every work window is made of well-formed readings.
    pub open spec fn wf(self) -> bool {
        forall|i: int| 0 <= i < self.work_intervals.len() ==> (#[trigger] self.work_intervals[i]).wf()
    }

    /// The member is online at `t` exactly when at least one of their work
    /// windows covers `t`; the order of the windows is irrelevant.
    pub open spec fn is_online(self, t: TimeOfDay) -> bool {
        exists|i: int|
            0 <= i < self.work_intervals.len() && (#[trigger] self.work_intervals[i]).spec_contains(
                t,
            )
    }
}

/// The order of a member's work windows is irrelevant to being online:
/// any two members whose windows are the same up to order are online at
/// exactly the same instants.
pub proof fn lemma_is_online_order_irrelevant(a: MemberView, b: MemberView, t: TimeOfDay)
    requires
        a.work_intervals.to_multiset() == b.work_intervals.to_multiset(),
    ensures
        a.is_online(t) == b.is_online(t),
{
    broadcast use vstd::seq_lib::group_to_multiset_ensures;

    if a.is_online(t) {
        let i = choose|i: int|
            0 <= i < a.work_intervals.len() && a.work_intervals[i].spec_contains(t);
        let iv = a.work_intervals[i];
        assert(a.work_intervals.contains(iv));
        assert(a.work_intervals.to_multiset().count(iv) > 0);
        assert(b.work_intervals.to_multiset().count(iv) > 0);
        assert(b.work_intervals.contains(iv));
        let j = choose|j: int| 0 <= j < b.work_intervals.len() && b.work_intervals[j] == iv;
        assert(b.work_intervals[j].spec_contains(t));
    }
    if b.is_online(t) {
        let i = choose|i: int|
            0 <= i < b.work_intervals.len() && b.work_intervals[i].spec_contains(t);
        let iv = b.work_intervals[i];
        assert(b.work_intervals.contains(iv));
        assert(b.work_intervals.to_multiset().count(iv) > 0);
        assert(a.work_intervals.to_multiset().count(iv) > 0);
        assert(a.work_intervals.contains(iv));
        let j = choose|j: int| 0 <= j < a.work_intervals.len() && a.work_intervals[j] == iv;
        assert(a.work_intervals[j].spec_contains(t));
    }
}

/// A team member, immutable once constructed. All work windows must be
/// supplied in UTC.
#[derive(Debug)]
pub struct Member {
    name: String,
    work_intervals: Vec<TimeInterval>,
}

impl View for Member {
    type V = MemberView;

    closed spec fn view(&self) -> MemberView {
        MemberView { name: self.name@, work_intervals: self.work_intervals@ }
    }
}

impl Member {
    /// Builds a member from a name and work windows; both are kept exactly
    /// as supplied.
    pub fn new(name: String, work_intervals: Vec<TimeInterval>) -> (m: Member)
        ensures
            m@.name == name@,
            m@.work_intervals == work_intervals@,
    {
        Member { name, work_intervals }
    }

    /// The member's display name.
    pub fn name(&self) -> (n: &String)
        ensures
            n@ == self@.name,
    {
        &self.name
    }

    /// The zone in which this member's work windows are interpreted;
    /// always UTC, whatever windows the member holds.
    pub fn timezone(&self) -> (tz: FixedOffset)
        ensures
            tz.secs() == 0,
            tz.wf(),
    {
        FixedOffset { local_minus_utc: 0 }
    }

    /// The member's work windows, in the order they were supplied.
    pub fn work_intervals(&self) -> (w: &Vec<TimeInterval>)
        ensures
            w@ == self@.work_intervals,
    {
        &self.work_intervals
    }

    /// Whether any of the member's work windows covers the reading `t`.
    pub fn is_online(&self, t: TimeOfDay) -> (r: bool)
        ensures
            r == self@.is_online(t),
    {
        let n = self.work_intervals.len();
        for i in 0..n
            invariant
                n == self.work_intervals@.len(),
                forall|j: int|
                    0 <= j < i ==> !(#[trigger] self.work_intervals@[j]).spec_contains(t),
        {
            if self.work_intervals[i].contains(t) {
                proof {
                    assert(self@.work_intervals[i as int].spec_contains(t));
                }
                return true;
            }
        }
        false
    }
}

} // verus!
