//! Conversion of a UTC clock reading to the clock reading in a fixed UTC
//! offset, for display purposes only. The calendar date is intentionally
//! dropped: the conversion answers "what clock time does this correspond
//! to", not "what calendar day".

use crate::time::{lemma_from_secs, lemma_from_secs_of_secs, TimeOfDay};
use vstd::prelude::*;

verus! {

/// A fixed signed offset from UTC, in seconds. Well-formed offsets lie
/// strictly between minus one day and one day; `east_opt` and `west_opt`
/// only hand out such offsets.
#[derive(Clone, Copy, Debug, PartialEq, Eq, Structural)]
pub struct FixedOffset {
    pub local_minus_utc: i32,
}

impl FixedOffset {
    /// The offset lies strictly within one day of UTC.
    pub open spec fn wf(self) -> bool {
        -86400 < self.local_minus_utc < 86400
    }

    /// The offset as a signed count of seconds east of UTC.
    pub open spec fn secs(self) -> int {
        self.local_minus_utc as int
    }

    /// Builds the offset `secs` seconds east of UTC, rejecting any offset
    /// of a whole day or more.
    pub fn east_opt(secs: i32) -> (r: Option<FixedOffset>)
        ensures
            r is Some <==> -86400 < secs < 86400,
            r matches Some(o) ==> o == (FixedOffset { local_minus_utc: secs }),
    {
        if -86400 < secs && secs < 86400 {
            Some(FixedOffset { local_minus_utc: secs })
        } else {
            None
        }
    }

    /// Builds the offset `secs` seconds west of UTC, rejecting any offset
    /// of a whole day or more.
    pub fn west_opt(secs: i32) -> (r: Option<FixedOffset>)
        ensures
            r is Some <==> -86400 < secs < 86400,
            r matches Some(o) ==> o.secs() == -(secs as int),
    {
        if -86400 < secs && secs < 86400 {
            Some(FixedOffset { local_minus_utc: -secs })
        } else {
            None
        }
    }

    /// The offset itself, in seconds east of UTC.
    pub fn local_minus_utc(&self) -> (s: i32)
        ensures
            s == self.secs(),
    {
        self.local_minus_utc
    }
}

/// The reading obtained by sliding a UTC reading by a fixed offset and
/// wrapping within one day.
pub open spec fn spec_convert(t: TimeOfDay, offset: FixedOffset) -> TimeOfDay {
    TimeOfDay::spec_from_secs((t.secs() + offset.secs()) % 86400)
}

/// Converts a UTC clock reading to the clock reading at the given fixed
/// offset, discarding the calendar date.
pub fn convert_to_tz(time: TimeOfDay, target_tz: &FixedOffset) -> (r: TimeOfDay)
    requires
        time.wf(),
        target_tz.wf(),
    ensures
        r == spec_convert(time, *target_tz),
        r.wf(),
        r.secs() == (time.secs() + target_tz.secs()) % 86400,
{
    let shifted: i32 = time.num_seconds_from_midnight() as i32 + target_tz.local_minus_utc;
    let wrapped: u32 = if shifted < 0 {
        (shifted + 86400) as u32
    } else if shifted >= 86400 {
        (shifted - 86400) as u32
    } else {
        shifted as u32
    };
    proof {
        lemma_wrap_is_mod(time.secs() + target_tz.secs());
        lemma_from_secs(wrapped as int);
    }
    TimeOfDay::from_num_seconds(wrapped)
}

/// Shifting a sum that lies within one day of the `[0, 86400)` range back
/// into it computes exactly the Euclidean remainder modulo one day.
proof fn lemma_wrap_is_mod(x: int)
    requires
        -86400 < x < 2 * 86400,
    ensures
        x % 86400 == if x < 0 {
            x + 86400
        } else if x >= 86400 {
            x - 86400
        } else {
            x
        },
{
    if x < 0 {
        vstd::arithmetic::div_mod::lemma_fundamental_div_mod_converse_mod(x, 86400, -1, x + 86400);
    } else if x >= 86400 {
        vstd::arithmetic::div_mod::lemma_fundamental_div_mod_converse_mod(x, 86400, 1, x - 86400);
    } else {
        vstd::arithmetic::div_mod::lemma_fundamental_div_mod_converse_mod(x, 86400, 0, x);
    }
}

/// Converting to the zero offset is the identity: a UTC reading re-expressed
/// in UTC is unchanged.
pub proof fn lemma_convert_identity(t: TimeOfDay, offset: FixedOffset)
    requires
        t.wf(),
        offset.secs() == 0,
    ensures
        spec_convert(t, offset) == t,
{
    lemma_wrap_is_mod(t.secs());
    lemma_from_secs_of_secs(t);
}

} // verus!
