//! Clock readings: a time of day (hour, minute, second) with no calendar
//! date attached. All schedule data is expressed in these.

use vstd::prelude::*;

verus! {

/// A clock reading: hour, minute and second, with no associated calendar
/// date. A reading is meaningful when `wf()` holds; `from_hms_opt` only
/// hands out such readings.
#[derive(Clone, Copy, Debug, PartialEq, Eq, Structural)]
pub struct TimeOfDay {
    pub hour: u8,
    pub minute: u8,
    pub second: u8,
}

impl TimeOfDay {
    /// Every component lies within its clock range.
    pub open spec fn wf(self) -> bool {
        self.hour < 24 && self.minute < 60 && self.second < 60
    }

    /// The reading as a count of seconds since midnight.
    pub open spec fn secs(self) -> int {
        self.hour * 3600 + self.minute * 60 + self.second
    }

    /// The reading lying `s` seconds after midnight.
    pub open spec fn spec_from_secs(s: int) -> TimeOfDay {
        TimeOfDay {
            hour: (s / 3600) as u8,
            minute: ((s % 3600) / 60) as u8,
            second: (s % 60) as u8,
        }
    }

    /// Builds the reading `hour:minute:second`, rejecting any out-of-range
    /// component.
    pub fn from_hms_opt(hour: u8, minute: u8, second: u8) -> (r: Option<TimeOfDay>)
        ensures
            r is Some <==> hour < 24 && minute < 60 && second < 60,
            r matches Some(t) ==> t == (TimeOfDay { hour, minute, second }),
    {
        if hour < 24 && minute < 60 && second < 60 {
            Some(TimeOfDay { hour, minute, second })
        } else {
            None
        }
    }

    /// The reading as seconds since midnight.
    pub fn num_seconds_from_midnight(&self) -> (s: u32)
        ensures
            s == self.secs(),
    {
        self.hour as u32 * 3600 + self.minute as u32 * 60 + self.second as u32
    }

    /// Builds the reading that lies `s` seconds after midnight.
    pub fn from_num_seconds(s: u32) -> (t: TimeOfDay)
        requires
            s < 86400,
        ensures
            t == TimeOfDay::spec_from_secs(s as int),
            t.wf(),
            t.secs() == s,
    {
        proof {
            lemma_from_secs(s as int);
        }
        let hour = (s / 3600) as u8;
        let minute = ((s % 3600) / 60) as u8;
        let second = (s % 60) as u8;
        TimeOfDay { hour, minute, second }
    }
}

/// For any second count within one day, `spec_from_secs` yields a
/// well-formed reading lying exactly that many seconds after midnight.
pub proof fn lemma_from_secs(s: int)
    requires
        0 <= s < 86400,
    ensures
        TimeOfDay::spec_from_secs(s).wf(),
        TimeOfDay::spec_from_secs(s).secs() == s,
{
    vstd::arithmetic::div_mod::lemma_fundamental_div_mod(s, 3600);
    vstd::arithmetic::div_mod::lemma_fundamental_div_mod(s % 3600, 60);
    vstd::arithmetic::div_mod::lemma_fundamental_div_mod(s, 60);
    assert(0 <= s % 3600 < 3600);
    assert(0 <= s % 60 < 60);
    assert((s % 3600) % 60 == s % 60) by {
        let q = s / 3600;
        let r = s % 3600;
        // s == 3600 * q + r, so s == 60 * (60 * q + r / 60) + r % 60
        vstd::arithmetic::div_mod::lemma_fundamental_div_mod(r, 60);
        vstd::arithmetic::div_mod::lemma_fundamental_div_mod_converse_mod(
            s,
            60,
            60 * q + r / 60,
            r % 60,
        );
    };
}

/// A well-formed reading is recovered exactly from its own second count.
pub proof fn lemma_from_secs_of_secs(t: TimeOfDay)
    requires
        t.wf(),
    ensures
        TimeOfDay::spec_from_secs(t.secs()) == t,
{
    let s = t.secs();
    vstd::arithmetic::div_mod::lemma_fundamental_div_mod_converse(
        s,
        3600,
        t.hour as int,
        t.minute * 60 + t.second,
    );
    vstd::arithmetic::div_mod::lemma_fundamental_div_mod_converse(
        s % 3600,
        60,
        t.minute as int,
        t.second as int,
    );
    vstd::arithmetic::div_mod::lemma_fundamental_div_mod_converse_mod(
        s,
        60,
        t.hour * 60 + t.minute,
        t.second as int,
    );
}

} // verus!
