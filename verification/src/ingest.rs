//! The ingestion boundary: parsing untrusted `HH:MM:SS` UTC time strings
//! and building a team from externally supplied schedule data. Validation
//! errors are detected here, before any window enters the core.

use crate::interval::TimeInterval;
use crate::member::{Member, MemberView};
use crate::team::Team;
use crate::time::TimeOfDay;
use vstd::prelude::*;

verus! {

/// Raised when a time string cannot be parsed or a clock component lies
/// outside its valid range.
#[derive(Clone, Copy, Debug, PartialEq, Eq, Structural)]
pub struct InvalidTimeValue;

/// One member as supplied from outside: a display name and `(start, end)`
/// pairs of `HH:MM:SS` UTC time strings, not yet validated.
pub struct MemberData {
    pub name: String,
    pub work_intervals: Vec<(String, String)>,
}

/// A whole team as supplied from outside, not yet validated.
pub struct TeamData {
    pub members: Vec<MemberData>,
}

/// Whether `c` is a decimal digit.
pub open spec fn is_digit(c: char) -> bool {
    48 <= c as int <= 57
}

/// The value of the decimal digit `c`.
pub open spec fn digit_val(c: char) -> int {
    c as int - 48
}

/// The value of the two-digit group at positions `i` and `i + 1` of `s`.
pub open spec fn two_digit_val(s: Seq<char>, i: int) -> int {
    10 * digit_val(s[i]) + digit_val(s[i + 1])
}

/// Whether `s` has the exact shape `HH:MM:SS`: eight characters, decimal
/// digits in the component positions and colons between the components.
pub open spec fn is_time_shape(s: Seq<char>) -> bool {
    &&& s.len() == 8
    &&& is_digit(s[0])
    &&& is_digit(s[1])
    &&& s[2] == ':'
    &&& is_digit(s[3])
    &&& is_digit(s[4])
    &&& s[5] == ':'
    &&& is_digit(s[6])
    &&& is_digit(s[7])
}

/// The reading denoted by a `HH:MM:SS` string, or nothing when the string
/// is not of that shape or a component lies outside its clock range.
pub open spec fn spec_parse_time(s: Seq<char>) -> Option<TimeOfDay> {
    if is_time_shape(s) && two_digit_val(s, 0) < 24 && two_digit_val(s, 3) < 60 && two_digit_val(
        s,
        6,
    ) < 60 {
        Some(
            TimeOfDay {
                hour: two_digit_val(s, 0) as u8,
                minute: two_digit_val(s, 3) as u8,
                second: two_digit_val(s, 6) as u8,
            },
        )
    } else {
        None
    }
}

/// The window denoted by a pair of `HH:MM:SS` strings, or nothing when
/// either string does not denote a reading.
pub open spec fn spec_parse_interval(p: (String, String)) -> Option<TimeInterval> {
    match (spec_parse_time(p.0@), spec_parse_time(p.1@)) {
        (Some(start), Some(end)) => Some(TimeInterval { start, end }),
        _ => None,
    }
}

/// Whether every time string of `md` denotes a reading.
pub open spec fn member_data_ok(md: MemberData) -> bool {
    forall|i: int|
        0 <= i < md.work_intervals@.len() ==> (#[trigger] spec_parse_interval(
            md.work_intervals@[i],
        )) is Some
}

/// The member denoted by `md`, meaningful when `member_data_ok(md)` holds.
pub open spec fn spec_member(md: MemberData) -> MemberView {
    MemberView {
        name: md.name@,
        work_intervals: md.work_intervals@.map_values(
            |p: (String, String)| spec_parse_interval(p).unwrap(),
        ),
    }
}

/// Whether every time string of `data` denotes a reading.
pub open spec fn team_data_ok(data: TeamData) -> bool {
    forall|i: int| 0 <= i < data.members@.len() ==> member_data_ok(#[trigger] data.members@[i])
}

/// The team denoted by `data`, meaningful when `team_data_ok(data)` holds.
pub open spec fn spec_team(data: TeamData) -> Seq<MemberView> {
    data.members@.map_values(|md: MemberData| spec_member(md))
}

/// The value of the decimal digit `c`, or nothing when `c` is no digit.
fn digit_value(c: char) -> (r: Option<u8>)
    ensures
        r is Some <==> is_digit(c),
        r matches Some(v) ==> v == digit_val(c),
{
    let u = c as u32;
    if 48 <= u && u <= 57 {
        Some((u - 48) as u8)
    } else {
        None
    }
}

/// The value of the two-digit group at positions `i` and `i + 1` of `s`,
/// or nothing when either character is no digit.
fn two_digit_value(s: &str, i: usize) -> (r: Option<u8>)
    requires
        i + 2 <= s@.len() <= usize::MAX,
    ensures
        r is Some <==> is_digit(s@[i as int]) && is_digit(s@[i + 1]),
        r matches Some(v) ==> v == two_digit_val(s@, i as int),
{
    let hi = match digit_value(s.get_char(i)) {
        Some(v) => v,
        None => {
            return None;
        },
    };
    let lo = match digit_value(s.get_char(i + 1)) {
        Some(v) => v,
        None => {
            return None;
        },
    };
    Some(10 * hi + lo)
}

/// Parses a `HH:MM:SS` UTC time string, rejecting any string of another
/// shape and any out-of-range clock component.
pub fn parse_time(s: &str) -> (r: Result<TimeOfDay, InvalidTimeValue>)
    ensures
        r matches Ok(t) ==> spec_parse_time(s@) == Some(t),
        r is Err <==> spec_parse_time(s@) is None,
{
    if s.unicode_len() != 8 {
        return Err(InvalidTimeValue);
    }
    if s.get_char(2) != ':' || s.get_char(5) != ':' {
        return Err(InvalidTimeValue);
    }
    let hour = match two_digit_value(s, 0) {
        Some(v) => v,
        None => {
            return Err(InvalidTimeValue);
        },
    };
    let minute = match two_digit_value(s, 3) {
        Some(v) => v,
        None => {
            return Err(InvalidTimeValue);
        },
    };
    let second = match two_digit_value(s, 6) {
        Some(v) => v,
        None => {
            return Err(InvalidTimeValue);
        },
    };
    if hour < 24 && minute < 60 && second < 60 {
        Ok(TimeOfDay { hour, minute, second })
    } else {
        Err(InvalidTimeValue)
    }
}

/// Parses every `(start, end)` pair of `HH:MM:SS` strings into a window,
/// keeping the order; fails exactly when some string does not denote a
/// reading.
pub fn parse_intervals(pairs: &Vec<(String, String)>) -> (r: Result<
    Vec<TimeInterval>,
    InvalidTimeValue,
>)
    ensures
        r matches Ok(v) ==> {
            &&& v@.len() == pairs@.len()
            &&& forall|i: int|
                0 <= i < pairs@.len() ==> Some(v@[i]) == #[trigger] spec_parse_interval(pairs@[i])
        },
        r is Err <==> exists|i: int|
            0 <= i < pairs@.len() && (#[trigger] spec_parse_interval(pairs@[i])) is None,
{
    let mut out: Vec<TimeInterval> = Vec::new();
    let n = pairs.len();
    for idx in 0..n
        invariant
            n == pairs@.len(),
            out@.len() == idx,
            forall|i: int|
                0 <= i < idx ==> Some(out@[i]) == #[trigger] spec_parse_interval(pairs@[i]),
    {
        let start = match parse_time(pairs[idx].0.as_str()) {
            Ok(t) => t,
            Err(e) => {
                proof {
                    assert(spec_parse_interval(pairs@[idx as int]) is None);
                }
                return Err(e);
            },
        };
        let end = match parse_time(pairs[idx].1.as_str()) {
            Ok(t) => t,
            Err(e) => {
                proof {
                    assert(spec_parse_interval(pairs@[idx as int]) is None);
                }
                return Err(e);
            },
        };
        out.push(TimeInterval { start, end });
    }
    Ok(out)
}

/// Builds a team from externally supplied schedule data: each member keeps
/// their name and their windows in order. Fails with `InvalidTimeValue`
/// exactly when some time string of some member does not denote a reading.
pub fn build_team(data: &TeamData) -> (r: Result<Team, InvalidTimeValue>)
    ensures
        r matches Ok(team) ==> team_data_ok(*data) && team@ == spec_team(*data),
        r is Err <==> !team_data_ok(*data),
{
    let mut team = Team::new();
    let n = data.members.len();
    proof {
        assert(team@ =~= spec_team(*data).take(0));
    }
    for i in 0..n
        invariant
            n == data.members@.len(),
            forall|j: int| 0 <= j < i ==> member_data_ok(#[trigger] data.members@[j]),
            team@ == spec_team(*data).take(i as int),
    {
        let md = &data.members[i];
        let intervals = match parse_intervals(&md.work_intervals) {
            Ok(v) => v,
            Err(e) => {
                proof {
                    assert(!member_data_ok(data.members@[i as int]));
                }
                return Err(e);
            },
        };
        let member = Member::new(md.name.clone(), intervals);
        proof {
            assert(member@.work_intervals =~= spec_member(data.members@[i as int]).work_intervals);
            assert(member@ == spec_member(data.members@[i as int]));
        }
        let ghost before = team@;
        team.add_member(member);
        proof {
            assert(spec_team(*data).take(i + 1) =~= before.push(member@));
        }
    }
    proof {
        assert(spec_team(*data).take(n as int) =~= spec_team(*data));
    }
    Ok(team)
}

} // verus!
