use remote_work::convert::{convert_to_tz, FixedOffset};
use remote_work::interval::TimeInterval;
use remote_work::member::Member;
use remote_work::team::Team;
use remote_work::time::TimeOfDay;

fn hms(hour: u8, minute: u8, second: u8) -> TimeOfDay {
    TimeOfDay::from_hms_opt(hour, minute, second).unwrap()
}

#[test]
fn new_member() {
    let work_intervals = vec![
        TimeInterval::new(hms(9, 0, 0), hms(10, 0, 0)),
        TimeInterval::new(hms(12, 0, 0), hms(14, 0, 0)),
        TimeInterval::new(hms(16, 0, 0), hms(20, 0, 0)),
    ];

    let member = Member::new(String::from("Alice"), work_intervals.clone());

    assert_eq!(member.name(), "Alice");
    assert_eq!(member.work_intervals(), &work_intervals);
}

#[test]
fn work_intervals() {
    let work_intervals = vec![
        TimeInterval::new(hms(9, 0, 0), hms(10, 0, 0)),
        TimeInterval::new(hms(13, 0, 0), hms(14, 0, 0)),
        TimeInterval::new(hms(18, 0, 0), hms(20, 0, 0)),
    ];

    let member = Member::new(String::from("Bob"), work_intervals.clone());
    assert_eq!(member.work_intervals(), &work_intervals);
}

#[test]
fn test_add_member() {
    let mut team = Team::new();
    assert_eq!(team.members().len(), 0);

    let member = Member::new(
        String::from("Alice"),
        vec![
            TimeInterval::new(hms(9, 0, 0), hms(11, 0, 0)),
            TimeInterval::new(hms(13, 0, 0), hms(18, 0, 0)),
        ],
    );
    team.add_member(member);
    assert_eq!(team.members().len(), 1);
}

#[test]
fn test_members_online() {
    let mut team = Team::new();

    let alice = Member::new(
        String::from("Alice"),
        vec![
            TimeInterval::new(hms(9, 0, 0), hms(11, 0, 0)),
            TimeInterval::new(hms(13, 0, 0), hms(18, 0, 0)),
        ],
    );
    let bob = Member::new(
        String::from("Bob"),
        vec![TimeInterval::new(hms(16, 0, 0), hms(23, 30, 0))],
    );
    team.add_member(alice);
    team.add_member(bob);

    let online_members = team.members_online(hms(15, 0, 0));
    assert_eq!(online_members.len(), 1);
    assert_eq!(online_members[0].name(), "Alice");

    let online_members = team.members_online(hms(17, 00, 0));
    assert_eq!(online_members.len(), 2);
    assert_eq!(online_members[0].name(), "Alice");
    assert_eq!(online_members[1].name(), "Bob");
}

#[test]
fn test_convert_to_tz() {
    let original_time = hms(12, 0, 0);

    // Convert from UTC to UTC
    let converted_time = convert_to_tz(original_time, &FixedOffset::east_opt(0).unwrap());
    assert_eq!(converted_time, original_time);

    // Convert from UTC to a zone at UTC+5:30
    let converted_time = convert_to_tz(
        original_time,
        &FixedOffset::east_opt(5 * 3600 + 30 * 60).unwrap(),
    );
    assert_eq!(converted_time, hms(17, 30, 0));

    // Convert from UTC to a zone at UTC-8:00
    let converted_time = convert_to_tz(original_time, &FixedOffset::west_opt(8 * 3600).unwrap());
    assert_eq!(converted_time, hms(4, 0, 0));
}

#[test]
fn non_wrapping_interval_is_half_open() {
    let iv = TimeInterval::new(hms(9, 0, 0), hms(17, 0, 0));
    assert!(iv.contains(hms(9, 0, 0)));
    assert!(iv.contains(hms(12, 34, 56)));
    assert!(!iv.contains(hms(17, 0, 0)));
    assert!(!iv.contains(hms(8, 59, 59)));
    assert!(!iv.contains(hms(22, 0, 0)));
}

#[test]
fn wrapping_interval_crosses_midnight() {
    let iv = TimeInterval::new(hms(22, 0, 0), hms(6, 0, 0));
    assert!(iv.contains(hms(22, 0, 0)));
    assert!(iv.contains(hms(23, 59, 59)));
    assert!(iv.contains(hms(0, 0, 0)));
    assert!(iv.contains(hms(5, 59, 59)));
    assert!(!iv.contains(hms(6, 0, 0)));
    assert!(!iv.contains(hms(12, 0, 0)));
}

#[test]
fn equal_endpoints_interval_is_always_on() {
    let iv = TimeInterval::new(hms(9, 0, 0), hms(9, 0, 0));
    assert!(iv.contains(hms(9, 0, 0)));
    assert!(iv.contains(hms(0, 0, 0)));
    assert!(iv.contains(hms(23, 59, 59)));
}

#[test]
fn wraparound_member_online() {
    let mut team = Team::new();
    let carl = Member::new(
        String::from("Carl"),
        vec![TimeInterval::new(hms(22, 0, 0), hms(6, 0, 0))],
    );
    team.add_member(carl);

    assert_eq!(team.members_online(hms(23, 0, 0)).len(), 1);
    assert_eq!(team.members_online(hms(7, 0, 0)).len(), 0);
    assert_eq!(team.members_online(hms(5, 59, 59)).len(), 1);
}

#[test]
fn members_online_is_deterministic_and_ordered() {
    let mut team = Team::new();
    team.add_member(Member::new(
        String::from("Alice"),
        vec![TimeInterval::new(hms(9, 0, 0), hms(18, 0, 0))],
    ));
    team.add_member(Member::new(
        String::from("Bob"),
        vec![TimeInterval::new(hms(0, 0, 0), hms(23, 59, 59))],
    ));
    team.add_member(Member::new(
        String::from("Carol"),
        vec![TimeInterval::new(hms(10, 0, 0), hms(11, 0, 0))],
    ));

    let t = hms(10, 30, 0);
    let first: Vec<String> = team
        .members_online(t)
        .iter()
        .map(|m| m.name().clone())
        .collect();
    let second: Vec<String> = team
        .members_online(t)
        .iter()
        .map(|m| m.name().clone())
        .collect();
    assert_eq!(first, vec!["Alice", "Bob", "Carol"]);
    assert_eq!(first, second);
}

#[test]
fn interval_order_is_irrelevant_to_is_online() {
    let a = TimeInterval::new(hms(9, 0, 0), hms(11, 0, 0));
    let b = TimeInterval::new(hms(13, 0, 0), hms(18, 0, 0));
    let forward = Member::new(String::from("F"), vec![a, b]);
    let backward = Member::new(String::from("B"), vec![b, a]);
    for t in [hms(10, 0, 0), hms(12, 0, 0), hms(14, 0, 0), hms(20, 0, 0)] {
        assert_eq!(forward.is_online(t), backward.is_online(t));
    }
}

#[test]
fn member_timezone_is_utc() {
    let member = Member::new(String::from("Alice"), Vec::new());
    assert_eq!(member.timezone().local_minus_utc(), 0);
}

#[test]
fn convert_identity_on_zero_offset() {
    let utc = FixedOffset::east_opt(0).unwrap();
    for t in [hms(0, 0, 0), hms(12, 0, 0), hms(23, 59, 59), hms(5, 30, 59)] {
        assert_eq!(convert_to_tz(t, &utc), t);
    }
}

#[test]
fn convert_wraps_within_one_day() {
    // A UTC reading near midnight may roll past it in the display zone.
    let east = FixedOffset::east_opt(5 * 3600 + 30 * 60).unwrap();
    assert_eq!(convert_to_tz(hms(23, 0, 0), &east), hms(4, 30, 0));
    let west = FixedOffset::west_opt(8 * 3600).unwrap();
    assert_eq!(convert_to_tz(hms(3, 0, 0), &west), hms(19, 0, 0));
}

#[test]
fn from_hms_opt_rejects_out_of_range() {
    assert!(TimeOfDay::from_hms_opt(24, 0, 0).is_none());
    assert!(TimeOfDay::from_hms_opt(0, 60, 0).is_none());
    assert!(TimeOfDay::from_hms_opt(0, 0, 60).is_none());
    assert!(TimeOfDay::from_hms_opt(23, 59, 59).is_some());
}

#[test]
fn fixed_offset_bounds() {
    assert!(FixedOffset::east_opt(86400).is_none());
    assert!(FixedOffset::west_opt(86400).is_none());
    let o = FixedOffset::east_opt(-3600).unwrap();
    assert_eq!(o.local_minus_utc(), -3600);
    let w = FixedOffset::west_opt(3600).unwrap();
    assert_eq!(w.local_minus_utc(), -3600);
}
