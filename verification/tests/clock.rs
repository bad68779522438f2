use chrono::{DateTime, TimeZone, Utc};
use zenbook_duo_control::clock::{Timestamp, FIRST_SECOND, LAST_SECOND};

#[test]
fn moments_are_those_of_the_calendar() {
    assert_eq!(FIRST_SECOND, DateTime::<Utc>::MIN_UTC.timestamp());
    assert_eq!(LAST_SECOND, DateTime::<Utc>::MAX_UTC.timestamp());
    assert!(Timestamp::from_parts(FIRST_SECOND, 0).is_some());
    assert!(Timestamp::from_parts(LAST_SECOND, 999_999_999).is_some());
    assert!(Timestamp::from_parts(FIRST_SECOND - 1, 0).is_none());
    assert!(Timestamp::from_parts(LAST_SECOND + 1, 0).is_none());
    assert!(Timestamp::from_parts(i64::MIN, 0).is_none());
    assert!(Timestamp::from_parts(i64::MAX, 0).is_none());
}

#[test]
fn leap_seconds_follow_the_last_second_of_a_minute() {
    assert!(Timestamp::from_parts(59, 1_000_000_000).is_some());
    assert!(Timestamp::from_parts(59, 1_999_999_999).is_some());
    assert!(Timestamp::from_parts(59, 2_000_000_000).is_none());
    assert!(Timestamp::from_parts(60, 1_000_000_000).is_none());
    assert!(Timestamp::from_parts(-1, 1_000_000_000).is_some());
    assert!(Timestamp::from_parts(-60, 1_000_000_000).is_none());
    assert!(Timestamp::from_parts(LAST_SECOND, 1_000_000_000).is_some());
}

#[test]
fn parts_are_kept() {
    let t = Timestamp::from_parts(1_700_000_000, 123).unwrap();
    assert_eq!(t.secs(), 1_700_000_000);
    assert_eq!(t.nanos(), 123);
}

#[test]
fn whole_seconds_round_towards_zero() {
    let a = Timestamp::from_parts(100, 900_000_000).unwrap();
    let b = Timestamp::from_parts(102, 800_000_000).unwrap();
    assert_eq!(b.seconds_since(&a), 1);
    assert_eq!(a.seconds_since(&b), -1);
    assert_eq!(a.seconds_since(&a), 0);
    let first = Timestamp::from_parts(FIRST_SECOND, 0).unwrap();
    let last = Timestamp::from_parts(LAST_SECOND, 999_999_999).unwrap();
    assert_eq!(last.seconds_since(&first), LAST_SECOND - FIRST_SECOND);
    assert_eq!(first.seconds_since(&last), FIRST_SECOND - LAST_SECOND);
}

#[test]
fn differences_agree_with_the_calendar() {
    let moments = [
        (0i64, 0u32),
        (10, 0),
        (59, 0),
        (59, 1_500_000_000),
        (60, 1),
        (-5, 999_999_999),
        (-1, 1_999_999_999),
        (86_399, 1_000_000_000),
        (86_410, 0),
        (172_859, 1_250_000_000),
        (-86_341, 1_750_000_000),
    ];
    for &(s1, n1) in moments.iter() {
        for &(s2, n2) in moments.iter() {
            let expected = (Utc.timestamp_opt(s1, n1).unwrap() - Utc.timestamp_opt(s2, n2).unwrap())
                .num_seconds();
            let later = Timestamp::from_parts(s1, n1).unwrap();
            let earlier = Timestamp::from_parts(s2, n2).unwrap();
            assert_eq!(later.seconds_since(&earlier), expected);
            let leap = match s1.rem_euclid(86_400) - s2.rem_euclid(86_400) {
                d if d > 0 && n2 >= 1_000_000_000 => 1,
                d if d < 0 && n1 >= 1_000_000_000 => -1,
                _ => 0,
            };
            let between = (s1 - s2 + leap) * 1_000_000_000 + (i64::from(n1) - i64::from(n2));
            assert_eq!(expected, between / 1_000_000_000);
        }
    }
}

#[test]
fn leap_seconds_count_between_moments() {
    let moment = |secs, nanos| Timestamp::from_parts(secs, nanos).unwrap();
    let leap = moment(59, 1_500_000_000);
    assert_eq!(moment(60, 0).seconds_since(&leap), 0);
    assert_eq!(moment(61, 0).seconds_since(&leap), 1);
    assert_eq!(leap.seconds_since(&moment(61, 0)), -1);
    assert_eq!(leap.seconds_since(&moment(59, 0)), 1);
    assert_eq!(leap.seconds_since(&moment(10, 0)), 50);
    assert_eq!(moment(86_410, 0).seconds_since(&leap), 86_349);
    assert_eq!(leap.seconds_since(&leap), 0);
}

#[test]
fn present_moment_is_that_of_the_system() {
    let before = Utc::now().timestamp();
    let now = Timestamp::now();
    let after = Utc::now().timestamp();
    assert!(before <= now.secs() && now.secs() <= after);
    assert!(now.nanos() < 1_000_000_000);
}
