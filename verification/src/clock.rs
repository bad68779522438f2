//! Moments in time.

use vstd::prelude::*;

verus! {

/// The first second that a moment can have, counted from the Unix epoch.
pub const FIRST_SECOND: i64 = -8_334_601_228_800;

/// The last second that a moment can have, counted from the Unix epoch.
pub const LAST_SECOND: i64 = 8_210_266_876_799;

/// A second and a nanosecond that make a moment. A nanosecond part of a second or more stands
/// for a leap second, which only the last second of a minute can be followed by.
pub open spec fn is_moment(secs: i64, nanos: u32) -> bool {
    &&& FIRST_SECOND <= secs <= LAST_SECOND
    &&& nanos < 2_000_000_000
    &&& nanos >= 1_000_000_000 ==> secs % 60 == 59
}

/// The quotient of two numbers, rounded towards zero.
pub open spec fn quotient_towards_zero(n: int, d: int) -> int {
    if n >= 0 {
        n / d
    } else {
        -((-n) / d)
    }
}

/// The second of the day.
pub open spec fn second_of_day(secs: i64) -> int {
    secs as int % 86_400
}

/// The leap second that counts between two moments beyond their seconds and nanoseconds: there is
/// one where the two differ in the second of the day and the one that has the smaller lies in a
/// leap second. Whole days between the two make no difference.
pub open spec fn leap_between(
    later_secs: i64,
    later_nanos: u32,
    earlier_secs: i64,
    earlier_nanos: u32,
) -> int {
    if second_of_day(later_secs) > second_of_day(earlier_secs) && earlier_nanos >= 1_000_000_000 {
        1
    } else if second_of_day(later_secs) < second_of_day(earlier_secs) && later_nanos
        >= 1_000_000_000 {
        -1
    } else {
        0
    }
}

/// The whole seconds from one moment to another, rounded towards zero.
pub open spec fn whole_seconds(
    later_secs: i64,
    later_nanos: u32,
    earlier_secs: i64,
    earlier_nanos: u32,
) -> int {
    quotient_towards_zero(
        (later_secs - earlier_secs + leap_between(
            later_secs,
            later_nanos,
            earlier_secs,
            earlier_nanos,
        )) * 1_000_000_000 + (later_nanos - earlier_nanos),
        1_000_000_000,
    )
}

/// Calls `chrono::Utc::now`: the time of the system clock, which that call takes to lie at or
/// after the Unix epoch. It is a moment outside any leap second; which one, is not stated.
#[verifier::external_body]
fn utc_now() -> (r: (i64, u32))
    ensures
        is_moment(r.0, r.1),
        r.0 >= 0,
        r.1 < 1_000_000_000,
{
    let now = chrono::Utc::now();
    (now.timestamp(), now.timestamp_subsec_nanos())
}

/// Calls `chrono::TimeDelta::num_seconds` on the difference of two `chrono::DateTime` values:
/// the difference in nanoseconds, with the leap second that counts between the two, in whole
/// seconds, rounded towards zero. The two are made by `chrono::DateTime::from_timestamp`, which
/// gives a time for every second and nanosecond that `is_moment` admits.
#[verifier::external_body]
fn whole_seconds_between(
    later_secs: i64,
    later_nanos: u32,
    earlier_secs: i64,
    earlier_nanos: u32,
) -> (r: i64)
    requires
        is_moment(later_secs, later_nanos),
        is_moment(earlier_secs, earlier_nanos),
    ensures
        r == whole_seconds(later_secs, later_nanos, earlier_secs, earlier_nanos),
{
    let later = chrono::DateTime::from_timestamp(later_secs, later_nanos).unwrap();
    let earlier = chrono::DateTime::from_timestamp(earlier_secs, earlier_nanos).unwrap();
    (later - earlier).num_seconds()
}

/// A moment in Coordinated Universal Time.
#[derive(Debug, Clone, Copy, PartialEq, Eq, Structural)]
pub struct Timestamp {
    secs: i64,
    nanos: u32,
}

impl Timestamp {
    #[verifier::type_invariant]
    spec fn wf(self) -> bool {
        is_moment(self.secs, self.nanos)
    }

    /// The second, counted from the Unix epoch.
    pub closed spec fn second(self) -> i64 {
        self.secs
    }

    /// The nanosecond within the second.
    pub closed spec fn nanosecond(self) -> u32 {
        self.nanos
    }

    /// The whole seconds from `earlier` to this moment, rounded towards zero.
    pub open spec fn seconds_after(self, earlier: Timestamp) -> int {
        whole_seconds(
            self.second(),
            self.nanosecond(),
            earlier.second(),
            earlier.nanosecond(),
        )
    }

    /// A moment that the system clock can show: at or after the Unix epoch, and outside any leap
    /// second.
    pub open spec fn is_clock_time(self) -> bool {
        &&& self.second() >= 0
        &&& self.nanosecond() < 1_000_000_000
        &&& is_moment(self.second(), self.nanosecond())
    }

    /// The moment with this second and nanosecond, if there is one.
    pub fn from_parts(secs: i64, nanos: u32) -> (r: Option<Timestamp>)
        ensures
            match r {
                Some(t) => is_moment(secs, nanos) && t.second() == secs && t.nanosecond() == nanos,
                None => !is_moment(secs, nanos),
            },
    {
        if secs < FIRST_SECOND || secs > LAST_SECOND || nanos >= 2_000_000_000 {
            return None;
        }
        let since_first: u64 = (secs - FIRST_SECOND) as u64;
        assert(since_first % 60 == secs % 60);
        if nanos >= 1_000_000_000 && since_first % 60 != 59 {
            None
        } else {
            Some(Timestamp { secs, nanos })
        }
    }

    /// The present moment. Two calls may give any two moments.
    pub fn now() -> (r: Timestamp)
        ensures
            r.is_clock_time(),
    {
        let (secs, nanos) = utc_now();
        Timestamp { secs, nanos }
    }

    /// The second, counted from the Unix epoch.
    pub fn secs(&self) -> (r: i64)
        ensures
            r == self.second(),
            is_moment(self.second(), self.nanosecond()),
    {
        proof {
            use_type_invariant(self);
        }
        self.secs
    }

    /// The nanosecond within the second.
    pub fn nanos(&self) -> (r: u32)
        ensures
            r == self.nanosecond(),
            is_moment(self.second(), self.nanosecond()),
    {
        proof {
            use_type_invariant(self);
        }
        self.nanos
    }

    /// The whole seconds from `earlier` to this moment.
    pub fn seconds_since(&self, earlier: &Timestamp) -> (r: i64)
        ensures
            r == self.seconds_after(*earlier),
    {
        proof {
            use_type_invariant(self);
            use_type_invariant(earlier);
        }
        whole_seconds_between(self.secs, self.nanos, earlier.secs, earlier.nanos)
    }
}

/// Between two moments outside leap seconds lie as many whole seconds as fit, rounded towards
/// zero; the other way round it is as many, with the other sign.
pub proof fn law_whole_seconds_fit_between(
    later_secs: i64,
    later_nanos: u32,
    earlier_secs: i64,
    earlier_nanos: u32,
)
    requires
        later_nanos < 1_000_000_000,
        earlier_nanos < 1_000_000_000,
    ensures
        ({
            let r = whole_seconds(later_secs, later_nanos, earlier_secs, earlier_nanos);
            let nanos = (later_secs - earlier_secs) * 1_000_000_000 + later_nanos - earlier_nanos;
            &&& nanos >= 0 ==> r * 1_000_000_000 <= nanos < (r + 1) * 1_000_000_000
            &&& nanos <= 0 ==> (r - 1) * 1_000_000_000 < nanos <= r * 1_000_000_000
            &&& whole_seconds(earlier_secs, earlier_nanos, later_secs, later_nanos) == -r
        }),
{
}

/// The seconds since a moment are those between the two, and a moment keeps its parts.
pub proof fn law_moments_keep_their_parts(
    secs: i64,
    nanos: u32,
    made: Option<Timestamp>,
    later: Timestamp,
    earlier: Timestamp,
    r: i64,
)
    requires
        call_ensures(Timestamp::from_parts, (secs, nanos), made),
        call_ensures(Timestamp::seconds_since, (&later, &earlier), r),
    ensures
        made is Some <==> FIRST_SECOND <= secs <= LAST_SECOND && (nanos < 1_000_000_000 || (nanos
            < 2_000_000_000 && secs as int % 60 == 59)),
        made matches Some(t) ==> t.second() == secs && t.nanosecond() == nanos,
        r == whole_seconds(
            later.second(),
            later.nanosecond(),
            earlier.second(),
            earlier.nanosecond(),
        ),
{
}

/// A leap second counts exactly where it lies between the times of day of the two moments: a
/// moment in one is a second further from a later time of day, and from an earlier or the same
/// one it is not. Adding whole days to either moment adds their seconds and nothing else.
pub proof fn law_leap_seconds_count_by_the_time_of_day(
    later_secs: i64,
    later_nanos: u32,
    earlier_secs: i64,
    earlier_nanos: u32,
)
    ensures
        ({
            let later_time = later_secs as int % 86_400;
            let earlier_time = earlier_secs as int % 86_400;
            let leap = if earlier_nanos >= 1_000_000_000 && later_time > earlier_time {
                1int
            } else if later_nanos >= 1_000_000_000 && later_time < earlier_time {
                -1int
            } else {
                0int
            };
            let nanos = (later_secs - earlier_secs + leap) * 1_000_000_000 + later_nanos
                - earlier_nanos;
            let r = whole_seconds(later_secs, later_nanos, earlier_secs, earlier_nanos);
            &&& nanos >= 0 ==> r * 1_000_000_000 <= nanos < (r + 1) * 1_000_000_000
            &&& nanos <= 0 ==> (r - 1) * 1_000_000_000 < nanos <= r * 1_000_000_000
        }),
{
}

/// The present lies at or after the Unix epoch and in no leap second.
pub proof fn law_present_is_in_no_leap_second(r: Timestamp)
    requires
        call_ensures(Timestamp::now, (), r),
    ensures
        0 <= r.second() <= LAST_SECOND,
        r.nanosecond() < 1_000_000_000,
{
}

/// The parts of a moment are read as they are.
pub proof fn law_parts_are_read_as_they_are(t: Timestamp, secs: i64, nanos: u32)
    requires
        call_ensures(Timestamp::secs, (&t,), secs),
        call_ensures(Timestamp::nanos, (&t,), nanos),
    ensures
        secs == t.second(),
        nanos == t.nanosecond(),
{
}

}
