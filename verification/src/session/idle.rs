//! Whether the main display is off, or as good as off.

use vstd::prelude::*;

use crate::command::CommandOutput;
use crate::text;

verus! {

/// The text of a file, trimmed, where it can be read.
pub open spec fn file_says(raw: Option<String>, what: Seq<char>) -> bool {
    raw is Some && text::trimmed(raw->0@) == what
}

fn says(raw: &Option<String>, what: &str) -> (r: bool)
    ensures
        r == file_says(*raw, what@),
{
    match raw {
        Some(t) => text::same(text::trim(t.as_str()), what),
        None => false,
    }
}

/// The backlight's files say that the main display is dark.
pub open spec fn backlight_off(bl_power: Option<String>, brightness: Option<String>) -> bool {
    (bl_power is Some && !file_says(bl_power, "0"@)) || file_says(brightness, "0"@)
}

/// Whether the backlight's files say that the main display is dark.
pub fn backlight_is_off(bl_power: &Option<String>, brightness: &Option<String>) -> (r: bool)
    ensures
        r == backlight_off(*bl_power, *brightness),
{
    (bl_power.is_some() && !says(bl_power, "0")) || says(brightness, "0")
}

/// Whether the display's power state says that it is off.
pub fn dpms_is_off(dpms: &Option<String>) -> (r: bool)
    ensures
        r == (dpms is Some && !file_says(*dpms, "On"@)),
{
    dpms.is_some() && !says(dpms, "On")
}

/// Whether the screen saver runs, with what asking it came to.
pub fn screen_saver_is_active(outcome: &Result<CommandOutput, String>) -> (r: bool)
    ensures
        r == (match *outcome {
            Ok(output) => output.success && text::contains_text(
                text::lossy(output.stdout@),
                "true"@,
            ),
            Err(_) => false,
        }),
{
    match outcome {
        Ok(output) => output.success && text::contains(
            text::lossy_text(output.stdout.as_slice()).as_str(),
            "true",
        ),
        Err(_) => false,
    }
}

/// The first run of digits in `s`; empty where there is no digit.
pub open spec fn first_digits(s: Seq<char>) -> Seq<char>
    decreases s.len(),
{
    if s.len() == 0 {
        s
    } else if text::is_digit(s.first()) {
        leading_digits(s)
    } else {
        first_digits(s.skip(1))
    }
}

/// The digits with which `s` begins.
pub open spec fn leading_digits(s: Seq<char>) -> Seq<char>
    decreases s.len(),
{
    if s.len() == 0 || !text::is_digit(s.first()) {
        Seq::empty()
    } else {
        seq![s.first()] + leading_digits(s.skip(1))
    }
}

/// The number that the first run of digits in `s` writes, where 64 bits hold it.
pub open spec fn first_number(s: Seq<char>) -> Option<int> {
    text::unsigned_number(first_digits(s), u64::MAX as int)
}

fn is_digit(c: char) -> (r: bool)
    ensures
        r == text::is_digit(c),
{
    '0' <= c && c <= '9'
}

proof fn lemma_leading_digits(s: Seq<char>, end: int)
    requires
        0 <= end <= s.len(),
        forall|k: int| 0 <= k < end ==> text::is_digit(#[trigger] s[k]),
        end < s.len() ==> !text::is_digit(s[end]),
    ensures
        leading_digits(s) == s.take(end),
    decreases s.len(),
{
    if end > 0 {
        assert(text::is_digit(s[0]));
        assert forall|k: int| 0 <= k < end - 1 implies text::is_digit(#[trigger] s.skip(1)[k]) by {
            assert(s.skip(1)[k] == s[k + 1]);
        }
        if end < s.len() {
            assert(s.skip(1)[end - 1] == s[end]);
        }
        lemma_leading_digits(s.skip(1), end - 1);
        assert(s.take(end) =~= seq![s.first()] + s.skip(1).take(end - 1));
    } else {
        assert(s.take(0) =~= Seq::empty());
    }
}

/// The number that the first run of digits in `s` writes.
pub fn parse_first_number(s: &str) -> (r: Option<u64>)
    ensures
        match r {
            Some(n) => first_number(s@) == Some(n as int),
            None => first_number(s@) is None,
        },
{
    let chars: Vec<char> = text::chars_of(s);
    let n: usize = chars.len();
    let mut start: usize = 0;
    assert(s@.skip(0) =~= s@);
    while start < n && !is_digit(chars[start])
        invariant
            start <= n == chars@.len(),
            chars@ == s@,
            first_digits(s@) == first_digits(s@.skip(start as int)),
        decreases n - start,
    {
        assert(s@.skip(start as int).skip(1) =~= s@.skip(start + 1));
        start += 1;
    }
    let mut end: usize = start;
    while end < n && is_digit(chars[end])
        invariant
            start <= end <= n == chars@.len(),
            chars@ == s@,
            forall|k: int| start <= k < end ==> text::is_digit(#[trigger] s@[k]),
        decreases n - end,
    {
        end += 1;
    }
    proof {
        let rest = s@.skip(start as int);
        assert forall|k: int| 0 <= k < end - start implies text::is_digit(#[trigger] rest[k]) by {
            assert(rest[k] == s@[start + k]);
        }
        if end < n {
            assert(rest[end - start] == s@[end as int]);
        }
        lemma_leading_digits(rest, end - start);
        assert(rest.take(end - start) =~= s@.subrange(start as int, end as int));
        assert(first_digits(rest) =~= s@.subrange(start as int, end as int));
    }
    text::parse_u64(s.substring_char(start, end))
}

/// The time after which GNOME dims the display, in milliseconds, out of what `gsettings` wrote:
/// a number of seconds.
pub fn idle_delay_ms(written: &str) -> (r: Option<u64>)
    requires
        first_number(written@) matches Some(seconds) ==> seconds * 1_000 <= u64::MAX,
    ensures
        match r {
            Some(ms) => first_number(written@) is Some && ms == first_number(written@)->0 * 1_000,
            None => first_number(written@) is None,
        },
{
    match parse_first_number(written) {
        Some(seconds) => Some(seconds * 1_000),
        None => None,
    }
}

/// What is known of the time after which GNOME dims the display.
#[derive(Debug, Clone, Copy, PartialEq, Eq, Structural)]
pub enum IdleDelay {
    /// It could not be learnt.
    Unknown,
    Millis(u64),
    /// It is a number of seconds whose milliseconds 64 bits do not hold.
    OutOfRange,
}

/// The number that a program wrote first, where it succeeded.
pub open spec fn written_number(outcome: Result<CommandOutput, String>) -> Option<int> {
    match outcome {
        Ok(output) => if output.success {
            first_number(text::lossy(output.stdout@))
        } else {
            None
        },
        Err(_) => None,
    }
}

/// The time after which GNOME dims the display, with what `gsettings` came to.
pub fn gnome_idle_timeout_ms(outcome: &Result<CommandOutput, String>) -> (r: IdleDelay)
    ensures
        r == (match written_number(*outcome) {
            None => IdleDelay::Unknown,
            Some(seconds) => if seconds * 1_000 <= u64::MAX {
                IdleDelay::Millis((seconds * 1_000) as u64)
            } else {
                IdleDelay::OutOfRange
            },
        }),
{
    match outcome {
        Err(_) => IdleDelay::Unknown,
        Ok(output) => {
            if !output.success {
                return IdleDelay::Unknown;
            }
            let written: String = text::lossy_text(output.stdout.as_slice());
            match parse_first_number(written.as_str()) {
                None => IdleDelay::Unknown,
                Some(seconds) => if seconds <= u64::MAX / 1_000 {
                    match idle_delay_ms(written.as_str()) {
                        Some(ms) => IdleDelay::Millis(ms),
                        None => IdleDelay::Unknown,
                    }
                } else {
                    IdleDelay::OutOfRange
                },
            }
        },
    }
}

/// How long the session has been idle, in milliseconds, with what `gdbus` came to.
pub fn gnome_idle_time_ms(outcome: &Result<CommandOutput, String>) -> (r: Option<u64>)
    ensures
        match r {
            Some(ms) => written_number(*outcome) == Some(ms as int),
            None => written_number(*outcome) is None,
        },
{
    match outcome {
        Err(_) => None,
        Ok(output) => if output.success {
            let written: String = text::lossy_text(output.stdout.as_slice());
            parse_first_number(written.as_str())
        } else {
            None
        },
    }
}

/// The session has been idle for as long as GNOME waits before it dims the display.
pub open spec fn idle_over(timeout: Option<u64>, idle: Option<u64>) -> bool {
    match (timeout, idle) {
        (Some(timeout), Some(idle)) => timeout > 0 && idle >= timeout,
        _ => false,
    }
}

/// Whether the session has been idle for as long as GNOME waits before it dims the display.
pub fn idle_is_over(timeout: Option<u64>, idle: Option<u64>) -> (r: bool)
    ensures
        r == idle_over(timeout, idle),
{
    match (timeout, idle) {
        (Some(timeout), Some(idle)) => timeout > 0 && idle >= timeout,
        _ => false,
    }
}

/// The signs that the main display is off, in the order in which they are asked for.
#[derive(Debug, Clone, Copy, PartialEq, Eq, Structural)]
pub enum ScreenSign {
    Backlight,
    Dpms,
    ScreenSaver,
    Idle,
}

/// What follows a sign.
#[derive(Debug, Clone, Copy, PartialEq, Eq, Structural)]
pub enum ScreenStep {
    /// The main display is off (`true`) or on (`false`).
    Known(bool),
    /// Ask for this sign.
    Ask(ScreenSign),
}

/// What follows a sign that says that the display is off, or does not say so: the first that says
/// so decides, and where none does the display is on.
pub open spec fn after_sign(sign: ScreenSign, off: bool) -> ScreenStep {
    if off {
        ScreenStep::Known(true)
    } else {
        match sign {
            ScreenSign::Backlight => ScreenStep::Ask(ScreenSign::Dpms),
            ScreenSign::Dpms => ScreenStep::Ask(ScreenSign::ScreenSaver),
            ScreenSign::ScreenSaver => ScreenStep::Ask(ScreenSign::Idle),
            ScreenSign::Idle => ScreenStep::Known(false),
        }
    }
}

/// Decides, with what a sign says, whether the main display is off or what to ask next.
pub fn main_screen_is_off(sign: ScreenSign, off: bool) -> (r: ScreenStep)
    ensures
        r == after_sign(sign, off),
{
    if off {
        return ScreenStep::Known(true);
    }
    match sign {
        ScreenSign::Backlight => ScreenStep::Ask(ScreenSign::Dpms),
        ScreenSign::Dpms => ScreenStep::Ask(ScreenSign::ScreenSaver),
        ScreenSign::ScreenSaver => ScreenStep::Ask(ScreenSign::Idle),
        ScreenSign::Idle => ScreenStep::Known(false),
    }
}

/// What one of four signs says.
pub open spec fn sign_says(
    sign: ScreenSign,
    backlight: bool,
    dpms: bool,
    saver: bool,
    idle: bool,
) -> bool {
    match sign {
        ScreenSign::Backlight => backlight,
        ScreenSign::Dpms => dpms,
        ScreenSign::ScreenSaver => saver,
        ScreenSign::Idle => idle,
    }
}

/// What asking for a sign, if one is to be asked for, comes to.
pub open spec fn asked(
    step: ScreenStep,
    backlight: bool,
    dpms: bool,
    saver: bool,
    idle: bool,
) -> ScreenStep {
    match step {
        ScreenStep::Known(_) => step,
        ScreenStep::Ask(sign) => after_sign(sign, sign_says(sign, backlight, dpms, saver, idle)),
    }
}

/// After at most four questions it is known whether the main display is off, and it counts as off
/// exactly where one of the four signs says so.
pub proof fn law_one_sign_suffices(backlight: bool, dpms: bool, saver: bool, idle: bool)
    ensures
        ({
            let first = asked(
                ScreenStep::Ask(ScreenSign::Backlight),
                backlight,
                dpms,
                saver,
                idle,
            );
            let second = asked(first, backlight, dpms, saver, idle);
            let third = asked(second, backlight, dpms, saver, idle);
            let fourth = asked(third, backlight, dpms, saver, idle);
            fourth == ScreenStep::Known(backlight || dpms || saver || idle)
        }),
{
}

/// The backlight is off exactly where its power is known and is not "0", or its brightness is "0".
/// The display is off exactly where its power state is known and is not "On".
pub proof fn law_files_tell_whether_the_display_is_off(
    bl_power: Option<String>,
    brightness: Option<String>,
    off: bool,
    dpms: Option<String>,
    dpms_off: bool,
)
    requires
        call_ensures(backlight_is_off, (&bl_power, &brightness), off),
        call_ensures(dpms_is_off, (&dpms,), dpms_off),
    ensures
        off <==> (bl_power is Some && text::trimmed(bl_power->0@) != "0"@) || (brightness is Some
            && text::trimmed(brightness->0@) == "0"@),
        dpms_off <==> dpms is Some && text::trimmed(dpms->0@) != "On"@,
{
}

/// The screen saver runs exactly where asking it succeeded and the answer says "true".
pub proof fn law_screen_saver_says_true(outcome: Result<CommandOutput, String>, r: bool)
    requires
        call_ensures(screen_saver_is_active, (&outcome,), r),
    ensures
        r <==> (outcome matches Ok(output) && output.success && text::contains_text(
            text::lossy(output.stdout@),
            "true"@,
        )),
{
}

/// The first number in a text is what its first run of digits says: what stands before it holds
/// no digit, and what follows it does not begin with one.
pub proof fn law_first_number_is_the_first_digits(
    before: Seq<char>,
    digits: Seq<char>,
    after: Seq<char>,
)
    requires
        forall|i: int| 0 <= i < before.len() ==> !('0' <= #[trigger] before[i] <= '9'),
        forall|i: int| 0 <= i < digits.len() ==> '0' <= #[trigger] digits[i] <= '9',
        digits.len() > 0,
        after.len() > 0 ==> !('0' <= after[0] <= '9'),
    ensures
        first_number(before + digits + after) == (if text::digits_value(digits) <= u64::MAX {
            Some(text::digits_value(digits))
        } else {
            None
        }),
        first_number(before) is None,
    decreases before.len(),
{
    let s = before + digits + after;
    if before.len() > 0 {
        assert(s.first() == before[0]);
        let rest = before.skip(1);
        assert forall|i: int| 0 <= i < rest.len() implies !('0' <= #[trigger] rest[i] <= '9') by {
            assert(rest[i] == before[i + 1]);
        }
        law_first_number_is_the_first_digits(rest, digits, after);
        assert(s.skip(1) =~= rest + digits + after);
    } else {
        assert(s =~= digits + after);
        assert(s.first() == digits[0]);
        assert forall|k: int| 0 <= k < digits.len() implies text::is_digit(#[trigger] s[k]) by {
            assert(s[k] == digits[k]);
        }
        if digits.len() < s.len() {
            assert(s[digits.len() as int] == after[0]);
        }
        lemma_leading_digits(s, digits.len() as int);
        assert(s.take(digits.len() as int) =~= digits);
        assert forall|k: int| 0 <= k < digits.len() implies text::is_digit(#[trigger] digits[k]) by {
        }
        assert(before =~= Seq::empty());
    }
}

/// A delay in seconds is told in milliseconds, a thousand for each; an idle time is told as it is.
/// A program that failed tells neither.
pub proof fn law_delays_are_told_in_milliseconds(
    outcome: Result<CommandOutput, String>,
    delay: IdleDelay,
    idle: Option<u64>,
    written: &str,
    number: Option<u64>,
)
    requires
        call_ensures(gnome_idle_timeout_ms, (&outcome,), delay),
        call_ensures(gnome_idle_time_ms, (&outcome,), idle),
        outcome matches Ok(output) ==> written@ == text::lossy(output.stdout@),
        call_ensures(parse_first_number, (written,), number),
    ensures
        number matches Some(n) ==> first_number(written@) == Some(n as int),
        number is None ==> first_number(written@) is None,
        outcome matches Ok(output) ==> (output.success ==> {
            &&& idle == number
            &&& number is None ==> delay == IdleDelay::Unknown
            &&& number matches Some(n) ==> (n * 1_000 <= u64::MAX ==> delay == IdleDelay::Millis(
                (n * 1_000) as u64,
            ))
            &&& number matches Some(n) ==> (n * 1_000 > u64::MAX ==> delay == IdleDelay::OutOfRange)
        }),
        outcome matches Ok(output) ==> (!output.success ==> idle is None && delay
            == IdleDelay::Unknown),
        outcome is Err ==> idle is None && delay == IdleDelay::Unknown,
{
}

/// A delay that is written in seconds is a thousand times as many milliseconds.
pub proof fn law_seconds_are_a_thousand_milliseconds(
    written: &str,
    number: Option<u64>,
    r: Option<u64>,
)
    requires
        call_ensures(parse_first_number, (written,), number),
        call_ensures(idle_delay_ms, (written,), r),
    ensures
        r is Some <==> number is Some,
        r is Some ==> r->0 == number->0 * 1_000,
{
}

/// The session is idle for long enough exactly where both times are known, there is a delay, and
/// it has passed.
pub proof fn law_idleness_is_over_after_the_delay(
    timeout: Option<u64>,
    idle: Option<u64>,
    r: bool,
)
    requires
        call_ensures(idle_is_over, (timeout, idle), r),
    ensures
        r <==> timeout is Some && idle is Some && timeout->0 != 0 && timeout->0 <= idle->0,
{
}

/// A sign that says that the display is off decides; otherwise the next one is asked for, in the
/// order backlight, power state, screen saver, idleness, and after the last the display is on.
pub proof fn law_signs_are_asked_in_order(sign: ScreenSign, off: bool, r: ScreenStep)
    requires
        call_ensures(main_screen_is_off, (sign, off), r),
    ensures
        off ==> r == ScreenStep::Known(true),
        !off && sign == ScreenSign::Backlight ==> r == ScreenStep::Ask(ScreenSign::Dpms),
        !off && sign == ScreenSign::Dpms ==> r == ScreenStep::Ask(ScreenSign::ScreenSaver),
        !off && sign == ScreenSign::ScreenSaver ==> r == ScreenStep::Ask(ScreenSign::Idle),
        !off && sign == ScreenSign::Idle ==> r == ScreenStep::Known(false),
{
}

}
