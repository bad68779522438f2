//! Keeping the brightness of both displays in step.

use vstd::prelude::*;

use crate::ipc::DaemonResponse;
use crate::models::settings::DuoSettings;
use crate::text;

verus! {

/// `level` times 100, as far as 32 bits hold it.
pub open spec fn hundredfold(level: u32) -> int {
    if level * 100 <= u32::MAX {
        level * 100
    } else {
        u32::MAX as int
    }
}

/// A raw brightness can be expressed as a percentage within 32 bits.
pub open spec fn percent_defined(level: u32, max: u32) -> bool {
    max > 0 && hundredfold(level) + max / 2 <= u32::MAX
}

/// A raw brightness as a percentage of `max`: rounded to the nearest, and no more than 100.
pub open spec fn percent(level: u32, max: u32) -> int {
    let rounded = (hundredfold(level) + max / 2) / (max as int);
    if rounded < 100 {
        rounded
    } else {
        100
    }
}

/// A raw brightness as a percentage of `max`.
pub fn brightness_percent(level: u32, max: u32) -> (r: u8)
    requires
        percent_defined(level, max),
    ensures
        r == percent(level, max),
        r <= 100,
{
    let scaled: u32 = match level.checked_mul(100) {
        Some(n) => n,
        None => u32::MAX,
    };
    let rounded: u32 = (scaled + max / 2) / max;
    if rounded < 100 {
        rounded as u8
    } else {
        100
    }
}

/// Whether a raw brightness can be expressed as a percentage within 32 bits.
pub fn percent_is_defined(level: u32, max: u32) -> (r: bool)
    ensures
        r == percent_defined(level, max),
{
    let scaled: u32 = match level.checked_mul(100) {
        Some(n) => n,
        None => u32::MAX,
    };
    max > 0 && scaled <= u32::MAX - max / 2
}

/// Takes over the daemon's answer to a request for a brightness. `rendered` is how the answer is
/// written where it is an unexpected one.
pub fn set_display_brightness(reply: Result<DaemonResponse, String>, rendered: &str) -> (r: Result<
    (),
    String,
>)
    ensures
        match reply {
            Ok(DaemonResponse::Ack) => r is Ok,
            Ok(DaemonResponse::Error { message }) => r is Err && r->Err_0@ == message@,
            Ok(_) => r is Err && r->Err_0@
                == "Unexpected daemon response while setting display brightness: "@ + rendered@,
            Err(message) => r is Err && r->Err_0@ == message@,
        },
{
    match reply {
        Ok(DaemonResponse::Ack) => Ok(()),
        Ok(DaemonResponse::Error { message }) => Err(message),
        Ok(_) => Err(
            text::concat2(
                "Unexpected daemon response while setting display brightness: ",
                rendered,
            ),
        ),
        Err(message) => Err(message),
    }
}

/// How often the brightness is looked at, in milliseconds.
pub const BRIGHTNESS_POLL_MILLIS: u64 = 1_000;

/// How long the displays are left alone after the keyboard came or went, in milliseconds. While
/// the lower display goes on or off the firmware may report the full brightness.
pub const SETTLE_MILLIS: u64 = 3_000;

/// The watch over the brightness. Times are in milliseconds on one steady clock.
#[derive(Debug, Clone, Copy, PartialEq, Eq, Structural)]
pub struct BrightnessWatch {
    /// The raw brightness that was last seen.
    pub last_seen: Option<u32>,
    /// Whether the keyboard was attached when that was last asked.
    pub last_keyboard_attached: Option<bool>,
    /// When the displays have settled.
    pub settles_at: Option<u64>,
}

/// What is to be done at a tick.
#[derive(Debug, Clone, Copy, PartialEq, Eq, Structural)]
pub enum BrightnessStep {
    Nothing,
    /// The displays have settled: the recorded percentage, if there is one, is to be set again.
    Restore,
    /// The brightness is to be looked at.
    Look,
}

/// The watch before its first tick.
pub open spec fn unwatched() -> BrightnessWatch {
    BrightnessWatch { last_seen: None, last_keyboard_attached: None, settles_at: None }
}

/// What is to be done at a tick, and the watch after it.
///
/// - Where the displays are not to be kept in step, nothing, and all is forgotten.
/// - Where the keyboard has come or gone, nothing, until the displays have settled.
/// - Where they have just settled, the user's brightness is restored.
/// - Otherwise the brightness is looked at.
pub open spec fn ticked(watch: BrightnessWatch, enabled: bool, attached: bool, now: u64) -> (
    BrightnessWatch,
    BrightnessStep,
) {
    if !enabled {
        (unwatched(), BrightnessStep::Nothing)
    } else if watch.last_keyboard_attached != Some(attached) {
        (
            BrightnessWatch {
                last_seen: None,
                last_keyboard_attached: Some(attached),
                settles_at: Some((now + SETTLE_MILLIS) as u64),
            },
            BrightnessStep::Nothing,
        )
    } else {
        match watch.settles_at {
            Some(at) => if now < at {
                (watch, BrightnessStep::Nothing)
            } else {
                (BrightnessWatch { settles_at: None, ..watch }, BrightnessStep::Restore)
            },
            None => (watch, BrightnessStep::Look),
        }
    }
}

/// A look at the brightness asks for a percentage to be set: a level that differs from the one
/// last seen is the user's choice. A level of zero, or an unknown range, tells nothing.
pub open spec fn sets_percent(watch: BrightnessWatch, level: u32, max: u32) -> bool {
    &&& level != 0
    &&& max != 0
    &&& watch.last_seen is Some
    &&& watch.last_seen != Some(level)
}

/// The percentage that a look at the brightness asks to be set, and the watch after it: a level
/// that tells something is remembered.
pub open spec fn looked(watch: BrightnessWatch, level: u32, max: u32) -> (
    BrightnessWatch,
    Option<u8>,
) {
    (
        if level == 0 || max == 0 {
            watch
        } else {
            BrightnessWatch { last_seen: Some(level), ..watch }
        },
        if sets_percent(watch, level, max) {
            Some(percent(level, max) as u8)
        } else {
            None
        },
    )
}

/// What a tick finds: the time, the settings, whether the keyboard is attached, and the raw
/// brightness with its range.
pub struct BrightnessTick {
    pub now: u64,
    pub settings: DuoSettings,
    pub attached: bool,
    pub level: u32,
    pub max: u32,
}

/// The watch after a tick is carried out, and the percentage that is set on both displays,
/// if any: the recorded one where the displays have just settled, else the one that was seen.
pub open spec fn after_tick(watch: BrightnessWatch, tick: BrightnessTick) -> (
    BrightnessWatch,
    Option<u8>,
) {
    let (next, step) = ticked(watch, tick.settings.sync_brightness, tick.attached, tick.now);
    match step {
        BrightnessStep::Nothing => (next, None),
        BrightnessStep::Restore => (
            BrightnessWatch { last_seen: Some(tick.level), ..next },
            tick.settings.last_display_brightness_percent,
        ),
        BrightnessStep::Look => looked(next, tick.level, tick.max),
    }
}

/// The watch after a run of ticks.
pub open spec fn after_ticks(watch: BrightnessWatch, ticks: Seq<BrightnessTick>) -> BrightnessWatch
    decreases ticks.len(),
{
    if ticks.len() == 0 {
        watch
    } else {
        after_tick(after_ticks(watch, ticks.drop_last()), ticks.last()).0
    }
}

/// The percentage that is set at tick `i` of a run, if any.
pub open spec fn set_at(watch: BrightnessWatch, ticks: Seq<BrightnessTick>, i: int) -> Option<u8> {
    after_tick(after_ticks(watch, ticks.take(i)), ticks[i]).1
}

/// From tick `first` on, up to tick `end`, the displays are kept in step and the keyboard stays
/// as it is; the displays have settled at tick `end` and at none before it.
pub open spec fn displays_settle(ticks: Seq<BrightnessTick>, first: int, end: int) -> bool {
    &&& 0 <= first < end < ticks.len()
    &&& forall|i: int|
        first <= i <= end ==> (#[trigger] ticks[i]).settings.sync_brightness && ticks[i].attached
            == ticks[first].attached
    &&& forall|i: int|
        first <= i < end ==> (#[trigger] ticks[i]).now < ticks[first].now + SETTLE_MILLIS
    &&& ticks[first].now + SETTLE_MILLIS <= ticks[end].now
}

/// The percentage that is to be set once the displays have settled: the one on record.
pub fn restore_percent(settings: &DuoSettings) -> (r: Option<u8>)
    ensures
        r == settings.last_display_brightness_percent,
{
    settings.last_display_brightness_percent
}

impl BrightnessWatch {
    /// The watch before its first tick.
    pub fn new() -> (r: BrightnessWatch)
        ensures
            r == unwatched(),
    {
        BrightnessWatch { last_seen: None, last_keyboard_attached: None, settles_at: None }
    }

    /// Decides what is to be done at a tick.
    pub fn tick(&mut self, enabled: bool, keyboard_attached: bool, now: u64) -> (r: BrightnessStep)
        requires
            now + SETTLE_MILLIS <= u64::MAX,
        ensures
            (*final(self), r) == ticked(*old(self), enabled, keyboard_attached, now),
    {
        if !enabled {
            *self = BrightnessWatch::new();
            return BrightnessStep::Nothing;
        }
        let same: bool = match self.last_keyboard_attached {
            Some(attached) => attached == keyboard_attached,
            None => false,
        };
        if !same {
            self.last_keyboard_attached = Some(keyboard_attached);
            self.settles_at = Some(now + SETTLE_MILLIS);
            self.last_seen = None;
            return BrightnessStep::Nothing;
        }
        match self.settles_at {
            Some(at) => if now < at {
                BrightnessStep::Nothing
            } else {
                self.settles_at = None;
                BrightnessStep::Restore
            },
            None => BrightnessStep::Look,
        }
    }

    /// Remembers the brightness once the displays have settled.
    pub fn restored(&mut self, level: u32)
        ensures
            *final(self) == (BrightnessWatch { last_seen: Some(level), ..*old(self) }),
    {
        self.last_seen = Some(level);
    }

    /// Takes over a look at the brightness. The result is the percentage that is to be set on
    /// both displays, if any.
    pub fn look(&mut self, level: u32, max: u32) -> (r: Option<u8>)
        requires
            sets_percent(*old(self), level, max) ==> percent_defined(level, max),
        ensures
            (*final(self), r) == looked(*old(self), level, max),
    {
        if level == 0 || max == 0 {
            return None;
        }
        match self.last_seen {
            None => {
                self.last_seen = Some(level);
                None
            },
            Some(seen) => if seen == level {
                None
            } else {
                let chosen: u8 = brightness_percent(level, max);
                self.last_seen = Some(level);
                Some(chosen)
            },
        }
    }
}

/// No brightness that is seen before the displays have settled is taken for the user's choice:
/// once the keyboard came or went, nothing is looked at before the time has passed.
pub proof fn law_transient_brightness_is_ignored(
    watch: BrightnessWatch,
    attached: bool,
    now: u64,
    later: u64,
)
    requires
        watch.last_keyboard_attached != Some(attached),
        now + SETTLE_MILLIS <= u64::MAX,
        later < now + SETTLE_MILLIS,
    ensures
        ({
            let (moved, step) = ticked(watch, true, attached, now);
            &&& step == BrightnessStep::Nothing
            &&& ticked(moved, true, attached, later) == (moved, BrightnessStep::Nothing)
        }),
{
}

/// Once the displays have settled, the user's brightness is restored, once, before anything is
/// looked at.
pub proof fn law_brightness_is_restored_before_it_is_read(
    watch: BrightnessWatch,
    attached: bool,
    now: u64,
    later: u64,
    after: u64,
)
    requires
        watch.last_keyboard_attached != Some(attached),
        now + SETTLE_MILLIS <= later,
    ensures
        ({
            let (moved, _) = ticked(watch, true, attached, now);
            let (settled, step) = ticked(moved, true, attached, later);
            &&& step == BrightnessStep::Restore
            &&& ticked(settled, true, attached, after) == (settled, BrightnessStep::Look)
        }),
{
}

/// The watch between the tick that finds the keyboard moved and the one that finds the displays
/// settled.
proof fn lemma_settling(
    watch: BrightnessWatch,
    ticks: Seq<BrightnessTick>,
    first: int,
    end: int,
    i: int,
)
    requires
        displays_settle(ticks, first, end),
        after_ticks(watch, ticks.take(first)).last_keyboard_attached != Some(ticks[first].attached),
        first < i <= end,
    ensures
        after_ticks(watch, ticks.take(i)) == (BrightnessWatch {
            last_seen: None,
            last_keyboard_attached: Some(ticks[first].attached),
            settles_at: Some((ticks[first].now + SETTLE_MILLIS) as u64),
        }),
    decreases i,
{
    assert(ticks.take(i).drop_last() =~= ticks.take(i - 1));
    assert(ticks.take(i).last() == ticks[i - 1]);
    if first < i - 1 {
        lemma_settling(watch, ticks, first, end, i - 1);
    }
}

/// Once the keyboard came or went, at tick `first`, no brightness is set before the displays have
/// settled, whatever level the firmware reports. The first tick that finds them settled sets the
/// percentage that is then on record, and nothing where there is none.
pub proof fn law_recorded_brightness_is_restored(
    watch: BrightnessWatch,
    ticks: Seq<BrightnessTick>,
    first: int,
    end: int,
)
    requires
        displays_settle(ticks, first, end),
        first > 0,
        ticks[first - 1].settings.sync_brightness,
        ticks[first - 1].attached != ticks[first].attached,
    ensures
        forall|i: int| first <= i < end ==> #[trigger] set_at(watch, ticks, i) is None,
        set_at(watch, ticks, end) == ticks[end].settings.last_display_brightness_percent,
{
    assert(ticks.take(first).drop_last() =~= ticks.take(first - 1));
    assert(ticks.take(first).last() == ticks[first - 1]);
    law_recorded_brightness_is_restored_at_first(watch, ticks, first, end);
}

/// The same holds at the first tick that finds the displays to be kept in step: then too the
/// recorded percentage is set before any that is seen.
pub proof fn law_recorded_brightness_is_restored_at_first(
    watch: BrightnessWatch,
    ticks: Seq<BrightnessTick>,
    first: int,
    end: int,
)
    requires
        displays_settle(ticks, first, end),
        after_ticks(watch, ticks.take(first)).last_keyboard_attached != Some(ticks[first].attached),
    ensures
        forall|i: int| first <= i < end ==> #[trigger] set_at(watch, ticks, i) is None,
        set_at(watch, ticks, end) == ticks[end].settings.last_display_brightness_percent,
{
    assert forall|i: int| first <= i < end implies #[trigger] set_at(watch, ticks, i) is None by {
        if first < i {
            lemma_settling(watch, ticks, first, end, i);
        }
    }
    lemma_settling(watch, ticks, first, end, end);
}

/// A brightness that does not change sets nothing.
pub proof fn law_steady_brightness_sets_nothing(watch: BrightnessWatch, level: u32, max: u32)
    ensures
        looked(looked(watch, level, max).0, level, max).1 is None,
{
}

/// The full range is 100 percent, and nothing is more.
pub proof fn law_percent_is_bounded(level: u32, max: u32)
    requires
        percent_defined(level, max),
    ensures
        0 <= percent(level, max) <= 100,
        level >= max && level * 100 <= u32::MAX ==> percent(level, max) == 100,
        level == 0 ==> percent(level, max) == 0,
{
    let n = hundredfold(level) + max / 2;
    let m = max as int;
    assert(n / m >= 0) by (nonlinear_arith)
        requires
            n >= 0,
            m > 0,
    ;
    if level >= max && level * 100 <= u32::MAX {
        assert(n >= m * 100);
        assert(n / m >= 100) by (nonlinear_arith)
            requires
                n >= m * 100,
                m > 0,
        ;
    }
    if level == 0 {
        let half = m / 2;
        assert(half < m);
        assert(half / m == 0) by (nonlinear_arith)
            requires
                0 <= half < m,
        ;
        assert(n == half);
    }
}

/// Every look at a level that differs from the one last seen, by however little, asks for that
/// level's percentage. Nothing else does: not the first level that is seen, not one that repeats,
/// not a level of zero, and not one of an unknown range. A level that tells something is
/// remembered.
pub proof fn law_every_change_of_brightness_is_set(
    watch: &mut BrightnessWatch,
    level: u32,
    max: u32,
    r: Option<u8>,
)
    requires
        call_ensures(BrightnessWatch::look, (watch, level, max), r),
    ensures
        r is Some <==> level != 0 && max != 0 && old(watch).last_seen is Some && old(
            watch,
        ).last_seen->0 != level,
        r is Some ==> r->0 == percent(level, max),
        final(watch).last_seen == (if level != 0 && max != 0 {
            Some(level)
        } else {
            old(watch).last_seen
        }),
        final(watch).last_keyboard_attached == old(watch).last_keyboard_attached,
        final(watch).settles_at == old(watch).settles_at,
{
    if max != 0 {
        let n = hundredfold(level) + max / 2;
        let m = max as int;
        assert(n / m >= 0) by (nonlinear_arith)
            requires
                n >= 0,
                m > 0,
        ;
    }
}

/// Two looks at two levels, the second of which differs from the first, set the percentage of the
/// second, whatever was seen before them.
pub proof fn law_second_of_two_levels_is_set(
    watch: BrightnessWatch,
    first: u32,
    then: u32,
    max: u32,
)
    requires
        first != 0,
        then != 0,
        max != 0,
        first != then,
    ensures
        looked(looked(watch, first, max).0, then, max).1 == Some(percent(then, max) as u8),
{
}

/// A percentage is the nearest one: no other lies nearer to the level's part of the range. It is
/// 100 from the full range on.
pub proof fn law_percent_is_the_nearest(level: u32, max: u32)
    requires
        max > 0,
        level * 100 <= u32::MAX,
    ensures
        ({
            let p = percent(level, max);
            &&& level <= max ==> 2 * (p * max - 100 * level) <= max
            &&& level <= max ==> 2 * (100 * level - p * max) <= max
            &&& level < max ==> p * max <= 100 * level + max / 2 < p * max + max
            &&& level >= max ==> p == 100
            &&& 0 <= p <= 100
        }),
{
    let n = 100 * level + max / 2;
    let m = max as int;
    let q = n / m;
    assert(hundredfold(level) + max / 2 == n);
    assert(q * m <= n < q * m + m) by (nonlinear_arith)
        requires
            q == n / m,
            m > 0,
    ;
    assert(q >= 0) by (nonlinear_arith)
        requires
            q == n / m,
            n >= 0,
            m > 0,
    ;
    if level >= max {
        assert(q >= 100) by (nonlinear_arith)
            requires
                n < q * m + m,
                n >= 100 * m,
                m > 0,
        ;
    } else if q >= 100 {
        assert(q == 100) by (nonlinear_arith)
            requires
                q * m <= n,
                n < 101 * m,
                q >= 100,
                m > 0,
        ;
    }
}

/// A level whose hundredfold 32 bits do not hold counts as the largest that they do.
pub proof fn law_large_levels_are_capped(level: u32)
    ensures
        level * 100 <= 0xffff_ffff ==> hundredfold(level) == 100 * level,
        level * 100 > 0xffff_ffff ==> hundredfold(level) == 0xffff_ffff,
{
}

/// The percentage of a level, and whether it has one.
pub proof fn law_percentage_is_what_is_computed(level: u32, max: u32, r: u8, defined: bool)
    requires
        call_ensures(brightness_percent, (level, max), r),
        call_ensures(percent_is_defined, (level, max), defined),
    ensures
        r == percent(level, max),
        defined <==> max > 0 && hundredfold(level) + max / 2 <= 0xffff_ffff,
{
}

/// A tick does one of three things. Switched off, the watch forgets all. A keyboard that came or
/// went starts three seconds in which nothing is done. The first tick after them restores the
/// brightness, and every later one looks at it.
pub proof fn law_ticks_wait_three_seconds(
    watch: &mut BrightnessWatch,
    enabled: bool,
    attached: bool,
    now: u64,
    r: BrightnessStep,
)
    requires
        call_ensures(BrightnessWatch::tick, (watch, enabled, attached, now), r),
        now + 3_000 <= u64::MAX,
    ensures
        !enabled ==> {
            &&& r == BrightnessStep::Nothing
            &&& final(watch).last_seen is None
            &&& final(watch).last_keyboard_attached is None
            &&& final(watch).settles_at is None
        },
        enabled ==> final(watch).last_keyboard_attached == Some(attached),
        enabled && old(watch).last_keyboard_attached != Some(attached) ==> {
            &&& r == BrightnessStep::Nothing
            &&& final(watch).last_seen is None
            &&& final(watch).settles_at is Some
            &&& final(watch).settles_at->0 == now + 3_000
        },
        enabled && old(watch).last_keyboard_attached == Some(attached) ==> {
            &&& final(watch).last_seen == old(watch).last_seen
            &&& r == BrightnessStep::Look <==> old(watch).settles_at is None
            &&& r == BrightnessStep::Restore <==> old(watch).settles_at is Some && old(
                watch,
            ).settles_at->0 <= now
            &&& final(watch).settles_at == (if r == BrightnessStep::Restore {
                None
            } else {
                old(watch).settles_at
            })
        },
{
}

/// What is seen once the displays have settled is remembered, whatever it is, and nothing else
/// changes.
pub proof fn law_restored_level_is_remembered(watch: &mut BrightnessWatch, level: u32)
    requires
        call_ensures(BrightnessWatch::restored, (watch, level), ()),
    ensures
        final(watch).last_seen == Some(level),
        final(watch).last_keyboard_attached == old(watch).last_keyboard_attached,
        final(watch).settles_at == old(watch).settles_at,
{
}

/// The watch starts with nothing seen, and what is restored is what is on record.
pub proof fn law_record_is_what_is_restored(
    fresh: BrightnessWatch,
    settings: DuoSettings,
    r: Option<u8>,
)
    requires
        call_ensures(BrightnessWatch::new, (), fresh),
        call_ensures(restore_percent, (&settings,), r),
    ensures
        fresh.last_seen is None,
        fresh.last_keyboard_attached is None,
        fresh.settles_at is None,
        r == settings.last_display_brightness_percent,
{
}

/// The brightness counts as set exactly where the daemon acknowledges it. An error is told in its
/// own words, whether the daemon's or that of asking it.
pub proof fn law_brightness_is_set_when_acknowledged(
    reply: Result<DaemonResponse, String>,
    rendered: &str,
    r: Result<(), String>,
)
    requires
        call_ensures(set_display_brightness, (reply, rendered), r),
    ensures
        r is Ok <==> (reply matches Ok(answer) && answer is Ack),
        reply matches Err(message) ==> r->Err_0@ == message@,
        reply matches Ok(DaemonResponse::Error { message }) ==> r->Err_0@ == message@,
        reply matches Ok(answer) ==> (answer is Ack || answer is Error || r->Err_0@
            == "Unexpected daemon response while setting display brightness: "@ + rendered@),
{
}

/// The brightness is looked at every second, and the displays settle within three looks.
pub proof fn law_displays_settle_within_three_looks()
    ensures
        BRIGHTNESS_POLL_MILLIS == 1_000,
        SETTLE_MILLIS == 3 * BRIGHTNESS_POLL_MILLIS,
{
}

}
