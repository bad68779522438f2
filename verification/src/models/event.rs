//! The log of what happened to the hardware.

use vstd::prelude::*;

use crate::clock::Timestamp;

verus! {

/// The part of the machine that an event is about.
#[derive(Debug, Clone, Copy, PartialEq, Eq, Structural)]
pub enum EventCategory {
    Usb,
    Keyboard,
    Network,
    Bluetooth,
    Display,
    Rotation,
    Service,
}

/// How serious an event is.
#[derive(Debug, Clone, Copy, PartialEq, Eq, Structural)]
pub enum EventSeverity {
    Info,
    Warning,
    Error,
}

/// One entry of the log.
#[derive(Debug, Clone)]
pub struct HardwareEvent {
    pub timestamp: Timestamp,
    pub category: EventCategory,
    pub severity: EventSeverity,
    pub message: String,
    pub source: String,
}

/// What an entry says, apart from when it was written.
pub struct EventRecord {
    pub category: EventCategory,
    pub severity: EventSeverity,
    pub message: Seq<char>,
    pub source: Seq<char>,
}

impl HardwareEvent {
    /// What the entry says, apart from when it was written.
    pub open spec fn record(self) -> EventRecord {
        EventRecord {
            category: self.category,
            severity: self.severity,
            message: self.message@,
            source: self.source@,
        }
    }
}

/// These entries say `said`, one by one, each with the time of the system clock.
pub open spec fn entries_say(entries: Seq<HardwareEvent>, said: Seq<EventRecord>) -> bool {
    &&& entries.len() == said.len()
    &&& forall|i: int|
        0 <= i < said.len() ==> (#[trigger] entries[i]).record() == said[i]
            && entries[i].timestamp.is_clock_time()
}

/// An entry of the daemon that reports something ordinary.
pub open spec fn daemon_info(category: EventCategory, message: Seq<char>) -> EventRecord {
    EventRecord { category, severity: EventSeverity::Info, message, source: "rust-daemon"@ }
}

impl HardwareEvent {
    /// An entry that reports something ordinary, written now.
    pub fn info(category: EventCategory, message: &str, source: &str) -> (r: HardwareEvent)
        ensures
            r.record() == (EventRecord {
                category,
                severity: EventSeverity::Info,
                message: message@,
                source: source@,
            }),
            r.timestamp.is_clock_time(),
    {
        HardwareEvent {
            timestamp: Timestamp::now(),
            category,
            severity: EventSeverity::Info,
            message: message.to_string(),
            source: source.to_string(),
        }
    }
}

/// The number of entries that the log keeps.
pub const EVENT_LIMIT: usize = 500;

/// The last `EVENT_LIMIT` entries of `events`, or all of them where they are no more.
pub open spec fn newest<T>(events: Seq<T>) -> Seq<T> {
    if events.len() > EVENT_LIMIT {
        events.skip(events.len() - EVENT_LIMIT)
    } else {
        events
    }
}

/// Drops the oldest entries, so that no more than `EVENT_LIMIT` stay.
pub fn keep_newest(events: &mut Vec<HardwareEvent>)
    ensures
        final(events)@ == newest(old(events)@),
{
    if events.len() > EVENT_LIMIT {
        let overflow: usize = events.len() - EVENT_LIMIT;
        let mut kept: Vec<HardwareEvent> = events.split_off(overflow);
        assert(kept@ =~= newest(old(events)@));
        events.clear();
        events.append(&mut kept);
        assert(events@ =~= newest(old(events)@));
    }
}

/// `after` is the log `before` with entries added that say `said`, each with the time of the
/// system clock, and none dropped.
pub open spec fn appended(
    before: Seq<HardwareEvent>,
    after: Seq<HardwareEvent>,
    said: Seq<EventRecord>,
) -> bool {
    exists|added: Seq<HardwareEvent>|
        #[trigger] entries_say(added, said) && after == before + added
}

/// `after` is what the log keeps of `before` with entries added that say `said`, each with the
/// time of the system clock.
pub open spec fn logged(
    before: Seq<HardwareEvent>,
    after: Seq<HardwareEvent>,
    said: Seq<EventRecord>,
) -> bool {
    exists|added: Seq<HardwareEvent>|
        #[trigger] entries_say(added, said) && after == newest(before + added)
}

/// Adding entries in two steps adds them all.
pub proof fn lemma_appended_twice(
    before: Seq<HardwareEvent>,
    between: Seq<HardwareEvent>,
    after: Seq<HardwareEvent>,
    first: Seq<EventRecord>,
    second: Seq<EventRecord>,
)
    requires
        appended(before, between, first),
        appended(between, after, second),
    ensures
        appended(before, after, first + second),
{
    let a = choose|a: Seq<HardwareEvent>|
        #[trigger] entries_say(a, first) && between == before + a;
    let b = choose|b: Seq<HardwareEvent>|
        #[trigger] entries_say(b, second) && after == between + b;
    assert(entries_say(a + b, first + second));
    assert(after =~= before + (a + b));
}

/// Adding no entry changes nothing.
pub proof fn lemma_appended_nothing(before: Seq<HardwareEvent>)
    ensures
        appended(before, before, Seq::empty()),
{
    let none = Seq::<HardwareEvent>::empty();
    assert(entries_say(none, Seq::empty()));
    assert(before =~= before + none);
}

/// Adds an entry of the daemon that reports something ordinary.
pub fn push_daemon_info(events: &mut Vec<HardwareEvent>, category: EventCategory, message: &str)
    ensures
        appended(old(events)@, final(events)@, seq![daemon_info(category, message@)]),
{
    let event: HardwareEvent = HardwareEvent::info(category, message, "rust-daemon");
    let ghost added = seq![event];
    events.push(event);
    proof {
        assert(entries_say(added, seq![daemon_info(category, message@)]));
        assert(events@ =~= old(events)@ + added);
    }
}

/// The log keeps the newest five hundred entries, in their order: all of them where they are no
/// more, and none that is older than one that it drops.
pub proof fn law_log_keeps_the_newest_entries<T>(events: Seq<T>)
    ensures
        newest(events).len() == (if events.len() <= 500 {
            events.len() as int
        } else {
            500
        }),
        newest(events).is_suffix_of(events),
{
    let kept = newest(events);
    assert(events.subrange(events.len() - kept.len(), events.len() as int) =~= kept);
}

/// Cutting the log cuts it to its newest entries.
pub proof fn law_cut_log_is_the_newest_part(events: &mut Vec<HardwareEvent>)
    requires
        call_ensures(keep_newest, (events,), ()),
    ensures
        final(events)@.is_suffix_of(old(events)@),
        old(events)@.len() <= 500 ==> final(events)@ == old(events)@,
        old(events)@.len() > 500 ==> final(events)@.len() == 500,
{
    law_log_keeps_the_newest_entries(old(events)@);
}

/// An entry says what it was given, as something ordinary, with the time of the clock. One of the
/// daemon has the daemon as its source, and stands at the end of the log.
pub proof fn law_entry_says_what_it_was_given(
    category: EventCategory,
    message: &str,
    source: &str,
    entry: HardwareEvent,
    events: &mut Vec<HardwareEvent>,
)
    requires
        call_ensures(HardwareEvent::info, (category, message, source), entry),
        call_ensures(push_daemon_info, (events, category, message), ()),
    ensures
        entry.category == category,
        entry.severity == EventSeverity::Info,
        entry.message@ == message@,
        entry.source@ == source@,
        entry.timestamp.second() >= 0,
        final(events)@.len() == old(events)@.len() + 1,
        final(events)@.drop_last() == old(events)@,
        final(events)@.last().category == category,
        final(events)@.last().severity == EventSeverity::Info,
        final(events)@.last().message@ == message@,
        final(events)@.last().source@ == "rust-daemon"@,
{
}

}
