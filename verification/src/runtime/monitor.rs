//! What the daemon does each second: it takes in the status, carries out what the policy asks
//! for, and keeps the media remap and the battery saver in line.

use vstd::prelude::*;

use crate::models::display::DisplayLayout;
use crate::models::event::{
    appended, daemon_info, entries_say, keep_newest, lemma_appended_nothing, lemma_appended_twice,
    logged, newest, push_daemon_info, EventCategory, EventRecord, EventSeverity, HardwareEvent,
    EVENT_LIMIT,
};
use crate::models::status::{ConnectionType, DuoStatus, Orientation};
use crate::runtime::policy::{
    apply_transition_policy, policy_applied, transition_actions, PolicyAction,
};
use crate::runtime::probe::{
    apply_layout_to_status, displays_counted, layout_orientation, with_layout,
};
use crate::runtime::state::RuntimeState;
use crate::text;

verus! {

/// How often the status is taken in, in milliseconds.
pub const MONITOR_POLL_MILLIS: u64 = 1_000;

/// The name of a connection.
pub open spec fn connection_name(connection_type: ConnectionType) -> Seq<char> {
    match connection_type {
        ConnectionType::Usb => "usb"@,
        ConnectionType::Bluetooth => "bluetooth"@,
        ConnectionType::Disconnected => "none"@,
    }
}

/// The name of a connection.
pub fn connection_label(connection_type: &ConnectionType) -> (r: &'static str)
    ensures
        r@ == connection_name(*connection_type),
{
    match connection_type {
        ConnectionType::Usb => "usb",
        ConnectionType::Bluetooth => "bluetooth",
        ConnectionType::Disconnected => "none",
    }
}

/// The name of an orientation.
pub open spec fn orientation_name(orientation: Orientation) -> Seq<char> {
    match orientation {
        Orientation::Normal => "normal"@,
        Orientation::Left => "left"@,
        Orientation::Right => "right"@,
        Orientation::Inverted => "inverted"@,
    }
}

/// The name of an orientation.
pub fn orientation_label(orientation: &Orientation) -> (r: &'static str)
    ensures
        r@ == orientation_name(*orientation),
{
    match orientation {
        Orientation::Normal => "normal",
        Orientation::Left => "left",
        Orientation::Right => "right",
        Orientation::Inverted => "inverted",
    }
}

/// One entry where `changed`, else none.
pub open spec fn entry_if(changed: bool, entry: EventRecord) -> Seq<EventRecord> {
    if changed {
        seq![entry]
    } else {
        Seq::empty()
    }
}

/// The entry on the keyboard's coming or going.
pub open spec fn attachment_entry(previous: DuoStatus, current: DuoStatus) -> Seq<EventRecord> {
    entry_if(
        previous.keyboard_attached != current.keyboard_attached,
        daemon_info(
            EventCategory::Usb,
            if current.keyboard_attached {
                "Keyboard attached"@
            } else {
                "Keyboard detached"@
            },
        ),
    )
}

/// The entry on the keyboard's connection.
pub open spec fn connection_entry(previous: DuoStatus, current: DuoStatus) -> Seq<EventRecord> {
    entry_if(
        previous.connection_type != current.connection_type,
        daemon_info(
            EventCategory::Keyboard,
            "Connection type changed to "@ + connection_name(current.connection_type),
        ),
    )
}

/// The entry on Wi-Fi.
pub open spec fn wifi_entry(previous: DuoStatus, current: DuoStatus) -> Seq<EventRecord> {
    entry_if(
        previous.wifi_enabled != current.wifi_enabled,
        daemon_info(
            EventCategory::Network,
            if current.wifi_enabled {
                "Wi-Fi enabled"@
            } else {
                "Wi-Fi disabled"@
            },
        ),
    )
}

/// The entry on Bluetooth.
pub open spec fn bluetooth_entry(previous: DuoStatus, current: DuoStatus) -> Seq<EventRecord> {
    entry_if(
        previous.bluetooth_enabled != current.bluetooth_enabled,
        daemon_info(
            EventCategory::Bluetooth,
            if current.bluetooth_enabled {
                "Bluetooth enabled"@
            } else {
                "Bluetooth disabled"@
            },
        ),
    )
}

/// The entry on the number of monitors.
pub open spec fn monitor_entry(previous: DuoStatus, current: DuoStatus) -> Seq<EventRecord> {
    entry_if(
        previous.monitor_count != current.monitor_count,
        daemon_info(
            EventCategory::Display,
            "Monitor count changed to "@ + text::decimal(current.monitor_count as nat),
        ),
    )
}

/// The entry on the orientation.
pub open spec fn orientation_entry(previous: DuoStatus, current: DuoStatus) -> Seq<EventRecord> {
    entry_if(
        previous.orientation != current.orientation,
        daemon_info(
            EventCategory::Rotation,
            "Orientation changed to "@ + orientation_name(current.orientation),
        ),
    )
}

/// The entry on the keyboard's backlight.
pub open spec fn backlight_entry(previous: DuoStatus, current: DuoStatus) -> Seq<EventRecord> {
    entry_if(
        previous.backlight_level != current.backlight_level,
        daemon_info(
            EventCategory::Keyboard,
            "Backlight level changed to "@ + text::decimal(current.backlight_level as nat),
        ),
    )
}

/// The entries that the step from one status to another adds to the log: one for each part of
/// the status that differs.
pub open spec fn status_entries(previous: DuoStatus, current: DuoStatus) -> Seq<EventRecord> {
    attachment_entry(previous, current) + connection_entry(previous, current) + wifi_entry(
        previous,
        current,
    ) + bluetooth_entry(previous, current) + monitor_entry(previous, current)
        + orientation_entry(previous, current) + backlight_entry(previous, current)
}

/// Adds an entry where `changed`, to a log that has grown by `said` since it was `first`.
fn push_next(
    events: &mut Vec<HardwareEvent>,
    changed: bool,
    category: EventCategory,
    message: &str,
    Ghost(first): Ghost<Seq<HardwareEvent>>,
    Ghost(said): Ghost<Seq<EventRecord>>,
)
    requires
        appended(first, old(events)@, said),
    ensures
        appended(
            first,
            final(events)@,
            said + entry_if(changed, daemon_info(category, message@)),
        ),
{
    if changed {
        push_daemon_info(events, category, message);
    } else {
        proof {
            lemma_appended_nothing(events@);
        }
    }
    proof {
        lemma_appended_twice(
            first,
            old(events)@,
            events@,
            said,
            entry_if(changed, daemon_info(category, message@)),
        );
    }
}

/// Logs what differs between two statuses, and cuts the log to its limit.
pub fn push_status_events(state: &mut RuntimeState, previous: &DuoStatus, current: &DuoStatus)
    ensures
        *final(state) == (RuntimeState {
            recent_events: final(state).recent_events,
            ..*old(state)
        }),
        logged(
            old(state).recent_events@,
            final(state).recent_events@,
            status_entries(*previous, *current),
        ),
{
    let ghost first = state.recent_events@;
    let ghost s1 = Seq::<EventRecord>::empty();
    proof {
        lemma_appended_nothing(first);
    }
    push_next(
        &mut state.recent_events,
        previous.keyboard_attached != current.keyboard_attached,
        EventCategory::Usb,
        if current.keyboard_attached {
            "Keyboard attached"
        } else {
            "Keyboard detached"
        },
        Ghost(first),
        Ghost(s1),
    );
    let ghost s2 = s1 + attachment_entry(*previous, *current);
    push_next(
        &mut state.recent_events,
        previous.connection_type != current.connection_type,
        EventCategory::Keyboard,
        text::concat2(
            "Connection type changed to ",
            connection_label(&current.connection_type),
        ).as_str(),
        Ghost(first),
        Ghost(s2),
    );
    let ghost s3 = s2 + connection_entry(*previous, *current);
    push_next(
        &mut state.recent_events,
        previous.wifi_enabled != current.wifi_enabled,
        EventCategory::Network,
        if current.wifi_enabled {
            "Wi-Fi enabled"
        } else {
            "Wi-Fi disabled"
        },
        Ghost(first),
        Ghost(s3),
    );
    let ghost s4 = s3 + wifi_entry(*previous, *current);
    push_next(
        &mut state.recent_events,
        previous.bluetooth_enabled != current.bluetooth_enabled,
        EventCategory::Bluetooth,
        if current.bluetooth_enabled {
            "Bluetooth enabled"
        } else {
            "Bluetooth disabled"
        },
        Ghost(first),
        Ghost(s4),
    );
    let ghost s5 = s4 + bluetooth_entry(*previous, *current);
    push_next(
        &mut state.recent_events,
        previous.monitor_count != current.monitor_count,
        EventCategory::Display,
        text::concat2(
            "Monitor count changed to ",
            text::decimal_text(current.monitor_count as u64).as_str(),
        ).as_str(),
        Ghost(first),
        Ghost(s5),
    );
    let ghost s6 = s5 + monitor_entry(*previous, *current);
    push_next(
        &mut state.recent_events,
        previous.orientation != current.orientation,
        EventCategory::Rotation,
        text::concat2(
            "Orientation changed to ",
            orientation_label(&current.orientation),
        ).as_str(),
        Ghost(first),
        Ghost(s6),
    );
    let ghost s7 = s6 + orientation_entry(*previous, *current);
    push_next(
        &mut state.recent_events,
        previous.backlight_level != current.backlight_level,
        EventCategory::Keyboard,
        text::concat2(
            "Backlight level changed to ",
            text::decimal_text(current.backlight_level as u64).as_str(),
        ).as_str(),
        Ghost(first),
        Ghost(s7),
    );
    proof {
        assert(s2 =~= attachment_entry(*previous, *current));
        assert(appended(first, state.recent_events@, status_entries(*previous, *current)));
    }
    keep_newest(&mut state.recent_events);
}

/// The status that the daemon takes over: what was probed, with what the session agent shows of
/// the displays. The service counts as active while an agent is registered or answers.
pub open spec fn observed_status(
    probed: DuoStatus,
    session_connected: bool,
    session_layout: Option<&DisplayLayout>,
) -> DuoStatus {
    with_layout(
        DuoStatus { service_active: session_connected || session_layout is Some, ..probed },
        session_layout,
    )
}

/// The status that the daemon takes over.
pub fn next_status(
    probed: DuoStatus,
    session_connected: bool,
    session_layout: Option<&DisplayLayout>,
) -> (r: DuoStatus)
    ensures
        r == observed_status(probed, session_connected, session_layout),
{
    let mut next: DuoStatus = probed;
    next.service_active = session_connected;
    if session_layout.is_some() {
        apply_layout_to_status(&mut next, session_layout);
        next.service_active = true;
    }
    next
}

/// How taking over a status changes the state: the policy is applied to the step, what differs
/// is logged, and the state counts as changed by the time of the system clock.
pub open spec fn status_taken(before: RuntimeState, after: RuntimeState, next: DuoStatus) -> bool {
    if before.status == next {
        after == before
    } else {
        exists|decided: RuntimeState|
            {
                &&& #[trigger] policy_applied(
                    RuntimeState { status: next, ..before },
                    decided,
                    before.status,
                )
                &&& after == (RuntimeState {
                    recent_events: after.recent_events,
                    last_updated: after.last_updated,
                    ..decided
                })
                &&& after.last_updated.is_clock_time()
                &&& logged(
                    decided.recent_events@,
                    after.recent_events@,
                    status_entries(before.status, next),
                )
            }
    }
}

/// Takes over a status. The result is `None` where nothing has changed; else it is what the
/// policy asks for, and the state is to be saved.
pub fn take_status(state: &mut RuntimeState, next: DuoStatus) -> (r: Option<Vec<PolicyAction>>)
    ensures
        status_taken(*old(state), *final(state), next),
        match r {
            Some(actions) => old(state).status != next && actions@ == transition_actions(
                old(state).status,
                next,
                old(state).settings,
            ),
            None => old(state).status == next,
        },
{
    let previous: DuoStatus = state.status;
    if previous == next {
        return None;
    }
    state.status = next;
    let actions: Vec<PolicyAction> = apply_transition_policy(state, &previous);
    let ghost decided = *state;
    push_status_events(state, &previous, &next);
    state.touch();
    assert(policy_applied(
        RuntimeState { status: next, ..*old(state) },
        decided,
        old(state).status,
    ));
    Some(actions)
}

/// The log stays within its limit whenever a change of status is taken over.
pub proof fn law_log_stays_within_its_limit(
    before: RuntimeState,
    after: RuntimeState,
    next: DuoStatus,
)
    requires
        status_taken(before, after, next),
        before.status != next || before.recent_events@.len() <= EVENT_LIMIT,
    ensures
        after.recent_events@.len() <= EVENT_LIMIT,
{
}

/// The settings, and what is known of the battery saver and of the panel's ownership, are
/// unaffected by a change of status.
pub proof fn law_status_leaves_the_rest_alone(
    before: RuntimeState,
    after: RuntimeState,
    next: DuoStatus,
)
    requires
        status_taken(before, after, next),
    ensures
        after == (RuntimeState {
            status: after.status,
            recent_events: after.recent_events,
            last_updated: after.last_updated,
            ..before
        }),
        after.status == (DuoStatus { backlight_level: after.status.backlight_level, ..next }),
{
}

/// One where `b` holds, else none.
pub open spec fn one_if(b: bool) -> int {
    if b {
        1
    } else {
        0
    }
}

/// There is one entry for each part of the status that differs, and for no other: first on the
/// keyboard's coming or going, then on its connection, Wi-Fi, Bluetooth, the number of monitors,
/// the orientation and the backlight. Each tells the present state.
pub proof fn law_every_difference_has_its_entry(previous: DuoStatus, current: DuoStatus)
    ensures
        ({
            let said = status_entries(previous, current);
            let n1 = one_if(previous.keyboard_attached != current.keyboard_attached);
            let n2 = n1 + one_if(previous.connection_type != current.connection_type);
            let n3 = n2 + one_if(previous.wifi_enabled != current.wifi_enabled);
            let n4 = n3 + one_if(previous.bluetooth_enabled != current.bluetooth_enabled);
            let n5 = n4 + one_if(previous.monitor_count != current.monitor_count);
            let n6 = n5 + one_if(previous.orientation != current.orientation);
            let n7 = n6 + one_if(previous.backlight_level != current.backlight_level);
            &&& said.len() == n7
            &&& n1 > 0 ==> said[0].category == EventCategory::Usb && said[0].message == (
            if current.keyboard_attached {
                "Keyboard attached"@
            } else {
                "Keyboard detached"@
            })
            &&& n2 > n1 ==> said[n1].category == EventCategory::Keyboard && said[n1].message
                == "Connection type changed to "@ + (match current.connection_type {
                ConnectionType::Usb => "usb"@,
                ConnectionType::Bluetooth => "bluetooth"@,
                ConnectionType::Disconnected => "none"@,
            })
            &&& n3 > n2 ==> said[n2].category == EventCategory::Network && said[n2].message == (
            if current.wifi_enabled {
                "Wi-Fi enabled"@
            } else {
                "Wi-Fi disabled"@
            })
            &&& n4 > n3 ==> said[n3].category == EventCategory::Bluetooth && said[n3].message == (
            if current.bluetooth_enabled {
                "Bluetooth enabled"@
            } else {
                "Bluetooth disabled"@
            })
            &&& n5 > n4 ==> said[n4].category == EventCategory::Display && said[n4].message
                == "Monitor count changed to "@ + text::decimal(current.monitor_count as nat)
            &&& n6 > n5 ==> said[n5].category == EventCategory::Rotation && said[n5].message
                == "Orientation changed to "@ + (match current.orientation {
                Orientation::Normal => "normal"@,
                Orientation::Left => "left"@,
                Orientation::Right => "right"@,
                Orientation::Inverted => "inverted"@,
            })
            &&& n7 > n6 ==> said[n6].category == EventCategory::Keyboard && said[n6].message
                == "Backlight level changed to "@ + text::decimal(current.backlight_level as nat)
        }),
{
    lemma_pieces(
        attachment_entry(previous, current),
        connection_entry(previous, current),
        wifi_entry(previous, current),
        bluetooth_entry(previous, current),
        monitor_entry(previous, current),
        orientation_entry(previous, current),
        backlight_entry(previous, current),
    );
}

/// Where the pieces of a list begin in it.
proof fn lemma_pieces<T>(
    a: Seq<T>,
    b: Seq<T>,
    c: Seq<T>,
    d: Seq<T>,
    e: Seq<T>,
    f: Seq<T>,
    g: Seq<T>,
)
    ensures
        ({
            let all = a + b + c + d + e + f + g;
            let nb = a.len() as int;
            let nc = nb + b.len();
            let nd = nc + c.len();
            let ne = nd + d.len();
            let nf = ne + e.len();
            let ng = nf + f.len();
            &&& all.len() == ng + g.len()
            &&& a.len() > 0 ==> all[0] == a[0]
            &&& b.len() > 0 ==> all[nb] == b[0]
            &&& c.len() > 0 ==> all[nc] == c[0]
            &&& d.len() > 0 ==> all[nd] == d[0]
            &&& e.len() > 0 ==> all[ne] == e[0]
            &&& f.len() > 0 ==> all[nf] == f[0]
            &&& g.len() > 0 ==> all[ng] == g[0]
        }),
{
}

/// A change of status adds its entries to the log, each with the time of the clock and the daemon
/// as its source, and takes none away that there is room for.
pub proof fn law_every_difference_is_logged(
    state: &mut RuntimeState,
    previous: DuoStatus,
    current: DuoStatus,
    i: int,
)
    requires
        call_ensures(push_status_events, (state, &previous, &current), ()),
        old(state).recent_events@.len() + status_entries(previous, current).len() <= 500,
        0 <= i < status_entries(previous, current).len(),
    ensures
        ({
            let before = old(state).recent_events@;
            let log = final(state).recent_events@;
            let said = status_entries(previous, current);
            &&& log.len() == before.len() + said.len()
            &&& log.take(before.len() as int) == before
            &&& log[before.len() + i].category == said[i].category
            &&& log[before.len() + i].message@ == said[i].message
            &&& log[before.len() + i].severity == EventSeverity::Info
            &&& log[before.len() + i].source@ == "rust-daemon"@
            &&& log[before.len() + i].timestamp.second() >= 0
        }),
        *final(state) == (RuntimeState {
            recent_events: final(state).recent_events,
            ..*old(state)
        }),
{
    let before = old(state).recent_events@;
    let log = final(state).recent_events@;
    let said = status_entries(previous, current);
    let added = choose|added: Seq<HardwareEvent>|
        #[trigger] entries_say(added, said) && log == newest(before + added);
    assert(log == before + added);
    assert(log.take(before.len() as int) =~= before);
    assert(log[before.len() + i] == added[i]);
    assert(added[i].record() == said[i]);
    lemma_entries_are_the_daemons(previous, current, i);
}

proof fn lemma_entries_are_the_daemons(previous: DuoStatus, current: DuoStatus, i: int)
    requires
        0 <= i < status_entries(previous, current).len(),
    ensures
        status_entries(previous, current)[i].severity == EventSeverity::Info,
        status_entries(previous, current)[i].source == "rust-daemon"@,
{
}

/// A status is taken over exactly where it differs from the known one. Then it is the known one,
/// but for the backlight level, which is that of the dock on a detach; and the settings and what
/// else the daemon knows stay.
pub proof fn law_new_status_is_taken_over(
    state: &mut RuntimeState,
    next: DuoStatus,
    r: Option<Vec<PolicyAction>>,
)
    requires
        call_ensures(take_status, (state, next), r),
    ensures
        r is Some <==> next != old(state).status,
        r is None ==> *final(state) == *old(state),
        r matches Some(actions) ==> {
            &&& actions@ == transition_actions(old(state).status, next, old(state).settings)
            &&& final(state).status == (DuoStatus {
                backlight_level: if old(state).status.keyboard_attached && !next.keyboard_attached {
                    old(state).status.backlight_level
                } else {
                    next.backlight_level
                },
                ..next
            })
            &&& *final(state) == (RuntimeState {
                status: final(state).status,
                recent_events: final(state).recent_events,
                last_updated: final(state).last_updated,
                ..*old(state)
            })
            &&& final(state).recent_events@.len() <= 500
            &&& final(state).last_updated.second() >= 0
        },
{
}

/// What was probed is taken over as it is, but for what the session agent shows of the displays.
/// The service counts as active exactly where an agent is registered or answers.
pub proof fn law_service_is_active_with_an_agent(
    probed: DuoStatus,
    connected: bool,
    layout: Option<&DisplayLayout>,
    r: DuoStatus,
)
    requires
        call_ensures(next_status, (probed, connected, layout), r),
    ensures
        r.service_active <==> connected || layout is Some,
        r == (DuoStatus {
            service_active: r.service_active,
            monitor_count: r.monitor_count,
            orientation: r.orientation,
            ..probed
        }),
        layout is None ==> r.monitor_count == probed.monitor_count && r.orientation
            == probed.orientation,
        r.monitor_count == displays_counted(layout, probed.monitor_count),
        r.orientation == (match layout_orientation(layout) {
            Some(orientation) => orientation,
            None => probed.orientation,
        }),
{
}

/// Connections and orientations are written by their names, and the status is taken in once a
/// second.
pub proof fn law_labels_are_names(
    connection: ConnectionType,
    connection_text: &'static str,
    orientation: Orientation,
    orientation_text: &'static str,
)
    requires
        call_ensures(connection_label, (&connection,), connection_text),
        call_ensures(orientation_label, (&orientation,), orientation_text),
    ensures
        connection_text@ == (match connection {
            ConnectionType::Usb => "usb"@,
            ConnectionType::Bluetooth => "bluetooth"@,
            ConnectionType::Disconnected => "none"@,
        }),
        orientation_text@ == (match orientation {
            Orientation::Normal => "normal"@,
            Orientation::Left => "left"@,
            Orientation::Right => "right"@,
            Orientation::Inverted => "inverted"@,
        }),
        MONITOR_POLL_MILLIS == 1_000,
{
}

}
