//! What the daemon does when the keyboard comes or goes.

use vstd::prelude::*;

use crate::models::event::{
    daemon_info, keep_newest, logged, newest, push_daemon_info, EventCategory, EventSeverity,
};
use crate::models::settings::{DuoSettings, Real};
use crate::models::status::{ConnectionType, DuoStatus};
use crate::runtime::state::RuntimeState;

pub use crate::runtime::bluetooth_power::ensure_bluetooth_enabled;

verus! {

/// Something that the daemon is to do.
#[derive(Debug, Clone, Copy, PartialEq, Eq, Structural)]
pub enum PolicyAction {
    EnsureBluetoothEnabled,
    SetBacklight(u8),
    SetBluetoothBacklight(u8),
    SetDockMode { attached: bool, scale: Real },
}

/// What is to be done when the status was `previous` and is now `current`.
///
/// - The keyboard has been attached: its backlight gets the default level, and the lower display
///   goes off.
/// - It has been detached: Bluetooth is powered and the lower display comes on. Where the
///   keyboard is already on Bluetooth, its backlight is brought to the level it had.
/// - Neither, but a detached keyboard has come up on Bluetooth: its backlight is brought to the
///   level that is remembered.
pub open spec fn transition_actions(
    previous: DuoStatus,
    current: DuoStatus,
    settings: DuoSettings,
) -> Seq<PolicyAction> {
    if previous.keyboard_attached == current.keyboard_attached {
        if !current.keyboard_attached && previous.connection_type != ConnectionType::Bluetooth
            && current.connection_type == ConnectionType::Bluetooth {
            seq![PolicyAction::SetBluetoothBacklight(current.backlight_level)]
        } else {
            Seq::empty()
        }
    } else if current.keyboard_attached {
        seq![
            PolicyAction::SetBacklight(settings.default_backlight),
            PolicyAction::SetDockMode { attached: true, scale: settings.default_scale },
        ]
    } else {
        let always = seq![
            PolicyAction::EnsureBluetoothEnabled,
            PolicyAction::SetDockMode { attached: false, scale: settings.default_scale },
        ];
        if current.connection_type == ConnectionType::Bluetooth {
            always.push(PolicyAction::SetBluetoothBacklight(previous.backlight_level))
        } else {
            always
        }
    }
}

/// The keyboard has just been detached.
pub open spec fn detach_edge(previous: DuoStatus, current: DuoStatus) -> bool {
    previous.keyboard_attached && !current.keyboard_attached
}

/// The keyboard has just been attached.
pub open spec fn attach_edge(previous: DuoStatus, current: DuoStatus) -> bool {
    !previous.keyboard_attached && current.keyboard_attached
}

/// How the policy changes the state: on a detach it remembers the backlight level that the
/// keyboard had and logs that Bluetooth is wanted; on either edge the log is cut to its limit.
pub open spec fn policy_applied(before: RuntimeState, after: RuntimeState, previous: DuoStatus) -> bool {
    &&& after == (RuntimeState {
        status: after.status,
        recent_events: after.recent_events,
        ..before
    })
    &&& after.status == if detach_edge(previous, before.status) {
        DuoStatus { backlight_level: previous.backlight_level, ..before.status }
    } else {
        before.status
    }
    &&& if detach_edge(previous, before.status) {
        logged(
            before.recent_events@,
            after.recent_events@,
            seq![
                daemon_info(
                    EventCategory::Bluetooth,
                    "Ensuring Bluetooth is enabled for detached keyboard"@,
                ),
            ],
        )
    } else if attach_edge(previous, before.status) {
        after.recent_events@ == newest(before.recent_events@)
    } else {
        after.recent_events == before.recent_events
    }
}

/// Decides what to do about the step from the status `previous` to the one in `state`.
pub fn apply_transition_policy(state: &mut RuntimeState, previous: &DuoStatus) -> (r: Vec<
    PolicyAction,
>)
    ensures
        r@ == transition_actions(*previous, old(state).status, old(state).settings),
        policy_applied(*old(state), *final(state), *previous),
{
    let mut actions: Vec<PolicyAction> = Vec::new();
    if previous.keyboard_attached == state.status.keyboard_attached {
        if !state.status.keyboard_attached && previous.connection_type != ConnectionType::Bluetooth
            && state.status.connection_type == ConnectionType::Bluetooth {
            actions.push(PolicyAction::SetBluetoothBacklight(state.status.backlight_level));
        }
        assert(actions@ =~= transition_actions(*previous, old(state).status, old(state).settings));
        return actions;
    }
    if state.status.keyboard_attached {
        actions.push(PolicyAction::SetBacklight(state.settings.default_backlight));
        actions.push(
            PolicyAction::SetDockMode { attached: true, scale: state.settings.default_scale },
        );
    } else {
        actions.push(PolicyAction::EnsureBluetoothEnabled);
        push_daemon_info(
            &mut state.recent_events,
            EventCategory::Bluetooth,
            "Ensuring Bluetooth is enabled for detached keyboard",
        );
        actions.push(
            PolicyAction::SetDockMode { attached: false, scale: state.settings.default_scale },
        );
        if state.status.connection_type == ConnectionType::Bluetooth {
            actions.push(PolicyAction::SetBluetoothBacklight(previous.backlight_level));
        }
        state.status.backlight_level = previous.backlight_level;
    }
    keep_newest(&mut state.recent_events);
    assert(actions@ =~= transition_actions(*previous, old(state).status, old(state).settings));
    actions
}

/// Bluetooth is powered exactly when the keyboard is detached.
pub proof fn law_bluetooth_is_ensured_exactly_on_detach(
    previous: DuoStatus,
    current: DuoStatus,
    settings: DuoSettings,
)
    ensures
        transition_actions(previous, current, settings).contains(
            PolicyAction::EnsureBluetoothEnabled,
        ) <==> detach_edge(previous, current),
{
    let actions = transition_actions(previous, current, settings);
    if detach_edge(previous, current) {
        assert(actions[0] == PolicyAction::EnsureBluetoothEnabled);
    }
}

/// The policy changes nothing of what is known of the radios, the displays or the connection.
pub proof fn law_policy_leaves_the_radios_alone(
    before: RuntimeState,
    after: RuntimeState,
    previous: DuoStatus,
)
    requires
        policy_applied(before, after, previous),
    ensures
        after.status == (DuoStatus {
            backlight_level: after.status.backlight_level,
            ..before.status
        }),
        after.settings == before.settings,
{
}

/// The dock mode changes exactly when the keyboard comes or goes, and it follows the keyboard.
pub proof fn law_dock_mode_follows_the_keyboard(
    previous: DuoStatus,
    current: DuoStatus,
    settings: DuoSettings,
    attached: bool,
    scale: Real,
)
    ensures
        transition_actions(previous, current, settings).contains(
            (PolicyAction::SetDockMode { attached, scale }),
        ) <==> previous.keyboard_attached != current.keyboard_attached && attached
            == current.keyboard_attached && scale == settings.default_scale,
{
    let actions = transition_actions(previous, current, settings);
    let wanted = PolicyAction::SetDockMode {
        attached: current.keyboard_attached,
        scale: settings.default_scale,
    };
    if previous.keyboard_attached != current.keyboard_attached {
        assert(actions[1] == wanted);
    }
}

/// A status that repeats asks for nothing.
pub proof fn law_stable_status_asks_for_nothing(current: DuoStatus, settings: DuoSettings)
    ensures
        transition_actions(current, current, settings) == Seq::<PolicyAction>::empty(),
{
}

/// A keyboard that is detached and then comes up on Bluetooth gets the backlight level that it
/// had in the dock.
pub proof fn law_backlight_level_survives_detaching(
    docked: DuoStatus,
    detached: RuntimeState,
    remembered: RuntimeState,
    wireless: DuoStatus,
    settings: DuoSettings,
)
    requires
        detach_edge(docked, detached.status),
        policy_applied(detached, remembered, docked),
        remembered.status.connection_type != ConnectionType::Bluetooth,
        wireless == (DuoStatus {
            connection_type: ConnectionType::Bluetooth,
            ..remembered.status
        }),
    ensures
        transition_actions(remembered.status, wireless, settings) == seq![
            PolicyAction::SetBluetoothBacklight(docked.backlight_level),
        ],
{
}

/// The keyboard's backlight is set to the user's level, and to no other, exactly when the keyboard
/// has just been attached.
pub proof fn law_attached_keyboard_gets_the_default_level(
    previous: DuoStatus,
    current: DuoStatus,
    settings: DuoSettings,
    level: u8,
)
    ensures
        transition_actions(previous, current, settings).contains(PolicyAction::SetBacklight(level))
            <==> !previous.keyboard_attached && current.keyboard_attached && level
            == settings.default_backlight,
{
    let actions = transition_actions(previous, current, settings);
    if !previous.keyboard_attached && current.keyboard_attached {
        assert(actions[0] == PolicyAction::SetBacklight(settings.default_backlight));
    }
}

/// The backlight is set over Bluetooth exactly when a keyboard out of the dock is on Bluetooth and
/// has just come there or out of the dock: to the level that it had in the dock, or else to the
/// one that is remembered.
pub proof fn law_wireless_keyboard_gets_its_level_back(
    previous: DuoStatus,
    current: DuoStatus,
    settings: DuoSettings,
    level: u8,
)
    ensures
        transition_actions(previous, current, settings).contains(
            PolicyAction::SetBluetoothBacklight(level),
        ) <==> !current.keyboard_attached && current.connection_type == ConnectionType::Bluetooth
            && (previous.keyboard_attached && level == previous.backlight_level || (
        !previous.keyboard_attached && previous.connection_type != ConnectionType::Bluetooth
            && level == current.backlight_level)),
{
    let actions = transition_actions(previous, current, settings);
    if !current.keyboard_attached && current.connection_type == ConnectionType::Bluetooth {
        if previous.keyboard_attached {
            assert(actions[2] == PolicyAction::SetBluetoothBacklight(previous.backlight_level));
        } else if previous.connection_type != ConnectionType::Bluetooth {
            assert(actions[0] == PolicyAction::SetBluetoothBacklight(current.backlight_level));
        }
    }
}

/// Bluetooth is powered exactly when the keyboard was in the dock and no longer is.
pub proof fn law_leaving_the_dock_powers_bluetooth(
    previous: DuoStatus,
    current: DuoStatus,
    settings: DuoSettings,
)
    ensures
        transition_actions(previous, current, settings).contains(
            PolicyAction::EnsureBluetoothEnabled,
        ) <==> previous.keyboard_attached && !current.keyboard_attached,
{
    law_bluetooth_is_ensured_exactly_on_detach(previous, current, settings);
}

/// No action is asked for twice. Bluetooth and the docked keyboard's backlight come before the
/// dock mode, and the backlight over Bluetooth comes last.
pub proof fn law_actions_come_in_their_order(
    previous: DuoStatus,
    current: DuoStatus,
    settings: DuoSettings,
)
    ensures
        transition_actions(previous, current, settings).no_duplicates(),
        forall|i: int, j: int|
            #![trigger transition_actions(previous, current, settings)[i], transition_actions(previous, current, settings)[j]]
            0 <= i < transition_actions(previous, current, settings).len() && 0 <= j
                < transition_actions(previous, current, settings).len() ==> {
                let a = transition_actions(previous, current, settings)[i];
                let b = transition_actions(previous, current, settings)[j];
                &&& a is EnsureBluetoothEnabled && b is SetDockMode ==> i < j
                &&& a is SetBacklight && b is SetDockMode ==> i < j
                &&& b is SetBluetoothBacklight && i != j ==> i < j
            },
{
}

/// On a detach the level that the keyboard had in the dock is remembered; otherwise nothing of
/// the status changes.
pub proof fn law_docked_level_is_remembered(
    before: RuntimeState,
    after: RuntimeState,
    previous: DuoStatus,
)
    requires
        policy_applied(before, after, previous),
    ensures
        after.status.backlight_level == (if previous.keyboard_attached
            && !before.status.keyboard_attached {
            previous.backlight_level
        } else {
            before.status.backlight_level
        }),
        after.status == (DuoStatus {
            backlight_level: after.status.backlight_level,
            ..before.status
        }),
        after == (RuntimeState {
            status: after.status,
            recent_events: after.recent_events,
            ..before
        }),
{
}

/// A detach adds one entry to the log, which says that Bluetooth is wanted, and keeps the others
/// as far as there is room; otherwise no entry is added, and none is lost of a log within its
/// limit.
pub proof fn law_detaching_is_logged(
    before: RuntimeState,
    after: RuntimeState,
    previous: DuoStatus,
)
    requires
        policy_applied(before, after, previous),
        before.recent_events@.len() < 500,
    ensures
        previous.keyboard_attached && !before.status.keyboard_attached ==> {
            &&& after.recent_events@.len() == before.recent_events@.len() + 1
            &&& after.recent_events@.drop_last() == before.recent_events@
            &&& after.recent_events@.last().message@
                == "Ensuring Bluetooth is enabled for detached keyboard"@
            &&& after.recent_events@.last().category == EventCategory::Bluetooth
            &&& after.recent_events@.last().severity == EventSeverity::Info
            &&& after.recent_events@.last().source@ == "rust-daemon"@
            &&& after.recent_events@.last().timestamp.second() >= 0
        },
        !(previous.keyboard_attached && !before.status.keyboard_attached)
            ==> after.recent_events@ == before.recent_events@,
{
}

/// What the policy asks for and how it changes the state depends on the step from the one status
/// to the other, and on the settings alone.
pub proof fn law_policy_follows_the_step(
    state: &mut RuntimeState,
    previous: DuoStatus,
    r: Vec<PolicyAction>,
)
    requires
        call_ensures(apply_transition_policy, (state, &previous), r),
    ensures
        r@ == transition_actions(previous, old(state).status, old(state).settings),
        policy_applied(*old(state), *final(state), previous),
        previous.keyboard_attached == old(state).status.keyboard_attached ==> *final(state)
            == *old(state),
{
}

}
