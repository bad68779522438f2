//! The battery saver: Quiet on battery power, and back to the chosen mode on mains power.

use vstd::prelude::*;

use crate::models::event::{
    appended, daemon_info, lemma_appended_nothing, push_daemon_info, EventCategory, EventRecord,
};
use crate::models::settings::{DuoSettings, PerformanceMode, PowerLimits};
use crate::runtime::state::RuntimeState;
use crate::text;

verus! {

/// The name of a performance mode.
pub open spec fn mode_name(mode: PerformanceMode) -> Seq<char> {
    match mode {
        PerformanceMode::Quiet => "Quiet"@,
        PerformanceMode::Balanced => "Balanced"@,
        PerformanceMode::Performance => "Performance"@,
    }
}

/// The name of a performance mode.
pub fn mode_label(mode: &PerformanceMode) -> (r: &'static str)
    ensures
        r@ == mode_name(*mode),
{
    match mode {
        PerformanceMode::Quiet => "Quiet",
        PerformanceMode::Balanced => "Balanced",
        PerformanceMode::Performance => "Performance",
    }
}

/// What the battery saver is to do.
#[derive(Debug, Clone, Copy, PartialEq, Eq, Structural)]
pub enum AutoQuietAction {
    Nothing,
    ClearRestoreMode,
    EnterQuiet { restore_mode: PerformanceMode, limits: PowerLimits },
    Restore { mode: PerformanceMode, limits: PowerLimits },
}

/// What the battery saver is to do: switched off, it forgets a mode to go back to; on battery
/// power it enters Quiet from another mode, once; on mains power it goes back to the mode that
/// it left.
pub open spec fn battery_saver_action(
    settings: DuoSettings,
    restore_mode: Option<PerformanceMode>,
    on_battery_power: bool,
) -> AutoQuietAction {
    match restore_mode {
        None => if settings.auto_quiet_on_battery && on_battery_power
            && settings.active_performance_mode != PerformanceMode::Quiet {
            AutoQuietAction::EnterQuiet {
                restore_mode: settings.active_performance_mode,
                limits: settings.performance_profiles.quiet,
            }
        } else {
            AutoQuietAction::Nothing
        },
        Some(mode) => if !settings.auto_quiet_on_battery {
            AutoQuietAction::ClearRestoreMode
        } else if on_battery_power {
            AutoQuietAction::Nothing
        } else {
            AutoQuietAction::Restore { mode, limits: settings.performance_profiles.limits_of(mode) }
        },
    }
}

/// Decides what the battery saver is to do.
pub fn auto_quiet_action(state: &RuntimeState, on_battery_power: bool) -> (r: AutoQuietAction)
    ensures
        r == battery_saver_action(
            state.settings,
            state.battery_saver_restore_mode,
            on_battery_power,
        ),
{
    if !state.settings.auto_quiet_on_battery {
        return if state.battery_saver_restore_mode.is_some() {
            AutoQuietAction::ClearRestoreMode
        } else {
            AutoQuietAction::Nothing
        };
    }
    if on_battery_power {
        return match state.battery_saver_restore_mode {
            None => if state.settings.active_performance_mode != PerformanceMode::Quiet {
                AutoQuietAction::EnterQuiet {
                    restore_mode: state.settings.active_performance_mode,
                    limits: state.settings.performance_profiles.quiet,
                }
            } else {
                AutoQuietAction::Nothing
            },
            Some(_) => AutoQuietAction::Nothing,
        };
    }
    match state.battery_saver_restore_mode {
        Some(mode) => AutoQuietAction::Restore {
            mode,
            limits: *state.settings.performance_profiles.for_mode(&mode),
        },
        None => AutoQuietAction::Nothing,
    }
}

/// The performance mode and limits that the hardware is to get for an action.
pub open spec fn mode_to_apply(action: AutoQuietAction) -> Option<(PerformanceMode, PowerLimits)> {
    match action {
        AutoQuietAction::Nothing => None,
        AutoQuietAction::ClearRestoreMode => None,
        AutoQuietAction::EnterQuiet { restore_mode, limits } => Some(
            (PerformanceMode::Quiet, limits),
        ),
        AutoQuietAction::Restore { mode, limits } => Some((mode, limits)),
    }
}

/// The performance mode and limits that the hardware is to get for an action.
pub fn auto_quiet_mode(action: &AutoQuietAction) -> (r: Option<(PerformanceMode, PowerLimits)>)
    ensures
        r == mode_to_apply(*action),
{
    match action {
        AutoQuietAction::Nothing => None,
        AutoQuietAction::ClearRestoreMode => None,
        AutoQuietAction::EnterQuiet { restore_mode: _, limits } => Some(
            (PerformanceMode::Quiet, *limits),
        ),
        AutoQuietAction::Restore { mode, limits } => Some((*mode, *limits)),
    }
}

/// The settings and the mode to go back to, once an action has been carried out.
pub open spec fn battery_saver_after(
    settings: DuoSettings,
    restore_mode: Option<PerformanceMode>,
    action: AutoQuietAction,
) -> (DuoSettings, Option<PerformanceMode>) {
    match action {
        AutoQuietAction::Nothing => (settings, restore_mode),
        AutoQuietAction::ClearRestoreMode => (settings, None),
        AutoQuietAction::EnterQuiet { restore_mode: left, limits } => (
            DuoSettings { active_performance_mode: PerformanceMode::Quiet, ..settings },
            Some(left),
        ),
        AutoQuietAction::Restore { mode, limits } => (
            DuoSettings { active_performance_mode: mode, ..settings },
            None,
        ),
    }
}

/// What carrying out an action adds to the log.
pub open spec fn battery_saver_entries(action: AutoQuietAction) -> Seq<EventRecord> {
    match action {
        AutoQuietAction::Nothing => Seq::empty(),
        AutoQuietAction::ClearRestoreMode => Seq::empty(),
        AutoQuietAction::EnterQuiet { restore_mode, limits } => seq![
            daemon_info(
                EventCategory::Service,
                "Switched performance mode to Quiet on battery power"@,
            ),
        ],
        AutoQuietAction::Restore { mode, limits } => seq![
            daemon_info(
                EventCategory::Service,
                "Restored "@ + mode_name(mode) + " performance mode on AC power"@,
            ),
        ],
    }
}

/// What an action was to do, for the report that it failed.
pub open spec fn battery_saver_aim(action: AutoQuietAction) -> Seq<char> {
    match action {
        AutoQuietAction::Restore { mode, limits } => "restore performance mode on AC power"@,
        _ => "switch to Quiet on battery power"@,
    }
}

/// Adds an entry on an automatic change of mode, and records that the state has changed.
pub fn record_auto_performance_change(state: &mut RuntimeState, message: &str)
    ensures
        *final(state) == (RuntimeState {
            recent_events: final(state).recent_events,
            last_updated: final(state).last_updated,
            ..*old(state)
        }),
        final(state).last_updated.is_clock_time(),
        appended(
            old(state).recent_events@,
            final(state).recent_events@,
            seq![daemon_info(EventCategory::Service, message@)],
        ),
{
    push_daemon_info(&mut state.recent_events, EventCategory::Service, message);
    state.touch();
}

/// The report that something failed.
pub fn log_auto_performance_error(action: &str, err: &str) -> (r: String)
    ensures
        r@ == "failed to "@ + action@ + ": "@ + err@,
{
    let mut report: String = text::concat3("failed to ", action, ": ");
    report.append(err);
    report
}

/// Records that the hardware now runs in `mode`, and which mode is to be gone back to.
fn change_mode(
    state: &mut RuntimeState,
    mode: PerformanceMode,
    restore_mode: Option<PerformanceMode>,
    message: &str,
)
    ensures
        *final(state) == (RuntimeState {
            settings: (DuoSettings { active_performance_mode: mode, ..old(state).settings }),
            battery_saver_restore_mode: restore_mode,
            recent_events: final(state).recent_events,
            last_updated: final(state).last_updated,
            ..*old(state)
        }),
        final(state).last_updated.is_clock_time(),
        appended(
            old(state).recent_events@,
            final(state).recent_events@,
            seq![daemon_info(EventCategory::Service, message@)],
        ),
{
    state.battery_saver_restore_mode = restore_mode;
    state.settings.active_performance_mode = mode;
    record_auto_performance_change(state, message);
}

/// Takes over the outcome of an action: `outcome` is what applying the performance mode gave,
/// where the action asks for one. On success the result is `None`, and the state is to be saved
/// unless the action is `Nothing`; on failure the state is unchanged and the result is the
/// report.
pub fn finish_auto_quiet(
    state: &mut RuntimeState,
    action: AutoQuietAction,
    outcome: Result<(), String>,
) -> (r: Option<String>)
    ensures
        action == AutoQuietAction::Nothing ==> *final(state) == *old(state),
        match (mode_to_apply(action), outcome) {
            (Some(_), Err(err)) => {
                &&& *final(state) == *old(state)
                &&& r is Some
                &&& r->0@ == "failed to "@ + battery_saver_aim(action) + ": "@ + err@
            },
            _ => {
                &&& r is None
                &&& *final(state) == (RuntimeState {
                    settings: final(state).settings,
                    battery_saver_restore_mode: final(state).battery_saver_restore_mode,
                    recent_events: final(state).recent_events,
                    last_updated: final(state).last_updated,
                    ..*old(state)
                })
                &&& action == AutoQuietAction::Nothing
                    || final(state).last_updated.is_clock_time()
                &&& (final(state).settings, final(state).battery_saver_restore_mode)
                    == battery_saver_after(
                    old(state).settings,
                    old(state).battery_saver_restore_mode,
                    action,
                )
                &&& appended(
                    old(state).recent_events@,
                    final(state).recent_events@,
                    battery_saver_entries(action),
                )
            },
        },
{
    match action {
        AutoQuietAction::Nothing => {
            proof {
                lemma_appended_nothing(state.recent_events@);
            }
            None
        },
        AutoQuietAction::ClearRestoreMode => {
            state.battery_saver_restore_mode = None;
            state.touch();
            proof {
                lemma_appended_nothing(state.recent_events@);
            }
            None
        },
        AutoQuietAction::EnterQuiet { restore_mode, limits: _ } => match outcome {
            Ok(()) => {
                change_mode(
                    state,
                    PerformanceMode::Quiet,
                    Some(restore_mode),
                    "Switched performance mode to Quiet on battery power",
                );
                None
            },
            Err(err) => Some(
                log_auto_performance_error("switch to Quiet on battery power", err.as_str()),
            ),
        },
        AutoQuietAction::Restore { mode, limits: _ } => match outcome {
            Ok(()) => {
                let message: String = text::concat3(
                    "Restored ",
                    mode_label(&mode),
                    " performance mode on AC power",
                );
                change_mode(state, mode, None, message.as_str());
                None
            },
            Err(err) => Some(
                log_auto_performance_error("restore performance mode on AC power", err.as_str()),
            ),
        },
    }
}

/// A machine that goes on battery and back to mains power ends in the mode that it started
/// from: on battery it runs in Quiet and asks for nothing more, and on mains power it is brought
/// back, with that mode's own limits.
pub proof fn law_battery_saver_round_trip(settings: DuoSettings)
    requires
        settings.auto_quiet_on_battery,
        settings.active_performance_mode != PerformanceMode::Quiet,
    ensures
        ({
            let enter = battery_saver_action(settings, None, true);
            let (on_battery, left) = battery_saver_after(settings, None, enter);
            let restore = battery_saver_action(on_battery, left, false);
            &&& mode_to_apply(enter) == Some(
                (PerformanceMode::Quiet, settings.performance_profiles.quiet),
            )
            &&& on_battery.active_performance_mode == PerformanceMode::Quiet
            &&& battery_saver_action(on_battery, left, true) == AutoQuietAction::Nothing
            &&& mode_to_apply(restore) == Some(
                (
                    settings.active_performance_mode,
                    settings.performance_profiles.limits_of(settings.active_performance_mode),
                ),
            )
            &&& battery_saver_after(on_battery, left, restore) == (
                settings,
                None::<PerformanceMode>,
            )
        }),
{
}

/// While the battery saver is switched off, the performance mode is never changed.
pub proof fn law_battery_saver_off_changes_no_mode(
    settings: DuoSettings,
    restore_mode: Option<PerformanceMode>,
    on_battery_power: bool,
)
    requires
        !settings.auto_quiet_on_battery,
    ensures
        mode_to_apply(battery_saver_action(settings, restore_mode, on_battery_power)) is None,
        battery_saver_after(
            settings,
            restore_mode,
            battery_saver_action(settings, restore_mode, on_battery_power),
        ) == (settings, None::<PerformanceMode>),
{
}

/// Quiet is entered only on battery power, and a mode is restored only off it.
pub proof fn law_battery_saver_follows_the_power_source(
    settings: DuoSettings,
    restore_mode: Option<PerformanceMode>,
    on_battery_power: bool,
)
    ensures
        battery_saver_action(settings, restore_mode, on_battery_power) is EnterQuiet
            ==> on_battery_power,
        battery_saver_action(settings, restore_mode, on_battery_power) is Restore
            ==> !on_battery_power,
{
}

/// Without a mode to go back to, as after the user has chosen one, nothing is restored.
pub proof fn law_forgotten_mode_is_not_restored(settings: DuoSettings, on_battery_power: bool)
    ensures
        !(battery_saver_action(settings, None, on_battery_power) is Restore),
{
}

/// Once an action has been carried out, there is nothing left to do until the power source, the
/// settings or the mode changes.
pub proof fn law_battery_saver_settles(
    settings: DuoSettings,
    restore_mode: Option<PerformanceMode>,
    on_battery_power: bool,
)
    ensures
        ({
            let action = battery_saver_action(settings, restore_mode, on_battery_power);
            let (then, left) = battery_saver_after(settings, restore_mode, action);
            battery_saver_action(then, left, on_battery_power) == AutoQuietAction::Nothing
        }),
{
}

/// Quiet is entered exactly where the battery saver is on, the machine is on battery power, no
/// mode is to be gone back to and another mode is active: with that mode remembered, and with the
/// limits of Quiet.
pub proof fn law_quiet_is_entered_on_battery(
    state: RuntimeState,
    on_battery: bool,
    r: AutoQuietAction,
    left: PerformanceMode,
    limits: PowerLimits,
)
    requires
        call_ensures(auto_quiet_action, (&state, on_battery), r),
    ensures
        r == (AutoQuietAction::EnterQuiet { restore_mode: left, limits }) <==> {
            &&& state.settings.auto_quiet_on_battery
            &&& on_battery
            &&& state.battery_saver_restore_mode is None
            &&& state.settings.active_performance_mode != PerformanceMode::Quiet
            &&& left == state.settings.active_performance_mode
            &&& limits == state.settings.performance_profiles.quiet
        },
{
}

/// A mode is gone back to exactly where the battery saver is on, the machine is off battery power
/// and that mode is remembered: with the limits that the user gave that mode.
pub proof fn law_mode_is_restored_off_battery(
    state: RuntimeState,
    on_battery: bool,
    r: AutoQuietAction,
    mode: PerformanceMode,
    limits: PowerLimits,
)
    requires
        call_ensures(auto_quiet_action, (&state, on_battery), r),
    ensures
        r == (AutoQuietAction::Restore { mode, limits }) <==> {
            &&& state.settings.auto_quiet_on_battery
            &&& !on_battery
            &&& state.battery_saver_restore_mode == Some(mode)
            &&& mode == PerformanceMode::Quiet ==> limits
                == state.settings.performance_profiles.quiet
            &&& mode == PerformanceMode::Balanced ==> limits
                == state.settings.performance_profiles.balanced
            &&& mode == PerformanceMode::Performance ==> limits
                == state.settings.performance_profiles.performance
        },
        r is ClearRestoreMode <==> !state.settings.auto_quiet_on_battery
            && state.battery_saver_restore_mode is Some,
{
}

/// The hardware is brought into Quiet on entering it, into the mode that is gone back to on
/// restoring it, with the limits that were decided, and is left alone otherwise.
pub proof fn law_hardware_gets_the_decided_mode(
    action: AutoQuietAction,
    r: Option<(PerformanceMode, PowerLimits)>,
)
    requires
        call_ensures(auto_quiet_mode, (&action,), r),
    ensures
        action matches AutoQuietAction::EnterQuiet { restore_mode, limits } ==> r == Some(
            (PerformanceMode::Quiet, limits),
        ),
        action matches AutoQuietAction::Restore { mode, limits } ==> r == Some((mode, limits)),
        r is None <==> action is Nothing || action is ClearRestoreMode,
{
}

/// An action whose mode the hardware refused changes nothing, and is told with the reason.
pub proof fn law_refused_mode_changes_nothing(
    state: &mut RuntimeState,
    action: AutoQuietAction,
    err: String,
    r: Option<String>,
)
    requires
        action is EnterQuiet || action is Restore,
        call_ensures(finish_auto_quiet, (state, action, Err(err)), r),
    ensures
        *final(state) == *old(state),
        r is Some,
        action is EnterQuiet ==> r->0@ == "failed to "@ + "switch to Quiet on battery power"@
            + ": "@ + err@,
        action is Restore ==> r->0@ == "failed to "@ + "restore performance mode on AC power"@
            + ": "@ + err@,
{
}

/// Entering Quiet makes it the active mode and remembers the one that was left. Restoring makes
/// the restored mode active and forgets it. Each adds one entry to the log. Nothing else of the
/// settings changes.
pub proof fn law_mode_that_was_applied_is_recorded(
    state: &mut RuntimeState,
    action: AutoQuietAction,
    r: Option<String>,
)
    requires
        action is EnterQuiet || action is Restore,
        call_ensures(finish_auto_quiet, (state, action, Ok(())), r),
    ensures
        r is None,
        final(state).settings == (DuoSettings {
            active_performance_mode: final(state).settings.active_performance_mode,
            ..old(state).settings
        }),
        action matches AutoQuietAction::EnterQuiet { restore_mode, limits } ==> {
            &&& final(state).settings.active_performance_mode == PerformanceMode::Quiet
            &&& final(state).battery_saver_restore_mode == Some(restore_mode)
            &&& final(state).recent_events@.last().message@
                == "Switched performance mode to Quiet on battery power"@
        },
        action matches AutoQuietAction::Restore { mode, limits } ==> {
            &&& final(state).settings.active_performance_mode == mode
            &&& final(state).battery_saver_restore_mode is None
            &&& final(state).recent_events@.last().message@ == "Restored "@ + (match mode {
                PerformanceMode::Quiet => "Quiet"@,
                PerformanceMode::Balanced => "Balanced"@,
                PerformanceMode::Performance => "Performance"@,
            }) + " performance mode on AC power"@
        },
        final(state).recent_events@.len() == old(state).recent_events@.len() + 1,
        final(state).recent_events@.drop_last() == old(state).recent_events@,
        final(state).recent_events@.last().category == EventCategory::Service,
        final(state).recent_events@.last().source@ == "rust-daemon"@,
        *final(state) == (RuntimeState {
            settings: final(state).settings,
            battery_saver_restore_mode: final(state).battery_saver_restore_mode,
            recent_events: final(state).recent_events,
            last_updated: final(state).last_updated,
            ..*old(state)
        }),
{
}

/// Forgetting a mode to go back to changes nothing else but the time; nothing to do changes
/// nothing.
pub proof fn law_forgetting_changes_nothing_else(
    state: &mut RuntimeState,
    action: AutoQuietAction,
    outcome: Result<(), String>,
    r: Option<String>,
)
    requires
        action is Nothing || action is ClearRestoreMode,
        call_ensures(finish_auto_quiet, (state, action, outcome), r),
    ensures
        r is None,
        action is Nothing ==> *final(state) == *old(state),
        action is ClearRestoreMode ==> {
            &&& final(state).battery_saver_restore_mode is None
            &&& final(state).settings == old(state).settings
            &&& final(state).status == old(state).status
            &&& final(state).recent_events@ == old(state).recent_events@
        },
{
}

/// A mode is written by its own name, and a change that the daemon made by itself is logged in
/// the words that were given.
pub proof fn law_mode_has_its_name(
    mode: PerformanceMode,
    name: &'static str,
    state: &mut RuntimeState,
    message: &str,
    action: &str,
    err: &str,
    report: String,
)
    requires
        call_ensures(mode_label, (&mode,), name),
        call_ensures(record_auto_performance_change, (state, message), ()),
        call_ensures(log_auto_performance_error, (action, err), report),
    ensures
        mode == PerformanceMode::Quiet ==> name@ == "Quiet"@,
        mode == PerformanceMode::Balanced ==> name@ == "Balanced"@,
        mode == PerformanceMode::Performance ==> name@ == "Performance"@,
        final(state).recent_events@.len() == old(state).recent_events@.len() + 1,
        final(state).recent_events@.drop_last() == old(state).recent_events@,
        final(state).recent_events@.last().message@ == message@,
        final(state).recent_events@.last().category == EventCategory::Service,
        final(state).settings == old(state).settings,
        final(state).status == old(state).status,
        report@ == "failed to "@ + action@ + ": "@ + err@,
{
}

}
