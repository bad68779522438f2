//! Keeping the remap of the media keys running exactly while it is wanted.

use vstd::prelude::*;

use crate::clock::Timestamp;
use crate::models::status::ConnectionType;
use crate::runtime::state::{RuntimeState, UsbMediaRemapReconcileState};
use crate::text;

verus! {

/// The seconds that pass between two attempts to start the remap, and between two reports of
/// the same kind.
pub const AUTO_START_RETRY_COOLDOWN_SECS: i64 = 15;

/// What is to be done about the remap.
#[derive(Debug, Clone, Copy, PartialEq, Eq, Structural)]
pub enum RemapDecision {
    /// It runs exactly if it is wanted.
    Settled,
    /// It was started too recently to be started again; `report` where that is to be reported.
    BackOff { report: bool },
    /// It is to be started; the decision fell at `at`.
    Start { at: Timestamp },
    /// It is to be stopped.
    Stop,
}

/// The remap is wanted: the keyboard is in the dock on USB, a session agent is registered, and
/// the user has not switched the remap off.
pub open spec fn remap_wanted(state: RuntimeState) -> bool {
    &&& state.status.keyboard_attached
    &&& state.status.connection_type == ConnectionType::Usb
    &&& state.session_agent.connected
    &&& state.settings.usb_media_remap_enabled
}

/// Enough time has passed since `last`.
pub open spec fn cooled_down(last: Option<Timestamp>, now: Timestamp) -> bool {
    match last {
        Some(t) => now.seconds_after(t) >= AUTO_START_RETRY_COOLDOWN_SECS,
        None => true,
    }
}

/// What is to be done about the remap.
pub open spec fn remap_decision(
    wanted: bool,
    running: bool,
    reconcile: UsbMediaRemapReconcileState,
    now: Timestamp,
) -> RemapDecision {
    if wanted == running {
        RemapDecision::Settled
    } else if !wanted {
        RemapDecision::Stop
    } else if cooled_down(reconcile.last_started_at, now) {
        RemapDecision::Start { at: now }
    } else {
        RemapDecision::BackOff { report: cooled_down(reconcile.last_backoff_log_at, now) }
    }
}

/// What is remembered once a decision has fallen.
pub open spec fn remap_remembered(
    wanted: bool,
    reconcile: UsbMediaRemapReconcileState,
    decision: RemapDecision,
    now: Timestamp,
) -> UsbMediaRemapReconcileState {
    match decision {
        RemapDecision::Settled => if wanted {
            UsbMediaRemapReconcileState {
                last_started_at: None,
                last_backoff_log_at: None,
                ..reconcile
            }
        } else {
            reconcile
        },
        RemapDecision::BackOff { report } => if report {
            UsbMediaRemapReconcileState { last_backoff_log_at: Some(now), ..reconcile }
        } else {
            reconcile
        },
        RemapDecision::Start { at } => UsbMediaRemapReconcileState {
            last_started_at: Some(at),
            last_backoff_log_at: None,
            ..reconcile
        },
        RemapDecision::Stop => reconcile,
    }
}

fn has_cooled_down(last: &Option<Timestamp>, now: &Timestamp) -> (r: bool)
    ensures
        r == cooled_down(*last, *now),
{
    match last {
        Some(t) => now.seconds_since(t) >= AUTO_START_RETRY_COOLDOWN_SECS,
        None => true,
    }
}

/// Decides, at the moment `now`, what is to be done about the remap.
pub fn reconcile_usb_media_remap_at(state: &mut RuntimeState, running: bool, now: Timestamp) -> (r:
    RemapDecision)
    ensures
        r == remap_decision(
            remap_wanted(*old(state)),
            running,
            old(state).usb_media_remap_reconcile,
            now,
        ),
        *final(state) == (RuntimeState {
            usb_media_remap_reconcile: remap_remembered(
                remap_wanted(*old(state)),
                old(state).usb_media_remap_reconcile,
                r,
                now,
            ),
            ..*old(state)
        }),
{
    let wanted: bool = state.status.keyboard_attached && state.status.connection_type
        == ConnectionType::Usb && state.session_agent.connected
        && state.settings.usb_media_remap_enabled;
    if wanted == running {
        if wanted {
            state.usb_media_remap_reconcile.last_started_at = None;
            state.usb_media_remap_reconcile.last_backoff_log_at = None;
        }
        RemapDecision::Settled
    } else if !wanted {
        RemapDecision::Stop
    } else if has_cooled_down(&state.usb_media_remap_reconcile.last_started_at, &now) {
        state.usb_media_remap_reconcile.last_started_at = Some(now);
        state.usb_media_remap_reconcile.last_backoff_log_at = None;
        RemapDecision::Start { at: now }
    } else {
        let report: bool = has_cooled_down(
            &state.usb_media_remap_reconcile.last_backoff_log_at,
            &now,
        );
        if report {
            state.usb_media_remap_reconcile.last_backoff_log_at = Some(now);
        }
        RemapDecision::BackOff { report }
    }
}

/// Decides, at the present moment, what is to be done about the remap.
pub fn reconcile_usb_media_remap(state: &mut RuntimeState, running: bool) -> (r: RemapDecision)
    ensures
        exists|now: Timestamp|
            {
                &&& now.is_clock_time()
                &&& r == #[trigger] remap_decision(
                    remap_wanted(*old(state)),
                    running,
                    old(state).usb_media_remap_reconcile,
                    now,
                )
                &&& *final(state) == (RuntimeState {
                    usb_media_remap_reconcile: remap_remembered(
                        remap_wanted(*old(state)),
                        old(state).usb_media_remap_reconcile,
                        r,
                        now,
                    ),
                    ..*old(state)
                })
            },
{
    let now: Timestamp = Timestamp::now();
    reconcile_usb_media_remap_at(state, running, now)
}

/// Takes over the outcome of a start that was decided at the moment `at`: on success, whether it
/// is to be reported; on failure, what the user is told.
pub fn remap_start_finished(
    state: &mut RuntimeState,
    at: Timestamp,
    outcome: Result<(), String>,
) -> (r: Result<bool, String>)
    ensures
        match outcome {
            Ok(_) => {
                let report = cooled_down(
                    old(state).usb_media_remap_reconcile.last_start_log_at,
                    at,
                );
                &&& r == Ok::<bool, String>(report)
                &&& *final(state) == (RuntimeState {
                    usb_media_remap_reconcile: (UsbMediaRemapReconcileState {
                        last_start_log_at: if report {
                            Some(at)
                        } else {
                            old(state).usb_media_remap_reconcile.last_start_log_at
                        },
                        ..old(state).usb_media_remap_reconcile
                    }),
                    ..*old(state)
                })
            },
            Err(err) => {
                &&& r is Err
                &&& r->Err_0@ == "USB media remap auto-start failed: "@ + err@
                &&& *final(state) == *old(state)
            },
        },
{
    match outcome {
        Ok(()) => {
            let report: bool = has_cooled_down(
                &state.usb_media_remap_reconcile.last_start_log_at,
                &at,
            );
            if report {
                state.usb_media_remap_reconcile.last_start_log_at = Some(at);
            }
            Ok(report)
        },
        Err(err) => Err(text::concat2("USB media remap auto-start failed: ", err.as_str())),
    }
}

/// Takes over the outcome of a stop: on failure, the result is what the user is told.
pub fn remap_stop_finished(state: &mut RuntimeState, outcome: Result<(), String>) -> (r: Result<
    (),
    String,
>)
    ensures
        match outcome {
            Ok(_) => {
                &&& r is Ok
                &&& *final(state) == (RuntimeState {
                    usb_media_remap_reconcile: (UsbMediaRemapReconcileState {
                        last_started_at: None,
                        last_backoff_log_at: None,
                        ..old(state).usb_media_remap_reconcile
                    }),
                    ..*old(state)
                })
            },
            Err(err) => {
                &&& r is Err
                &&& r->Err_0@ == "USB media remap auto-stop failed: "@ + err@
                &&& *final(state) == *old(state)
            },
        },
{
    match outcome {
        Ok(()) => {
            state.usb_media_remap_reconcile.last_started_at = None;
            state.usb_media_remap_reconcile.last_backoff_log_at = None;
            Ok(())
        },
        Err(err) => Err(text::concat2("USB media remap auto-stop failed: ", err.as_str())),
    }
}

/// The remap is started only where it is wanted and does not run, and stopped only where it runs
/// and is not wanted.
pub proof fn law_remap_moves_only_towards_what_is_wanted(
    wanted: bool,
    running: bool,
    reconcile: UsbMediaRemapReconcileState,
    now: Timestamp,
)
    ensures
        remap_decision(wanted, running, reconcile, now) is Start ==> wanted && !running,
        remap_decision(wanted, running, reconcile, now) is Stop <==> !wanted && running,
        remap_decision(wanted, running, reconcile, now) is Settled <==> wanted == running,
{
}

/// A start that has not brought the remap up is not repeated before the cooldown has passed.
pub proof fn law_starts_are_spaced(
    reconcile: UsbMediaRemapReconcileState,
    now: Timestamp,
    later: Timestamp,
)
    requires
        remap_decision(true, false, reconcile, now) is Start,
        later.seconds_after(now) < AUTO_START_RETRY_COOLDOWN_SECS,
    ensures
        remap_decision(
            true,
            false,
            remap_remembered(
                true,
                reconcile,
                remap_decision(true, false, reconcile, now),
                now,
            ),
            later,
        ) is BackOff,
{
}

/// Backing off is reported once, and not again before the cooldown has passed.
pub proof fn law_backing_off_is_reported_once(
    reconcile: UsbMediaRemapReconcileState,
    now: Timestamp,
    later: Timestamp,
)
    requires
        remap_decision(true, false, reconcile, now) == (RemapDecision::BackOff { report: true }),
        later.seconds_after(now) < AUTO_START_RETRY_COOLDOWN_SECS,
    ensures
        ({
            let decision = remap_decision(true, false, reconcile, now);
            let then = remap_remembered(true, reconcile, decision, now);
            remap_decision(true, false, then, later) != (RemapDecision::BackOff { report: true })
        }),
{
}

/// A remap that came up and was lost again is started at once.
pub proof fn law_remap_that_ran_is_started_at_once(
    reconcile: UsbMediaRemapReconcileState,
    now: Timestamp,
    later: Timestamp,
)
    ensures
        remap_decision(
            true,
            false,
            remap_remembered(true, reconcile, remap_decision(true, true, reconcile, now), now),
            later,
        ) == (RemapDecision::Start { at: later }),
{
}

/// The remap is stopped exactly where it runs without being wanted, and left where it runs exactly
/// if it is wanted. One that is wanted and does not run is started where it never was, or was so
/// at least 15 seconds ago. Otherwise it waits, which is reported at most every 15 seconds.
pub proof fn law_remap_is_started_every_fifteen_seconds(
    state: &mut RuntimeState,
    running: bool,
    now: Timestamp,
    r: RemapDecision,
)
    requires
        call_ensures(reconcile_usb_media_remap_at, (state, running, now), r),
    ensures
        ({
            let wanted = old(state).status.keyboard_attached && old(state).status.connection_type
                == ConnectionType::Usb && old(state).session_agent.connected
                && old(state).settings.usb_media_remap_enabled;
            let before = old(state).usb_media_remap_reconcile;
            let after = final(state).usb_media_remap_reconcile;
            let may_start = before.last_started_at is None || now.seconds_after(
                before.last_started_at->0,
            ) >= 15;
            let may_report = before.last_backoff_log_at is None || now.seconds_after(
                before.last_backoff_log_at->0,
            ) >= 15;
            &&& r is Settled <==> wanted == running
            &&& r is Stop <==> !wanted && running
            &&& r is Start <==> wanted && !running && may_start
            &&& r == (RemapDecision::Start { at: now }) <==> r is Start
            &&& r == (RemapDecision::BackOff { report: true }) <==> wanted && !running && !may_start
                && may_report
            &&& r == (RemapDecision::BackOff { report: false }) <==> wanted && !running
                && !may_start && !may_report
            &&& after.last_start_log_at == before.last_start_log_at
            &&& after.last_started_at == (if r is Start {
                Some(now)
            } else if r is Settled && wanted {
                None
            } else {
                before.last_started_at
            })
            &&& after.last_backoff_log_at == (if r is Start || (r is Settled && wanted) {
                None
            } else if r == (RemapDecision::BackOff { report: true }) {
                Some(now)
            } else {
                before.last_backoff_log_at
            })
            &&& *final(state) == (RuntimeState { usb_media_remap_reconcile: after, ..*old(state) })
        }),
{
}

/// At the present moment it is decided as at any other.
pub proof fn law_remap_is_decided_at_a_moment(
    state: &mut RuntimeState,
    running: bool,
    r: RemapDecision,
)
    requires
        call_ensures(reconcile_usb_media_remap, (state, running), r),
    ensures
        exists|now: Timestamp|
            {
                &&& now.second() >= 0
                &&& now.nanosecond() < 1_000_000_000
                &&& r == #[trigger] remap_decision(
                    remap_wanted(*old(state)),
                    running,
                    old(state).usb_media_remap_reconcile,
                    now,
                )
                &&& final(state).usb_media_remap_reconcile == remap_remembered(
                    remap_wanted(*old(state)),
                    old(state).usb_media_remap_reconcile,
                    r,
                    now,
                )
            },
        final(state).status == old(state).status,
        final(state).settings == old(state).settings,
        final(state).recent_events == old(state).recent_events,
{
}

/// A start that succeeded is reported at most every 15 seconds, and the report is remembered; one
/// that failed changes nothing, and is told.
pub proof fn law_starts_are_reported_every_fifteen_seconds(
    state: &mut RuntimeState,
    at: Timestamp,
    outcome: Result<(), String>,
    r: Result<bool, String>,
)
    requires
        call_ensures(remap_start_finished, (state, at, outcome), r),
    ensures
        ({
            let before = old(state).usb_media_remap_reconcile;
            let after = final(state).usb_media_remap_reconcile;
            &&& r is Ok <==> outcome is Ok
            &&& r matches Ok(report) ==> {
                &&& report <==> before.last_start_log_at is None || at.seconds_after(
                    before.last_start_log_at->0,
                ) >= 15
                &&& after.last_start_log_at == (if report {
                    Some(at)
                } else {
                    before.last_start_log_at
                })
            }
            &&& after.last_started_at == before.last_started_at
            &&& after.last_backoff_log_at == before.last_backoff_log_at
            &&& outcome matches Err(err) ==> *final(state) == *old(state) && r->Err_0@
                == "USB media remap auto-start failed: "@ + err@
            &&& *final(state) == (RuntimeState { usb_media_remap_reconcile: after, ..*old(state) })
        }),
{
}

/// Once stopped, the remap may be started again at once; a stop that failed changes nothing, and
/// is told.
pub proof fn law_stopped_remap_may_start_at_once(
    state: &mut RuntimeState,
    outcome: Result<(), String>,
    r: Result<(), String>,
)
    requires
        call_ensures(remap_stop_finished, (state, outcome), r),
    ensures
        r is Ok <==> outcome is Ok,
        r is Ok ==> {
            &&& final(state).usb_media_remap_reconcile.last_started_at is None
            &&& final(state).usb_media_remap_reconcile.last_backoff_log_at is None
            &&& final(state).usb_media_remap_reconcile.last_start_log_at == old(
                state,
            ).usb_media_remap_reconcile.last_start_log_at
        },
        outcome matches Err(err) ==> *final(state) == *old(state) && r->Err_0@
            == "USB media remap auto-stop failed: "@ + err@,
        *final(state) == (RuntimeState {
            usb_media_remap_reconcile: final(state).usb_media_remap_reconcile,
            ..*old(state)
        }),
{
}

}
