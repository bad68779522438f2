use zenbook_duo_control::clock::Timestamp;
use zenbook_duo_control::models::settings::{DuoSettings, Real};
use zenbook_duo_control::models::status::{ConnectionType, DuoStatus, Orientation};
use zenbook_duo_control::runtime::enforcement::{
    apply_policy_actions, finish_policy_effect, policy_effect, summarize_actions, AttemptOutcome,
    AttemptStep, BacklightAttempts, PolicyEffect, PolicyFollowUp,
};
use zenbook_duo_control::runtime::policy::{apply_transition_policy, PolicyAction};
use zenbook_duo_control::runtime::state::RuntimeState;

fn make_status(attached: bool, wifi: bool, bluetooth: bool) -> DuoStatus {
    DuoStatus {
        keyboard_attached: attached,
        connection_type: ConnectionType::Usb,
        monitor_count: 2,
        wifi_enabled: wifi,
        bluetooth_enabled: bluetooth,
        backlight_level: 0,
        display_brightness: 0,
        max_brightness: 0,
        service_active: true,
        orientation: Orientation::Normal,
    }
}

fn make_state(current: DuoStatus) -> RuntimeState {
    RuntimeState {
        status: current,
        settings: DuoSettings::default(),
        session_agent: Default::default(),
        usb_media_remap_reconcile: Default::default(),
        battery_saver_restore_mode: None,
        secondary_panel_disabled_by_runtime: false,
        secondary_panel_disabled_by_runtime_boot_id: None,
        last_runtime_notification: None,
        last_updated: Timestamp::now(),
        recent_events: Vec::new(),
    }
}

#[test]
fn stable_cycle_does_not_change_radio_state() {
    let mut state = make_state(make_status(true, true, false));
    let previous = state.status.clone();

    let actions = apply_transition_policy(&mut state, &previous);

    assert!(actions.is_empty());
}

#[test]
fn attach_edge_does_not_change_radio_state() {
    let previous = make_status(false, true, true);
    let mut state = make_state(make_status(true, false, true));

    let actions = apply_transition_policy(&mut state, &previous);

    assert!(!actions
        .iter()
        .any(|action| matches!(action, PolicyAction::EnsureBluetoothEnabled)));
}

#[test]
fn detach_edge_ensures_bluetooth_is_enabled() {
    let mut previous = make_status(true, false, false);
    previous.backlight_level = 3;
    let mut state = make_state(make_status(false, false, false));

    let actions = apply_transition_policy(&mut state, &previous);

    assert!(actions
        .iter()
        .any(|action| matches!(action, PolicyAction::EnsureBluetoothEnabled)));
    assert!(!actions
        .iter()
        .any(|action| matches!(action, PolicyAction::SetBluetoothBacklight(_))));
}

#[test]
fn stable_transition_to_bluetooth_reapplies_backlight() {
    let mut previous = make_status(false, true, true);
    previous.connection_type = ConnectionType::Disconnected;

    let mut state = make_state(make_status(false, true, true));
    state.status.connection_type = ConnectionType::Bluetooth;
    state.status.backlight_level = 2;

    let actions = apply_transition_policy(&mut state, &previous);

    assert!(actions
        .iter()
        .any(|action| matches!(action, PolicyAction::SetBluetoothBacklight(2))));
}

fn scale() -> Real {
    Real { bits: 1.67f64.to_bits() }
}

#[test]
fn attach_sets_backlight_and_dock_mode() {
    let previous = make_status(false, true, true);
    let mut state = make_state(make_status(true, true, true));
    let actions = apply_transition_policy(&mut state, &previous);
    assert_eq!(
        actions,
        vec![
            PolicyAction::SetBacklight(3),
            PolicyAction::SetDockMode { attached: true, scale: scale() }
        ]
    );
    assert!(state.recent_events.is_empty());
}

#[test]
fn detach_remembers_the_level_and_logs() {
    let mut previous = make_status(true, true, true);
    previous.backlight_level = 2;
    let mut current = make_status(false, true, true);
    current.connection_type = ConnectionType::Bluetooth;
    let mut state = make_state(current);
    let actions = apply_transition_policy(&mut state, &previous);
    assert_eq!(
        actions,
        vec![
            PolicyAction::EnsureBluetoothEnabled,
            PolicyAction::SetDockMode { attached: false, scale: scale() },
            PolicyAction::SetBluetoothBacklight(2)
        ]
    );
    assert_eq!(state.status.backlight_level, 2);
    assert_eq!(state.recent_events.len(), 1);
    assert_eq!(state.recent_events[0].source, "rust-daemon");
}

#[test]
fn actions_are_summarized() {
    assert_eq!(summarize_actions(&vec![], &vec![]), "none");
    let actions = vec![
        PolicyAction::EnsureBluetoothEnabled,
        PolicyAction::SetBacklight(3),
        PolicyAction::SetBluetoothBacklight(1),
        PolicyAction::SetDockMode { attached: false, scale: scale() },
    ];
    let scales: Vec<String> = actions.iter().map(|_| 1.67f64.to_string()).collect();
    assert_eq!(
        summarize_actions(&actions, &scales),
        "bluetooth:ensure-enabled,backlight:3,bluetooth-backlight:1,dock:attached=false:scale=1.67"
    );
}

fn notice(step: PolicyFollowUp) -> (String, String) {
    match step {
        PolicyFollowUp::Notify { title, message } => (title, message),
        other => panic!("{other:?}"),
    }
}

#[test]
fn lost_lower_display_is_protected() {
    let mut state = make_state(make_status(false, true, true));
    let action = PolicyAction::SetDockMode { attached: false, scale: scale() };
    let effect = policy_effect(&state, &action, false);
    assert_eq!(effect, PolicyEffect::ProtectDisplay);
    let (title, message) = notice(finish_policy_effect(&mut state, effect, Ok(()), false, None));
    assert_eq!(title, "Zenbook Duo Display Protection");
    assert_eq!(message, "The xe driver has disabled eDP-2. Automatic dual-screen recovery was skipped to avoid a compositor freeze; reconnect the keyboard or reboot before retrying.");
}

#[test]
fn dock_round_trip_reopens_the_lower_display() {
    let mut state = make_state(make_status(true, true, true));
    let attach = PolicyAction::SetDockMode { attached: true, scale: scale() };
    let effect = policy_effect(&state, &attach, true);
    assert_eq!(effect, PolicyEffect::ApplyDockMode { attached: true, scale: scale() });
    let boot = Some("boot".to_string());
    assert!(matches!(
        finish_policy_effect(&mut state, effect, Ok(()), true, boot.clone()),
        PolicyFollowUp::Save
    ));
    assert!(state.secondary_panel_disabled_by_runtime);
    assert_eq!(state.secondary_panel_disabled_by_runtime_boot_id, boot);
    let detach = PolicyAction::SetDockMode { attached: false, scale: scale() };
    assert_eq!(
        policy_effect(&state, &detach, false),
        PolicyEffect::ApplyDockMode { attached: false, scale: scale() }
    );
}

#[test]
fn failed_effects_are_told_and_change_nothing() {
    let cases = [
        (
            PolicyEffect::EnableBluetooth,
            "Could not enable Bluetooth for detached keyboard: x",
        ),
        (PolicyEffect::SetBacklight(2), "Backlight policy action failed: x"),
        (
            PolicyEffect::SetBluetoothBacklight(2),
            "Bluetooth keyboard backlight restore failed: x",
        ),
        (
            PolicyEffect::ApplyDockMode { attached: true, scale: scale() },
            "Dock-mode policy action failed: x",
        ),
    ];
    for (effect, expected) in cases {
        let mut state = make_state(make_status(true, true, true));
        let (title, message) =
            notice(finish_policy_effect(&mut state, effect, Err("x".to_string()), true, None));
        assert_eq!(title, "Zenbook Duo Runtime Error");
        assert_eq!(message, expected);
        assert_eq!(state.status.backlight_level, 0);
        assert!(!state.secondary_panel_disabled_by_runtime);
        assert!(state.recent_events.is_empty());
    }
}

#[test]
fn missing_session_agent_is_no_failure() {
    let mut state = make_state(make_status(true, true, true));
    let effect = PolicyEffect::ApplyDockMode { attached: true, scale: scale() };
    assert!(matches!(
        finish_policy_effect(
            &mut state,
            effect,
            Err("No session agent registered".to_string()),
            true,
            None
        ),
        PolicyFollowUp::AwaitReplay
    ));
}

#[test]
fn actions_are_carried_out_in_order_whatever_they_come_to() {
    let mut state = make_state(make_status(true, true, true));
    let dock = PolicyAction::SetDockMode { attached: true, scale: scale() };
    let detach = PolicyAction::SetDockMode { attached: false, scale: scale() };
    let mut run = apply_policy_actions(vec![
        PolicyAction::EnsureBluetoothEnabled,
        PolicyAction::SetBacklight(2),
        dock,
        detach,
    ]);
    assert!(!run.has_begun());
    assert_eq!(run.begin(&state, true), Some(PolicyEffect::EnableBluetooth));
    assert!(run.has_begun());
    let (_, message) = notice(run.finished(&mut state, Err("x".to_string()), None));
    assert_eq!(message, "Could not enable Bluetooth for detached keyboard: x");
    assert!(!run.has_begun());
    assert_eq!(run.begin(&state, true), Some(PolicyEffect::SetBacklight(2)));
    notice(run.finished(&mut state, Err("y".to_string()), None));
    assert_eq!(run.action(), Some(dock));
    assert_eq!(
        run.begin(&state, true),
        Some(PolicyEffect::ApplyDockMode { attached: true, scale: scale() })
    );
    let boot = Some("boot".to_string());
    assert!(matches!(run.finished(&mut state, Ok(()), boot.clone()), PolicyFollowUp::Save));
    assert_eq!(state.secondary_panel_disabled_by_runtime_boot_id, boot);
    assert_eq!(run.action(), Some(detach));
    assert_eq!(
        run.begin(&state, false),
        Some(PolicyEffect::ApplyDockMode { attached: false, scale: scale() })
    );
    let awaited = run.finished(&mut state, Err("No session agent registered".to_string()), None);
    assert!(matches!(awaited, PolicyFollowUp::AwaitReplay));
    assert_eq!(run.action(), None);
    assert_eq!(run.begin(&state, true), None);
    assert!(!run.has_begun());
}

#[test]
fn backlight_effects_are_logged() {
    let mut state = make_state(make_status(true, true, true));
    state.last_updated = Timestamp::from_parts(-5, 0).unwrap();
    finish_policy_effect(&mut state, PolicyEffect::SetBacklight(3), Ok(()), true, None);
    assert!(state.last_updated.secs() >= 0 && state.last_updated.nanos() < 1_000_000_000);
    assert!(state.recent_events.iter().all(|e| e.timestamp.secs() >= 0));
    finish_policy_effect(&mut state, PolicyEffect::SetBluetoothBacklight(1), Ok(()), true, None);
    assert!(matches!(
        finish_policy_effect(&mut state, PolicyEffect::EnableBluetooth, Ok(()), true, None),
        PolicyFollowUp::Nothing
    ));
    assert_eq!(state.status.backlight_level, 1);
    let said: Vec<&str> = state.recent_events.iter().map(|e| e.message.as_str()).collect();
    assert_eq!(said, vec!["Backlight set to 3", "Backlight restored to 1 over Bluetooth"]);
}

#[test]
fn bluetooth_keyboard_is_tried_twelve_times() {
    let mut attempts = BacklightAttempts::first();
    for _ in 0..11 {
        assert!(matches!(
            attempts.finished(AttemptOutcome::Failed("x".to_string())),
            AttemptStep::TryAgain
        ));
    }
    match attempts.finished(AttemptOutcome::Crashed("y".to_string())) {
        AttemptStep::GiveUp(e) => {
            assert_eq!(e, "after 12 attempts: Bluetooth backlight worker failed: y")
        }
        other => panic!("{other:?}"),
    }
    let mut attempts = BacklightAttempts::first();
    attempts.finished(AttemptOutcome::Failed("x".to_string()));
    assert!(matches!(attempts.finished(AttemptOutcome::Done), AttemptStep::Finished));
}
