use zenbook_duo_control::clock::Timestamp;
use zenbook_duo_control::command::CommandOutput;
use zenbook_duo_control::models::event::{EventCategory, HardwareEvent, EVENT_LIMIT};
use zenbook_duo_control::models::settings::{PerformanceMode, PowerLimits};
use zenbook_duo_control::models::status::{ConnectionType, DuoStatus, Orientation};
use zenbook_duo_control::runtime::battery_saver::{
    auto_quiet_action, auto_quiet_mode, finish_auto_quiet, mode_label, AutoQuietAction,
};
use zenbook_duo_control::runtime::bluetooth_power::{ensure_bluetooth_enabled, PowerOnStep};
use zenbook_duo_control::runtime::enforcement::should_skip_detached_secondary_recovery;
use zenbook_duo_control::runtime::media_remap::{
    reconcile_usb_media_remap, reconcile_usb_media_remap_at, remap_start_finished,
    remap_stop_finished, RemapDecision,
};
use zenbook_duo_control::runtime::monitor::{
    connection_label, next_status, orientation_label, push_status_events, take_status,
};
use zenbook_duo_control::runtime::state::RuntimeState;

#[test]
fn battery_saver_restores_the_pre_battery_mode_on_ac() {
    let mut state = RuntimeState::default();
    state.settings.auto_quiet_on_battery = true;
    state.settings.active_performance_mode = PerformanceMode::Performance;

    let enter = auto_quiet_action(&state, true);
    assert!(matches!(
        enter,
        AutoQuietAction::EnterQuiet {
            restore_mode: PerformanceMode::Performance,
            ..
        }
    ));

    state.settings.active_performance_mode = PerformanceMode::Quiet;
    state.battery_saver_restore_mode = Some(PerformanceMode::Performance);
    let restore = auto_quiet_action(&state, false);
    assert!(matches!(
        restore,
        AutoQuietAction::Restore {
            mode: PerformanceMode::Performance,
            limits: PowerLimits { pl1_watts: 45, .. },
        }
    ));
}

#[test]
fn detached_recovery_is_allowed_after_runtime_disabled_the_panel() {
    assert!(!should_skip_detached_secondary_recovery(false, false, true));
}

#[test]
fn detached_recovery_is_blocked_when_xe_disabled_the_panel() {
    assert!(should_skip_detached_secondary_recovery(false, false, false));
}

#[test]
fn enabled_panel_never_needs_detached_recovery_protection() {
    assert!(!should_skip_detached_secondary_recovery(false, true, false));
}

#[test]
fn battery_saver_round_trip_comes_back() {
    let mut state = RuntimeState::default();
    state.settings.auto_quiet_on_battery = true;
    let enter = auto_quiet_action(&state, true);
    assert_eq!(
        auto_quiet_mode(&enter),
        Some((
            PerformanceMode::Quiet,
            PowerLimits { pl1_watts: 12, pl2_watts: 15, pl3_watts: 20 }
        ))
    );
    state.last_updated = at(-5);
    assert_eq!(finish_auto_quiet(&mut state, enter, Ok(())), None);
    assert!(state.last_updated.secs() >= 0);
    assert_eq!(state.settings.active_performance_mode, PerformanceMode::Quiet);
    assert_eq!(auto_quiet_action(&state, true), AutoQuietAction::Nothing);
    let restore = auto_quiet_action(&state, false);
    assert_eq!(finish_auto_quiet(&mut state, restore, Ok(())), None);
    assert_eq!(state.settings.active_performance_mode, PerformanceMode::Balanced);
    assert_eq!(state.battery_saver_restore_mode, None);
    let said: Vec<&str> = state.recent_events.iter().map(|e| e.message.as_str()).collect();
    assert_eq!(
        said,
        vec![
            "Switched performance mode to Quiet on battery power",
            "Restored Balanced performance mode on AC power"
        ]
    );
}

#[test]
fn battery_saver_failure_is_reported() {
    let mut state = RuntimeState::default();
    state.settings.auto_quiet_on_battery = true;
    let enter = auto_quiet_action(&state, true);
    assert_eq!(
        finish_auto_quiet(&mut state, enter, Err("x".to_string())),
        Some("failed to switch to Quiet on battery power: x".to_string())
    );
    assert_eq!(state.settings.active_performance_mode, PerformanceMode::Balanced);
    state.battery_saver_restore_mode = Some(PerformanceMode::Balanced);
    let restore = auto_quiet_action(&state, false);
    assert_eq!(
        finish_auto_quiet(&mut state, restore, Err("x".to_string())),
        Some("failed to restore performance mode on AC power: x".to_string())
    );
}

#[test]
fn battery_saver_switched_off_forgets() {
    let mut state = RuntimeState::default();
    state.battery_saver_restore_mode = Some(PerformanceMode::Performance);
    let action = auto_quiet_action(&state, true);
    assert_eq!(action, AutoQuietAction::ClearRestoreMode);
    assert_eq!(finish_auto_quiet(&mut state, action, Ok(())), None);
    assert_eq!(state.battery_saver_restore_mode, None);
    assert_eq!(auto_quiet_action(&state, false), AutoQuietAction::Nothing);
    assert_eq!(mode_label(&PerformanceMode::Quiet), "Quiet");
}

fn status() -> DuoStatus {
    DuoStatus::default()
}

#[test]
fn every_difference_is_logged_in_order() {
    let mut state = RuntimeState::default();
    let new = DuoStatus {
        keyboard_attached: true,
        connection_type: ConnectionType::Usb,
        monitor_count: 2,
        wifi_enabled: true,
        bluetooth_enabled: true,
        backlight_level: 3,
        orientation: Orientation::Left,
        ..status()
    };
    push_status_events(&mut state, &status(), &new);
    push_status_events(&mut state, &new, &status());
    let said: Vec<&str> = state.recent_events.iter().map(|e| e.message.as_str()).collect();
    assert_eq!(
        said,
        vec![
            "Keyboard attached",
            "Connection type changed to usb",
            "Wi-Fi enabled",
            "Bluetooth enabled",
            "Monitor count changed to 2",
            "Orientation changed to left",
            "Backlight level changed to 3",
            "Keyboard detached",
            "Connection type changed to none",
            "Wi-Fi disabled",
            "Bluetooth disabled",
            "Monitor count changed to 0",
            "Orientation changed to normal",
            "Backlight level changed to 0",
        ]
    );
    assert_eq!(state.recent_events[0].category, EventCategory::Usb);
    assert_eq!(state.recent_events[5].category, EventCategory::Rotation);
}

#[test]
fn log_keeps_the_newest_entries() {
    let mut state = RuntimeState::default();
    for i in 0..EVENT_LIMIT {
        state.recent_events.push(HardwareEvent::info(
            EventCategory::Service,
            &i.to_string(),
            "test",
        ));
    }
    let attached = DuoStatus { keyboard_attached: true, ..status() };
    push_status_events(&mut state, &status(), &attached);
    assert_eq!(state.recent_events.len(), EVENT_LIMIT);
    assert_eq!(state.recent_events[0].message, "1");
    assert_eq!(state.recent_events[EVENT_LIMIT - 1].message, "Keyboard attached");
}

#[test]
fn status_is_taken_over_once() {
    let mut state = RuntimeState::default();
    let next = DuoStatus { keyboard_attached: true, ..status() };
    state.last_updated = at(-5);
    let actions = take_status(&mut state, next).unwrap();
    assert!(state.last_updated.secs() >= 0 && state.last_updated.nanos() < 1_000_000_000);
    assert!(state.recent_events.iter().all(|e| e.timestamp.secs() >= 0));
    assert_eq!(actions.len(), 2);
    assert_eq!(state.status, next);
    assert!(take_status(&mut state, next).is_none());
}

#[test]
fn service_is_active_while_an_agent_is_there() {
    assert!(!next_status(status(), false, None).service_active);
    assert!(next_status(status(), true, None).service_active);
}

#[test]
fn labels_are_lower_case() {
    assert_eq!(connection_label(&ConnectionType::Usb), "usb");
    assert_eq!(connection_label(&ConnectionType::Bluetooth), "bluetooth");
    assert_eq!(connection_label(&ConnectionType::Disconnected), "none");
    assert_eq!(orientation_label(&Orientation::Inverted), "inverted");
    assert_eq!(orientation_label(&Orientation::Right), "right");
}

fn wanting() -> RuntimeState {
    let mut state = RuntimeState::default();
    state.status.keyboard_attached = true;
    state.status.connection_type = ConnectionType::Usb;
    state.session_agent.connected = true;
    state
}

fn at(secs: i64) -> Timestamp {
    Timestamp::from_parts(secs, 0).unwrap()
}

#[test]
fn failing_remap_is_started_every_fifteen_seconds() {
    let mut state = wanting();
    assert_eq!(
        reconcile_usb_media_remap_at(&mut state, false, at(100)),
        RemapDecision::Start { at: at(100) }
    );
    assert_eq!(
        remap_start_finished(&mut state, at(100), Err("x".to_string())),
        Err("USB media remap auto-start failed: x".to_string())
    );
    assert_eq!(
        reconcile_usb_media_remap_at(&mut state, false, at(101)),
        RemapDecision::BackOff { report: true }
    );
    assert_eq!(
        reconcile_usb_media_remap_at(&mut state, false, at(114)),
        RemapDecision::BackOff { report: false }
    );
    assert_eq!(
        reconcile_usb_media_remap_at(&mut state, false, at(115)),
        RemapDecision::Start { at: at(115) }
    );
}

#[test]
fn running_remap_settles_and_is_stopped() {
    let mut state = wanting();
    reconcile_usb_media_remap_at(&mut state, false, at(100));
    assert_eq!(remap_start_finished(&mut state, at(100), Ok(())), Ok(true));
    assert_eq!(remap_start_finished(&mut state, at(114), Ok(())), Ok(false));
    assert_eq!(
        reconcile_usb_media_remap_at(&mut state, true, at(101)),
        RemapDecision::Settled
    );
    assert_eq!(state.usb_media_remap_reconcile.last_started_at, None);
    state.session_agent.connected = false;
    assert_eq!(reconcile_usb_media_remap_at(&mut state, true, at(102)), RemapDecision::Stop);
    assert_eq!(
        remap_stop_finished(&mut state, Err("x".to_string())),
        Err("USB media remap auto-stop failed: x".to_string())
    );
    assert_eq!(remap_stop_finished(&mut state, Ok(())), Ok(()));
    assert_eq!(reconcile_usb_media_remap_at(&mut state, false, at(103)), RemapDecision::Settled);
}

#[test]
fn remap_is_decided_at_the_present_moment() {
    let mut state = wanting();
    assert!(matches!(
        reconcile_usb_media_remap(&mut state, false),
        RemapDecision::Start { .. }
    ));
    assert!(matches!(
        reconcile_usb_media_remap(&mut state, false),
        RemapDecision::BackOff { report: true }
    ));
}

fn output(success: bool, stdout: &str, stderr: &str) -> CommandOutput {
    CommandOutput {
        success,
        stdout: stdout.as_bytes().to_vec(),
        stderr: stderr.as_bytes().to_vec(),
    }
}

#[test]
fn controller_must_say_that_it_is_powered() {
    let mut attempts = ensure_bluetooth_enabled(&Ok(output(true, "", ""))).unwrap();
    assert!(matches!(
        attempts.attempted(&Ok(output(true, " said \n", " \n")), false),
        PowerOnStep::TryAgain
    ));
    assert!(matches!(
        attempts.attempted(&Ok(output(false, "ignored", " why \n")), true),
        PowerOnStep::TryAgain
    ));
    assert!(attempts.may_try());
    match attempts.attempted(&Ok(output(true, "", "")), false) {
        PowerOnStep::Failed(e) => assert_eq!(
            e,
            "BlueZ controller did not reach Powered: yes after rfkill unblock (attempt 1: said; attempt 2: why; attempt 3: )"
        ),
        other => panic!("{other:?}"),
    }
    assert!(!attempts.may_try());
    let mut attempts = ensure_bluetooth_enabled(&Ok(output(true, "", ""))).unwrap();
    assert!(matches!(attempts.attempted(&Ok(output(true, "", "")), true), PowerOnStep::Done));
}

#[test]
fn radio_failures_are_told_apart() {
    assert_eq!(
        ensure_bluetooth_enabled(&Err("x".to_string())).err(),
        Some("Failed to run rfkill: x".to_string())
    );
    assert_eq!(
        ensure_bluetooth_enabled(&Ok(output(false, "", " no \n"))).err(),
        Some("rfkill unblock bluetooth failed: no".to_string())
    );
    let mut attempts = ensure_bluetooth_enabled(&Ok(output(true, "", ""))).unwrap();
    match attempts.attempted(&Err("x".to_string()), false) {
        PowerOnStep::Failed(e) => assert_eq!(e, "Failed to run bluetoothctl: x"),
        other => panic!("{other:?}"),
    }
}
