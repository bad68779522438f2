use zenbook_duo_control::clock::Timestamp;
use zenbook_duo_control::models::settings::{PerformanceMode, StoredSettings};
use zenbook_duo_control::runtime::state::{current_boot_id, RuntimeState, StoredState};

fn boot() -> Option<String> {
    current_boot_id(Some("7f2c2d1e-0b55-4f0e-9a51-1d0a54b7e0aa\n"))
}

#[test]
fn successful_attached_mode_records_runtime_ownership() {
    let mut state = RuntimeState::default();

    state.record_successful_dock_mode(true, true, boot());

    assert!(state.secondary_panel_disabled_by_runtime);
    assert!(state.secondary_panel_disabled_by_runtime_boot_id.is_some());
}

#[test]
fn repeated_attached_mode_preserves_runtime_ownership() {
    let mut state = RuntimeState {
        secondary_panel_disabled_by_runtime: true,
        ..RuntimeState::default()
    };

    state.record_successful_dock_mode(true, false, boot());

    assert!(state.secondary_panel_disabled_by_runtime);
}

#[test]
fn attached_mode_does_not_claim_an_already_failed_panel() {
    let mut state = RuntimeState::default();

    state.record_successful_dock_mode(true, false, boot());

    assert!(!state.secondary_panel_disabled_by_runtime);
}

#[test]
fn successful_detached_mode_clears_runtime_ownership() {
    let mut state = RuntimeState {
        secondary_panel_disabled_by_runtime: true,
        ..RuntimeState::default()
    };

    state.record_successful_dock_mode(false, false, boot());

    assert!(!state.secondary_panel_disabled_by_runtime);
    assert!(state.secondary_panel_disabled_by_runtime_boot_id.is_none());
}

#[test]
fn current_boot_ownership_survives_daemon_restart() {
    let mut state = RuntimeState::default();
    state.record_successful_dock_mode(true, true, boot());

    state.validate_secondary_panel_ownership_for_current_boot(boot());

    assert!(state.secondary_panel_disabled_by_runtime);
}

#[test]
fn stale_boot_ownership_is_discarded() {
    let mut state = RuntimeState {
        secondary_panel_disabled_by_runtime: true,
        secondary_panel_disabled_by_runtime_boot_id: Some("previous-boot".into()),
        ..RuntimeState::default()
    };

    state.validate_secondary_panel_ownership_for_current_boot(boot());

    assert!(!state.secondary_panel_disabled_by_runtime);
    assert!(state.secondary_panel_disabled_by_runtime_boot_id.is_none());
}

#[test]
fn ownership_of_an_unknown_boot_is_discarded() {
    let mut state = RuntimeState::default();
    state.record_successful_dock_mode(true, true, None);
    assert!(state.secondary_panel_disabled_by_runtime);
    state.validate_secondary_panel_ownership_for_current_boot(None);
    assert!(!state.secondary_panel_disabled_by_runtime);
}

#[test]
fn boot_id_is_trimmed_text() {
    assert_eq!(current_boot_id(Some("  abc\n")), Some("abc".to_string()));
    assert_eq!(current_boot_id(Some(" \n\t")), None);
    assert_eq!(current_boot_id(None), None);
}

#[test]
fn fresh_state_is_empty() {
    let state = RuntimeState::default();
    assert!(!state.status.keyboard_attached);
    assert!(!state.session_agent.connected);
    assert!(state.session_agent.session_id.is_none());
    assert!(state.usb_media_remap_reconcile.last_started_at.is_none());
    assert!(state.last_runtime_notification.is_none());
    assert!(state.recent_events.is_empty());
    assert_eq!(state.settings.charge_limit_percent, 100);
}

#[test]
fn touch_takes_the_present_moment() {
    let mut state = RuntimeState {
        last_updated: Timestamp::from_parts(5, 0).unwrap(),
        ..RuntimeState::default()
    };
    let before = chrono::Utc::now().timestamp();
    state.touch();
    let after = chrono::Utc::now().timestamp();
    assert!(before <= state.last_updated.secs() && state.last_updated.secs() <= after);
}

#[test]
fn saved_state_loads_back() {
    let mut state = RuntimeState::default();
    state.record_successful_dock_mode(true, true, boot());
    state.battery_saver_restore_mode = Some(PerformanceMode::Performance);
    state.settings.charge_limit_percent = 80;
    state.settings.auto_dual_screen = false;
    state.last_updated = Timestamp::from_parts(77, 5).unwrap();
    let loaded = RuntimeState::load(Some(state.clone().save()));
    assert!(loaded.secondary_panel_disabled_by_runtime);
    assert_eq!(loaded.secondary_panel_disabled_by_runtime_boot_id, boot());
    assert_eq!(loaded.battery_saver_restore_mode, Some(PerformanceMode::Performance));
    assert_eq!(loaded.settings.charge_limit_percent, 80);
    assert!(!loaded.settings.auto_dual_screen);
    assert_eq!(loaded.last_updated, state.last_updated);
    assert_eq!(format!("{loaded:?}"), format!("{state:?}"));
}

#[test]
fn older_state_lacks_the_newer_fields() {
    let older = StoredState {
        settings: StoredSettings::default(),
        usb_media_remap_reconcile: None,
        battery_saver_restore_mode: None,
        secondary_panel_disabled_by_runtime: None,
        secondary_panel_disabled_by_runtime_boot_id: None,
        last_runtime_notification: None,
        ..RuntimeState::default().save()
    };
    let loaded = RuntimeState::load(Some(older));
    assert!(!loaded.secondary_panel_disabled_by_runtime);
    assert_eq!(loaded.secondary_panel_disabled_by_runtime_boot_id, None);
    assert_eq!(loaded.battery_saver_restore_mode, None);
    assert!(!loaded.settings.sync_brightness);
    assert!(RuntimeState::load(None).settings.sync_brightness);
}
