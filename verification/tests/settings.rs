use zenbook_duo_control::models::settings::{
    default_backlight, default_charge_limit_percent, default_scale,
    default_usb_media_remap_enabled, DuoSettings, PerformanceMode, Real, StoredSettings,
    ThemePreference,
};

#[test]
fn older_settings_default_to_full_charge() {
    let recorded: serde_json::Value =
        serde_json::from_str(r#"{"defaultBacklight":2}"#).expect("deserialize settings");
    let number = |key: &str| recorded.get(key).and_then(|v| v.as_u64()).map(|n| n as u8);
    let flag = |key: &str| recorded.get(key).and_then(|v| v.as_bool());
    let settings = DuoSettings::from_stored(StoredSettings {
        default_backlight: number("defaultBacklight"),
        auto_rotate: flag("autoRotate"),
        keyboard_backlight_power_save: flag("keyboardBacklightPowerSave"),
        auto_quiet_on_battery: flag("autoQuietOnBattery"),
        charge_limit_percent: number("chargeLimitPercent"),
        ..StoredSettings::default()
    });

    assert_eq!(settings.charge_limit_percent, 100);
    assert!(!settings.auto_rotate);
    assert!(!settings.keyboard_backlight_power_save);
    assert!(!settings.auto_quiet_on_battery);
    assert_eq!(settings.default_backlight, 2);
}

#[test]
fn missing_fields_take_their_own_defaults() {
    let settings = DuoSettings::from_stored(StoredSettings::default());
    assert_eq!(settings.default_backlight, 3);
    assert_eq!(f64::from_bits(settings.default_scale.bits), 1.67);
    assert!(!settings.auto_dual_screen);
    assert!(!settings.sync_brightness);
    assert!(settings.usb_media_remap_enabled);
    assert_eq!(settings.active_performance_mode, PerformanceMode::Balanced);
    assert_eq!(settings.theme, ThemePreference::System);
    assert_eq!(settings.last_display_brightness_percent, None);
    assert!(settings.touchscreen_disabled.is_empty());
}

#[test]
fn recorded_fields_are_kept() {
    let settings = DuoSettings::from_stored(StoredSettings {
        default_scale: Some(Real { bits: 2.0f64.to_bits() }),
        usb_media_remap_enabled: Some(false),
        theme: Some(ThemePreference::Dark),
        last_display_brightness_percent: Some(Some(40)),
        touchscreen_disabled: Some(vec!["eDP-2".to_string()]),
        charge_limit_percent: Some(80),
        ..StoredSettings::default()
    });
    assert_eq!(f64::from_bits(settings.default_scale.bits), 2.0);
    assert!(!settings.usb_media_remap_enabled);
    assert_eq!(settings.theme, ThemePreference::Dark);
    assert_eq!(settings.last_display_brightness_percent, Some(40));
    assert_eq!(settings.touchscreen_disabled, vec!["eDP-2".to_string()]);
    assert_eq!(settings.charge_limit_percent, 80);
}

#[test]
fn fresh_settings_have_their_defaults() {
    let settings = DuoSettings::default();
    assert!(settings.auto_dual_screen);
    assert!(settings.sync_brightness);
    assert!(!settings.setup_completed);
    assert_eq!(settings.performance_profiles.balanced.pl2_watts, 45);
    assert_eq!(default_backlight(), 3);
    assert_eq!(default_charge_limit_percent(), 100);
    assert!(default_usb_media_remap_enabled());
    assert_eq!(f64::from_bits(default_scale().bits), 1.67);
    assert_eq!(ThemePreference::default(), ThemePreference::System);
}

#[test]
fn recorded_settings_read_back() {
    let mut settings = DuoSettings::default();
    settings.default_backlight = 1;
    settings.last_display_brightness_percent = Some(30);
    settings.touchscreen_disabled = vec!["a".to_string()];
    let read = DuoSettings::from_stored(settings.clone().into_stored());
    assert_eq!(format!("{read:?}"), format!("{settings:?}"));
}
