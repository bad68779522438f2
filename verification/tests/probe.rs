use zenbook_duo_control::hardware::display_config::zenbook_duo_primary_orientation;
use zenbook_duo_control::models::display::{DisplayInfo, DisplayLayout, DisplayMode, RefreshPolicy};
use zenbook_duo_control::models::settings::Real;
use zenbook_duo_control::models::status::{ConnectionType, DuoStatus, Orientation};
use zenbook_duo_control::runtime::probe::{
    apply_layout_to_status, bluetooth_controller_powered, bluetooth_enabled, current_status,
    inferred_orientation, keyboard_attached, monitor_count, usb_device_present, usb_id_matches,
    wifi_enabled, UsbIdentity,
};

fn double(x: f64) -> Real {
    Real { bits: x.to_bits() }
}

fn mode() -> DisplayMode {
    DisplayMode {
        mode_id: "2880x1800@120".into(),
        width: 2880,
        height: 1800,
        refresh_rate: double(120.0),
    }
}

fn display(connector: &str, y: i32, transform: u32, primary: bool) -> DisplayInfo {
    DisplayInfo {
        connector: connector.into(),
        width: 2880,
        height: 1800,
        refresh_rate: double(120.0),
        scale: double(1.25),
        x: 0,
        y,
        transform,
        primary,
        enabled: true,
        current_mode: mode(),
        available_modes: vec![mode()],
        refresh_policy: RefreshPolicy::Fixed,
        supports_dynamic_refresh: false,
    }
}

#[test]
fn applies_primary_display_transform_to_status() {
    let mut status = DuoStatus::default();
    let layout = DisplayLayout {
        displays: vec![
            display("eDP-1", 0, 90, false),
            display("eDP-2", 1800, 270, true),
        ],
    };

    apply_layout_to_status(&mut status, Some(&layout));

    assert_eq!(status.orientation, Orientation::Left);
    assert_eq!(status.monitor_count, 2);
}

#[test]
fn bluetooth_enabled_requires_a_powered_bluez_controller() {
    assert!(bluetooth_controller_powered("Controller AA:BB\n\tPowered: yes\n"));
    assert!(!bluetooth_controller_powered("Controller AA:BB\n\tPowered: no\n"));
}

fn usb(vendor_id: &str, product_id: &str) -> UsbIdentity {
    UsbIdentity {
        vendor: Some(format!("{vendor_id}\n")),
        product: Some(format!("{product_id}\n")),
    }
}

#[test]
fn finds_attached_keyboard_by_usb_identity() {
    let devices = vec![usb("0B05", "1CD7")];

    assert!(usb_device_present(Some(&devices), "0b05", "1cd7"));
    assert!(keyboard_attached(Some(&devices)));
}

#[test]
fn ignores_other_asus_usb_devices() {
    let devices = vec![usb("0b05", "1234")];

    assert!(!usb_device_present(Some(&devices), "0b05", "1cd7"));
}

#[test]
fn missing_usb_devices_directory_is_not_attached() {
    assert!(!usb_device_present(None, "0b05", "1cd7"));
}

#[test]
fn unreadable_identity_does_not_match() {
    assert!(!usb_id_matches(&None, "0b05"));
    assert!(usb_id_matches(&Some(" 0B05 ".to_string()), "0b05"));
    let devices = vec![UsbIdentity { vendor: Some("0b05".to_string()), product: None }];
    assert!(!keyboard_attached(Some(&devices)));
}

#[test]
fn wifi_is_told_by_the_first_line() {
    assert!(wifi_enabled(Some(&b"enabled\n".to_vec())));
    assert!(wifi_enabled(Some(&b" enabled \ndisabled\n".to_vec())));
    assert!(!wifi_enabled(Some(&b"disabled\nenabled\n".to_vec())));
    assert!(!wifi_enabled(Some(&b"".to_vec())));
    assert!(!wifi_enabled(Some(&b"enabled\xff".to_vec())));
    assert!(!wifi_enabled(None));
}

#[test]
fn bluetooth_is_told_by_any_line() {
    assert!(bluetooth_enabled(Some(&b"a\n Powered: yes\nb".to_vec())));
    assert!(!bluetooth_enabled(Some(&b"Powered: yes please".to_vec())));
    assert!(!bluetooth_enabled(Some(&b"Powered: yes\n\xff".to_vec())));
    assert!(!bluetooth_enabled(None));
}

#[test]
fn empty_layout_keeps_the_count() {
    let empty = DisplayLayout { displays: vec![] };
    assert_eq!(monitor_count(Some(&empty), 2), 2);
    assert_eq!(monitor_count(None, 3), 3);
    assert_eq!(monitor_count(None, 0), 0);
    let one = DisplayLayout { displays: vec![display("eDP-1", 0, 180, true)] };
    assert_eq!(monitor_count(Some(&one), 2), 1);
}

#[test]
fn lower_panel_decides_while_it_is_on() {
    for (transform, expected) in [
        (0, Orientation::Normal),
        (90, Orientation::Right),
        (180, Orientation::Inverted),
        (270, Orientation::Left),
    ] {
        let layout = DisplayLayout {
            displays: vec![
                display("eDP-1", 0, 0, true),
                display("eDP-2", 1800, transform, false),
            ],
        };
        assert_eq!(inferred_orientation(Some(&layout)), Some(expected));
    }
}

#[test]
fn main_panel_decides_alone() {
    let mut off = display("eDP-2", 0, 90, true);
    off.enabled = false;
    let layout = DisplayLayout { displays: vec![off, display("eDP-1", 0, 180, false)] };
    assert_eq!(inferred_orientation(Some(&layout)), Some(Orientation::Normal));
    assert_eq!(zenbook_duo_primary_orientation(90), Orientation::Left);
    assert_eq!(zenbook_duo_primary_orientation(270), Orientation::Right);
}

#[test]
fn other_displays_stand_upright() {
    let layout = DisplayLayout {
        displays: vec![display("HDMI-1", 0, 180, false), display("DP-1", 0, 90, true)],
    };
    assert_eq!(inferred_orientation(Some(&layout)), Some(Orientation::Left));
    let layout = DisplayLayout {
        displays: vec![display("HDMI-1", 0, 180, false), display("DP-1", 0, 90, false)],
    };
    assert_eq!(inferred_orientation(Some(&layout)), Some(Orientation::Inverted));
    assert_eq!(inferred_orientation(Some(&DisplayLayout { displays: vec![] })), None);
    assert_eq!(inferred_orientation(None), None);
}

#[test]
fn status_is_put_together() {
    let devices = vec![usb("0b05", "1cd7")];
    let layout = DisplayLayout { displays: vec![display("eDP-1", 0, 180, true)] };
    let base = DuoStatus { display_brightness: 7, ..DuoStatus::default() };
    let status = current_status(
        base,
        Some(&devices),
        ConnectionType::Usb,
        Some(&b"enabled\n".to_vec()),
        Some(&b"Powered: no\n".to_vec()),
        Some(&layout),
    );
    assert!(status.keyboard_attached);
    assert_eq!(status.connection_type, ConnectionType::Usb);
    assert!(status.wifi_enabled);
    assert!(!status.bluetooth_enabled);
    assert_eq!(status.monitor_count, 1);
    assert_eq!(status.display_brightness, 7);
}
