//! What the hardware and the desktop report.

use vstd::prelude::*;

verus! {

/// How the keyboard is connected.
#[derive(Debug, Clone, Copy, PartialEq, Eq, Structural)]
pub enum ConnectionType {
    Usb,
    Bluetooth,
    /// Not connected.
    Disconnected,
}

/// Which way up the device is held.
#[derive(Debug, Clone, Copy, PartialEq, Eq, Structural)]
pub enum Orientation {
    Normal,
    Left,
    Right,
    Inverted,
}

/// One observation of the machine.
#[derive(Debug, Clone, Copy, PartialEq, Eq, Structural)]
pub struct DuoStatus {
    pub keyboard_attached: bool,
    pub connection_type: ConnectionType,
    pub monitor_count: u32,
    pub wifi_enabled: bool,
    pub bluetooth_enabled: bool,
    pub backlight_level: u8,
    pub display_brightness: u32,
    pub max_brightness: u32,
    pub service_active: bool,
    pub orientation: Orientation,
}

/// The status before anything has been observed.
pub open spec fn unobserved_status() -> DuoStatus {
    DuoStatus {
        keyboard_attached: false,
        connection_type: ConnectionType::Disconnected,
        monitor_count: 0,
        wifi_enabled: false,
        bluetooth_enabled: false,
        backlight_level: 0,
        display_brightness: 0,
        max_brightness: 0,
        service_active: false,
        orientation: Orientation::Normal,
    }
}

impl Default for DuoStatus {
    fn default() -> (r: Self)
        ensures
            r == unobserved_status(),
    {
        DuoStatus {
            keyboard_attached: false,
            connection_type: ConnectionType::Disconnected,
            monitor_count: 0,
            wifi_enabled: false,
            bluetooth_enabled: false,
            backlight_level: 0,
            display_brightness: 0,
            max_brightness: 0,
            service_active: false,
            orientation: Orientation::Normal,
        }
    }
}

/// Before anything has been observed nothing is attached, on or lit, and the device stands upright.
pub proof fn law_nothing_is_on_before_it_is_observed(r: DuoStatus)
    requires
        call_ensures(<DuoStatus as Default>::default, (), r),
    ensures
        !r.keyboard_attached,
        r.connection_type == ConnectionType::Disconnected,
        r.monitor_count == 0,
        !r.wifi_enabled,
        !r.bluetooth_enabled,
        r.backlight_level == 0,
        r.display_brightness == 0,
        r.max_brightness == 0,
        !r.service_active,
        r.orientation == Orientation::Normal,
{
}

}
