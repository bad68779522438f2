//! The displays that the compositor reports.

use vstd::prelude::*;

use crate::models::settings::Real;

verus! {

/// A resolution and refresh rate that a display offers.
#[derive(Debug, Clone)]
pub struct DisplayMode {
    pub mode_id: String,
    pub width: u32,
    pub height: u32,
    pub refresh_rate: Real,
}

/// How the refresh rate of a display is chosen.
#[derive(Debug, Clone, Copy, PartialEq, Eq, Structural)]
pub enum RefreshPolicy {
    Fixed,
    Dynamic,
}

/// One display of a layout.
#[derive(Debug, Clone)]
pub struct DisplayInfo {
    pub connector: String,
    pub width: u32,
    pub height: u32,
    pub refresh_rate: Real,
    pub scale: Real,
    pub x: i32,
    pub y: i32,
    /// The rotation in degrees.
    pub transform: u32,
    pub primary: bool,
    pub enabled: bool,
    pub current_mode: DisplayMode,
    pub available_modes: Vec<DisplayMode>,
    pub refresh_policy: RefreshPolicy,
    pub supports_dynamic_refresh: bool,
}

/// The displays of the session.
#[derive(Debug, Clone)]
pub struct DisplayLayout {
    pub displays: Vec<DisplayInfo>,
}

}
