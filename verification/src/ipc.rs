//! What the daemon, the session agent and the control panel say to each other.

use vstd::prelude::*;

use crate::models::battery::BatteryStatus;
use crate::models::display::DisplayLayout;
use crate::models::settings::Real;
use crate::models::status::Orientation;

verus! {

/// The compositor that runs the session.
#[derive(Debug, Clone, Copy, PartialEq, Eq, Structural)]
pub enum SessionBackend {
    Gnome,
    Kde,
    Niri,
    Unknown,
}

/// An answer of the daemon, as far as its askers tell answers apart.
#[derive(Debug, Clone)]
pub enum DaemonResponse {
    Ack,
    Error { message: String },
    BatteryStatus { status: BatteryStatus },
    /// Any other answer.
    Other,
}

/// A request to the session agent.
#[derive(Debug, Clone)]
pub enum SessionCommand {
    GetDisplayLayout,
    SetDockMode { attached: bool, scale: Real },
    ApplyDisplayLayout { layout: DisplayLayout },
    SetOrientation { orientation: Orientation, scale: Real },
    ShowNotification { title: String, message: String, urgent: bool },
    OpenEmojiPicker,
}

/// An answer of the session agent.
#[derive(Debug, Clone)]
pub enum SessionResponse {
    Ack,
    Error { message: String },
    DisplayLayout { layout: DisplayLayout },
}

}
