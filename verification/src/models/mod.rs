//! The values that the runtime works on.

pub mod battery;
pub mod display;
pub mod event;
pub mod settings;
pub mod status;
