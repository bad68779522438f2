//! The control panel's commands.

pub mod battery;
pub mod power;
