//! The devices of the machine.

pub mod battery;
pub mod display_config;
pub mod hid;
pub mod hid_bluetooth;
pub mod power;
