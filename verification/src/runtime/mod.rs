//! The daemon's state and decisions, and those of the session agent.

pub mod battery_saver;
pub mod bluetooth_power;
pub mod enforcement;
pub mod media_remap;
pub mod monitor;
pub mod policy;
pub mod probe;
pub mod state;
