//! The session agent: what it does in the user's session for the daemon.

pub mod agent;
pub mod backend;
pub mod brightness;
pub mod dock;
pub mod hotkeys;
pub mod idle;
pub mod notify;
pub mod outputs;
pub mod rotation;
