//! Runtime of the Zenbook Duo control suite: the decisions of the system daemon, of the session
//! agent and of the control panel's commands, with the rules they keep.

pub mod clock;
pub mod command;
pub mod commands;
pub mod hardware;
pub mod ipc;
pub mod models;
pub mod runtime;
pub mod session;
pub mod text;
