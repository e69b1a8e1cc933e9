//! Decision logic of a desktop installer: the installation state machine, the
//! progress record it publishes, and the parsing behind the host capability probe.

pub mod actions;
pub mod command;
pub mod install;
pub mod probe;
pub mod progress;
pub mod text;
