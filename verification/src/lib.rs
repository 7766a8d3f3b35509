//! Resolution of the persisted configuration of a terminal file manager:
//! the command used to open files, per-extension command overrides, three
//! display colors, and a few optional layout toggles.

pub mod bootstrap;
pub mod colors;
pub mod config;
pub mod paths;
pub mod value;
