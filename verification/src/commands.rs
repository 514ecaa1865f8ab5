//! The commands of the manager. Only the installation is decided here; the other
//! commands are accepted and left to the caller.

pub use crate::error::{Result, RuntimeError};

pub mod convert;
pub mod daemon;
pub mod install;
pub mod quantize;
pub mod server;
pub mod set_instance;
pub mod uninstall;
