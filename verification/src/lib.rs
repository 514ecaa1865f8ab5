//! The decisions of a manager for local installations of llama.cpp.
//!
//! An installation lives in one instance directory per profile. It fetches the
//! sources with git, builds and stages them with CMake, and provides a Python
//! environment with uv. This library decides what is to be done and what an
//! outcome means; it starts no process and touches no file itself. Its caller
//! performs each [`orchestrator::Action`] and reports the
//! [`orchestrator::Event`] that resulted.
//!
//! - [`external_tools::version`] reads, writes and matches dotted versions.
//! - [`external_tools`] describes the tools: how each is invoked, and what the
//!   end of an invocation means.
//! - [`orchestrator`] is the installation as a state machine, with what holds of
//!   every run of it.
//! - [`commands`] holds the commands and [`commands::install::run`], which drives
//!   an installation from its start to its end.
//! - [`config`] holds the configuration and its profiles.
//! - [`process`], [`error`] and [`text`] are what the others are made of.

pub mod commands;
pub mod config;
pub mod error;
pub mod external_tools;
pub mod orchestrator;
pub mod process;
pub mod text;
