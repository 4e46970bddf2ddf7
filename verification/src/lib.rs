//! Lifecycle logic of a service wrapper that runs one command under the
//! operating system's service supervisor.

pub mod command;
pub mod config;
pub mod control;
pub mod err;
pub mod install;
pub mod level;
pub mod notice;
pub mod runs;
pub mod service;
pub mod status;
pub mod text;
pub mod uninstall;
pub mod workload;
