//! Verified core of a toolkit for writing system services: service and
//! discovery names, network route matching, command tables, process status
//! reporting and the decisions of the command-line providers.

pub mod cli;
pub mod console;
pub mod network;
pub mod notify;
pub mod process;
pub mod provider;
pub mod server;
pub mod signals;
pub mod text;
pub mod tray;
