//! How the server is started: commands, options, configuration and the system service.

pub mod command_line;
pub mod config;
pub mod error_laws;
pub mod laws;
pub mod options;
pub mod proxy;
pub mod service;
