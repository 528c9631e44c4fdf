//! Mounting a portable directory as a consistent user directory on Windows: the path,
//! command line, environment, configuration and command logic, with its contracts.
pub mod text;
pub mod winpath;
pub mod profile_env;
pub mod cli;
pub mod mount;
pub mod mount_job;
pub mod config;
pub mod lnk;
pub mod commands;
pub mod ui;
