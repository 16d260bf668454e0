//! What the commands decide.

pub mod config;
pub mod digest;
pub mod extract;
pub mod init;
pub mod install;
pub mod jobs;
pub mod show;
pub mod summarize;
pub mod uninstall;
pub mod update;
pub mod view;
