//! The command line: its arguments and what the commands decide.

pub mod args;
pub mod commands;
