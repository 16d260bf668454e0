//! Archive and background-job bookkeeping for coding-assistant sessions.

pub mod archive;
pub mod auto_summarize;
pub mod cli;
pub mod clock;
pub mod config;
pub mod hooks;
pub mod jobs;
pub mod paths;
pub mod server;
pub mod summarizer;
pub mod text;
pub mod transcript;
