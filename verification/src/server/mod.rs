//! What the dashboard is told: the shapes of the answers and the reading of archived files.

pub mod dto;
pub mod handlers;
pub mod static_files;
