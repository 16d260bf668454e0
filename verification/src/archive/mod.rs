//! The archive: one directory per day, one file per session, one summary per day.

pub mod daily;
pub mod manager;
pub mod session;
pub mod templates;

pub use daily::DailySummary;
pub use manager::{ArchiveManager, DirItem, FileWrite};
pub use session::SessionArchive;
pub use templates::Templates;
