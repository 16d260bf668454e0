//! Background jobs: their records, the registry that holds them and their logs.

pub mod lemmas;
pub mod manager;

pub use manager::{JobError, JobInfo, JobManager, JobStatus};
