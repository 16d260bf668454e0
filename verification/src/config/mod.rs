//! Settings of the archive, the summarizer and the hooks.

pub mod settings;

pub use settings::{
    ArchiveConfig, Config, HooksConfig, OutputConfig, PromptTemplatesConfig, StorageConfig,
    SummarizationConfig,
};
