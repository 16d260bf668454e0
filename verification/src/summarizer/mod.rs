//! Summaries: the prompts that ask for them and the reading of what comes back.

pub mod engine;
pub mod prompts;
pub mod template;

pub use engine::SummarizerEngine;
pub use prompts::Prompts;
pub use template::TemplateEngine;
