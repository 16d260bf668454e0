//! Session transcripts: their entries and what is gathered from them.

pub mod parser;

pub use parser::{
    ContentBlock, MessageContent, ToolCall, TranscriptData, TranscriptEntry, TranscriptParser,
};
