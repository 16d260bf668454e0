//! The hooks that the assistant calls when a session starts or ends.

pub mod input;
pub mod session_end;

pub use input::HookInput;
