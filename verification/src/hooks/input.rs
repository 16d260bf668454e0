//! What a hook is told.

use crate::text;
use crate::text::trim;
use vstd::prelude::*;

verus! {

/// What the assistant hands to a hook.
#[derive(Debug, Clone)]
pub struct HookInput {
    pub session_id: String,
    pub transcript_path: String,
    pub cwd: String,
    pub hook_event_name: String,
    /// Why the session ended; given to the hook of the session end only.
    pub reason: Option<String>,
    pub permission_mode: Option<String>,
}

/// Whether anything was handed to the hook: input of white space only counts as none.
pub fn has_input(buffer: &str) -> (r: bool)
    ensures
        r == (trim(buffer@).len() > 0),
{
    let chars = text::chars_of(buffer);
    !text::is_blank(&chars)
}

} // verus!
