//! What a summarizing run is called and where it works.

use crate::clock::{formatted_time, Timestamp};
use crate::paths;
use crate::paths::parent_of;
use crate::text;
use vstd::prelude::*;

verus! {

/// What became of a summarizing run, for the record of its job.
#[derive(Debug, Clone)]
pub enum RunOutcome {
    Completed,
    Failed { error: String },
}

/// The task name of a run that was given none: `session-` and the time of day.
pub open spec fn default_task_name(now: Timestamp) -> Seq<char> {
    "session-"@ + formatted_time(now.secs(), now.nanos(), now.offset(), "%H%M%S"@)
}

/// The directory of the project that a transcript belongs to: two levels above the
/// transcript, where there are so many.
pub open spec fn project_dir_of(transcript: Seq<char>) -> Option<Seq<char>> {
    match parent_of(transcript) {
        Some(dir) => parent_of(dir),
        None => None,
    }
}

/// The task name of a run at `now`: the one given, else `session-` and the time of day.
pub fn task_name_at(task_name: Option<&str>, now: &Timestamp) -> (r: String)
    ensures
        r@ == (match task_name {
            Some(name) => name@,
            None => default_task_name(*now),
        }),
{
    match task_name {
        Some(name) => String::from_str(name),
        None => {
            let mut out: Vec<char> = Vec::new();
            text::push_str(&mut out, "session-");
            let stamp = now.format("%H%M%S");
            text::push_str(&mut out, stamp.as_str());
            text::string_of(&out)
        },
    }
}

/// The directory of the project that a transcript belongs to.
pub fn project_dir(transcript: &str) -> (r: Option<String>)
    ensures
        crate::transcript::parser::opt_view(r) == project_dir_of(transcript@),
{
    match paths::parent(transcript) {
        Some(dir) => paths::parent(dir.as_str()),
        None => None,
    }
}

/// The directory that a run works in: two levels above the transcript, else the
/// directory the program runs in, else `.`.
pub fn working_dir(transcript: &str, current_dir: Option<&str>) -> (r: String)
    ensures
        r@ == (match project_dir_of(transcript@) {
            Some(dir) => dir,
            None => match current_dir {
                Some(dir) => dir@,
                None => "."@,
            },
        }),
{
    match project_dir(transcript) {
        Some(dir) => dir,
        None => match current_dir {
            Some(dir) => String::from_str(dir),
            None => String::from_str("."),
        },
    }
}

} // verus!
