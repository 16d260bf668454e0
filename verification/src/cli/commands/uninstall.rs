//! What an uninstall removes.

use crate::text;
use crate::text::{lowercase, string_views, trim};
use vstd::prelude::*;

verus! {

/// The command that the hook of a session start runs.
pub const SESSION_START_COMMAND: &'static str = "daily hook session-start";

/// The command that the hook of a session end runs.
pub const SESSION_END_COMMAND: &'static str = "daily hook session-end";

/// Where the plugin is installed.
#[derive(Debug, Clone, Copy, PartialEq, Eq)]
pub enum Scope {
    /// In the settings directory of the user.
    User,
    /// In the settings directory of the project.
    Project,
}

/// A scope that is neither `user` nor `project`.
#[derive(Debug, Clone, Copy, PartialEq, Eq)]
pub struct InvalidScope;

/// What is to become of the hooks of one event in the settings.
#[derive(Debug, Clone)]
pub struct HookRemoval {
    /// For each entry of the event, whether it stays.
    pub keep: Vec<bool>,
    /// Whether an entry goes.
    pub changed: bool,
    /// Whether no entry stays, so that the event goes too.
    pub emptied: bool,
}

/// Whether an entry of hooks runs the command: one of the commands of its hooks is it.
pub open spec fn runs_command(commands: Seq<Seq<char>>, command: Seq<char>) -> bool {
    commands.contains(command)
}

/// For each of the entries whether it stays: it does unless it runs the command.
pub open spec fn kept_entries(entries: Seq<Vec<String>>, command: Seq<char>) -> Seq<bool> {
    entries.map_values(|e: Vec<String>| !runs_command(string_views(e@), command))
}

/// Whether the answer to a question is a yes: a `y`, in either case, with white space
/// around it or without.
pub open spec fn is_yes_answer(answer: Seq<char>) -> bool {
    lowercase(trim(answer)) == "y"@
}

/// The scope that a word names.
pub fn parse_scope(scope: &str) -> (r: Result<Scope, InvalidScope>)
    ensures
        scope@ == "user"@ ==> r == Ok::<Scope, InvalidScope>(Scope::User),
        scope@ == "project"@ ==> r == Ok::<Scope, InvalidScope>(Scope::Project),
        scope@ != "user"@ && scope@ != "project"@ ==> r is Err,
{
    proof {
        reveal_strlit("user");
        reveal_strlit("project");
        assert("user"@.len() == 4 && "project"@.len() == 7);
    }
    let s = text::chars_of(scope);
    if text::same_str(&s, "user") {
        Ok(Scope::User)
    } else if text::same_str(&s, "project") {
        Ok(Scope::Project)
    } else {
        Err(InvalidScope)
    }
}

/// Whether an entry of hooks runs the command, given the commands of its hooks.
pub fn is_daily_hook_entry(commands: &Vec<String>, command: &str) -> (r: bool)
    ensures
        r == runs_command(string_views(commands@), command@),
{
    crate::transcript::parser::holds_string(commands, command)
}

/// What is to become of the hooks of one event: every entry that runs the command goes,
/// and with the last entry the event.
pub fn remove_daily_hooks(entries: &Vec<Vec<String>>, command: &str) -> (r: HookRemoval)
    ensures
        r.keep@ == kept_entries(entries@, command@),
        r.changed == r.keep@.contains(false),
        r.emptied == !r.keep@.contains(true),
{
    let mut keep: Vec<bool> = Vec::new();
    let mut changed: bool = false;
    let mut emptied: bool = true;
    let mut i: usize = 0;
    while i < entries.len()
        invariant
            i <= entries.len(),
            keep@.len() == i,
            forall|k: int|
                0 <= k < i ==> keep@[k] == !runs_command(string_views(entries@[k]@), command@),
            changed == keep@.contains(false),
            emptied == !keep@.contains(true),
        decreases entries.len() - i,
    {
        let stays = !is_daily_hook_entry(&entries[i], command);
        let ghost before = keep@;
        keep.push(stays);
        proof {
            assert(keep@[i as int] == stays);
            assert forall|b: bool| keep@.contains(b) <==> before.contains(b) || b == stays by {
                if keep@.contains(b) {
                    let k = choose|k: int| 0 <= k < keep@.len() && keep@[k] == b;
                    if k < before.len() {
                        assert(before[k] == b);
                    }
                }
                if before.contains(b) {
                    let k = choose|k: int| 0 <= k < before.len() && before[k] == b;
                    assert(keep@[k] == b);
                }
            }
        }
        if stays {
            emptied = false;
        } else {
            changed = true;
        }
        i += 1;
    }
    assert(keep@ =~= kept_entries(entries@, command@));
    HookRemoval { keep, changed, emptied }
}

/// Whether the answer to a question is a yes.
pub fn is_yes(answer: &str) -> (r: bool)
    ensures
        r == is_yes_answer(answer@),
{
    let chars = text::chars_of(answer);
    let t = text::trimmed(&chars);
    let lowered = text::lowercase_chars(&t);
    text::same_str(&lowered, "y")
}

} // verus!
