//! What an install writes.

use crate::paths;
use crate::paths::joined_path;
use crate::text;
use crate::text::replace;
use vstd::prelude::*;

verus! {

/// The hooks that archive every session.
pub const HOOKS_CONFIG: &'static str =
    "{\n  \"description\": \"Daily Context Archive hooks for automatic session archiving\",\n  \"hooks\": {\n    \"SessionStart\": [\n      {\n        \"hooks\": [\n          {\n            \"type\": \"command\",\n            \"command\": \"daily hook session-start\"\n          }\n        ]\n      }\n    ],\n    \"SessionEnd\": [\n      {\n        \"hooks\": [\n          {\n            \"type\": \"command\",\n            \"command\": \"daily hook session-end\"\n          }\n        ]\n      }\n    ]\n  }\n}\n";

/// The settings that switch the hooks on where there are no settings yet.
pub const SETTINGS: &'static str =
    "{\n  \"hooks\": {\n    \"SessionStart\": [\n      {\n        \"hooks\": [\n          {\n            \"type\": \"command\",\n            \"command\": \"daily hook session-start\"\n          }\n        ]\n      }\n    ],\n    \"SessionEnd\": [\n      {\n        \"hooks\": [\n          {\n            \"type\": \"command\",\n            \"command\": \"daily hook session-end\"\n          }\n        ]\n      }\n    ]\n  }\n}\n";

/// The command that shows the archive.
pub const VIEW_COMMAND: &'static str =
    "---\ndescription: \"View today's daily archive or a specific date\"\nargument-hint: \"[--date YYYY-MM-DD] [--list] [--summary-only]\"\nallowed-tools: [\"Bash(daily view:*)\"]\n---\n\n# Daily View Command\n\nView the daily context archive.\n\n## Usage\n\nTo view today's archive:\n```bash\ndaily view\n```\n\nTo view a specific date:\n```bash\ndaily view --date $ARGUMENTS\n```\n\nTo list all sessions:\n```bash\ndaily view --list\n```\n\nTo view only the daily summary:\n```bash\ndaily view --summary-only\n```\n\nDisplay the output to the user in a readable format.\n";

/// The command that makes a skill; `{{settings_dir}}` stands for the settings directory
/// of the assistant.
pub const SKILL_COMMAND: &'static str =
    "---\ndescription: \"Extract and generate a skill from daily archive insights\"\nargument-hint: \"[--session NAME] [--output PATH]\"\nallowed-tools: [\"Bash(daily extract-skill:*)\", \"Write(**/skills/**/*.md)\"]\n---\n\n# Extract Skill Command\n\nExtract a reusable skill from today's session insights.\n\n## Workflow\n\n1. First, list today's sessions and skill suggestions:\n```bash\ndaily view --list\n```\n\n2. Review the skill hints from the daily summary:\n```bash\ndaily view --summary-only\n```\n\n3. Extract the skill:\n```bash\ndaily extract-skill $ARGUMENTS\n```\n\n4. The skill will be generated and saved. Review the output and offer to:\n   - Install to user skills: `~/{{settings_dir}}/skills/`\n   - Install to project skills: `{{settings_dir}}/skills/`\n   - Modify the generated skill\n\nAsk the user where they want to install the skill and make any requested modifications.\n";

/// The command that makes a command; `{{settings_dir}}` stands for the settings directory
/// of the assistant.
pub const COMMAND_COMMAND: &'static str =
    "---\ndescription: \"Extract and generate a command from daily archive insights\"\nargument-hint: \"[--session NAME] [--output PATH]\"\nallowed-tools: [\"Bash(daily extract-command:*)\", \"Write(**/commands/**/*.md)\"]\n---\n\n# Extract Command\n\nExtract a reusable command from today's session insights.\n\n## Workflow\n\n1. First, list today's sessions and command suggestions:\n```bash\ndaily view --list\n```\n\n2. Review the command hints from the daily summary:\n```bash\ndaily view --summary-only\n```\n\n3. Extract the command:\n```bash\ndaily extract-command $ARGUMENTS\n```\n\n4. The command will be generated and saved. Review the output and offer to:\n   - Install to user commands: `~/{{settings_dir}}/commands/`\n   - Install to project commands: `{{settings_dir}}/commands/`\n   - Modify the generated command\n\nAsk the user where they want to install the command and make any requested modifications.\n";

/// A file that an install writes.
#[derive(Debug, Clone)]
pub struct InstallFile {
    pub path: String,
    pub content: String,
}

/// A text with the settings directory of the assistant put in the place of its
/// placeholder.
pub open spec fn filled(template: Seq<char>, settings_dir: Seq<char>) -> Seq<char> {
    replace(template, "{{settings_dir}}"@, settings_dir)
}

/// The files that an install writes into a settings directory, as paths and contents: the
/// hooks, the three commands, and the settings where there are none yet.
pub open spec fn install_files(target_dir: Seq<char>, settings_dir: Seq<char>, settings_exist: bool) -> Seq<
    (Seq<char>, Seq<char>),
> {
    let commands = joined_path(target_dir, "commands"@);
    seq![
        (joined_path(joined_path(target_dir, "hooks"@), "daily-hooks.json"@), HOOKS_CONFIG@),
        (joined_path(commands, "daily-view.md"@), VIEW_COMMAND@),
        (joined_path(commands, "daily-get-skill.md"@), filled(SKILL_COMMAND@, settings_dir)),
        (joined_path(commands, "daily-get-command.md"@), filled(COMMAND_COMMAND@, settings_dir)),
    ] + (if settings_exist {
        Seq::empty()
    } else {
        seq![(joined_path(target_dir, "settings.json"@), SETTINGS@)]
    })
}

/// The files as paths and contents.
pub open spec fn file_views(files: Seq<InstallFile>) -> Seq<(Seq<char>, Seq<char>)> {
    files.map_values(|f: InstallFile| (f.path@, f.content@))
}

/// A text with the settings directory of the assistant put in the place of its
/// placeholder.
pub fn fill(template: &str, settings_dir: &str) -> (r: String)
    ensures
        r@ == filled(template@, settings_dir@),
{
    let t = text::chars_of(template);
    let pattern = text::chars_of("{{settings_dir}}");
    let value = text::chars_of(settings_dir);
    let out = text::replaced(&t, &pattern, &value);
    text::string_of(&out)
}

/// The files that an install writes into the settings directory `target_dir`, whose name
/// is `settings_dir`. Settings that exist are left alone.
pub fn run(target_dir: &str, settings_dir: &str, settings_exist: bool) -> (r: Vec<InstallFile>)
    ensures
        file_views(r@) == install_files(target_dir@, settings_dir@, settings_exist),
{
    let hooks_dir = paths::join(target_dir, "hooks");
    let commands_dir = paths::join(target_dir, "commands");
    let mut files: Vec<InstallFile> = Vec::new();
    files.push(
        InstallFile {
            path: paths::join(hooks_dir.as_str(), "daily-hooks.json"),
            content: String::from_str(HOOKS_CONFIG),
        },
    );
    files.push(
        InstallFile {
            path: paths::join(commands_dir.as_str(), "daily-view.md"),
            content: String::from_str(VIEW_COMMAND),
        },
    );
    files.push(
        InstallFile {
            path: paths::join(commands_dir.as_str(), "daily-get-skill.md"),
            content: fill(SKILL_COMMAND, settings_dir),
        },
    );
    files.push(
        InstallFile {
            path: paths::join(commands_dir.as_str(), "daily-get-command.md"),
            content: fill(COMMAND_COMMAND, settings_dir),
        },
    );
    if !settings_exist {
        files.push(
            InstallFile {
                path: paths::join(target_dir, "settings.json"),
                content: String::from_str(SETTINGS),
            },
        );
    }
    assert(file_views(files@) =~= install_files(target_dir@, settings_dir@, settings_exist));
    files
}

} // verus!
