//! The arguments of the command line.

use vstd::prelude::*;

verus! {

/// The command line as a whole.
#[derive(Debug, Clone)]
pub struct Cli {
    pub command: Commands,
    /// More output.
    pub verbose: bool,
    /// The configuration file to use.
    pub config: Option<String>,
}

#[derive(Debug, Clone)]
pub enum Commands {
    /// Start the dashboard.
    Show {
        /// The port to listen on; the default port and the ones after it where none is
        /// given.
        port: Option<u16>,
        /// The host to bind to.
        host: String,
        /// Do not open a browser.
        no_open: bool,
    },
    /// View archives; without a date one is chosen from a list.
    View { date: Option<String>, summary_only: bool, list: bool },
    /// View the archive of today.
    Today { summary_only: bool, list: bool },
    /// View the archive of yesterday.
    Yest { summary_only: bool, list: bool },
    /// Summarize a transcript.
    Summarize {
        transcript: String,
        task_name: Option<String>,
        cwd: Option<String>,
        foreground: bool,
        job_id: Option<String>,
    },
    /// Make the summary of a day from its sessions.
    Digest { relative_date: Option<String>, date: Option<String>, background: bool, force: bool },
    /// Make a skill from an archived session.
    ExtractSkill { date: Option<String>, session: Option<String>, output: Option<String> },
    /// Make a command from an archived session.
    ExtractCommand { date: Option<String>, session: Option<String>, output: Option<String> },
    /// Review the skills that wait for a decision.
    ReviewSkills { install: Option<String>, delete: Option<String> },
    /// Manage background jobs.
    Jobs { action: JobsAction },
    /// Set up the configuration.
    Init { storage_path: Option<String>, yes: bool, haiku: bool },
    /// Show or change the configuration.
    Config { set_storage: Option<String>, show: bool, interactive: bool },
    /// Install the hooks and commands.
    Install { scope: String },
    /// Remove the hooks and commands; the archive stays.
    Uninstall { scope: String, binary: bool },
    /// Update the program.
    Update { check: bool, version: Option<String> },
    /// Handle a hook of the assistant.
    Hook { hook_type: HookType },
}

#[derive(Debug, Clone)]
pub enum JobsAction {
    /// List background jobs.
    List {
        /// Show the ended jobs too.
        all: bool,
    },
    /// Show the log of a job.
    Log { job_id: String, tail: Option<usize>, follow: bool },
    /// Terminate a running job.
    Kill { job_id: String },
    /// Remove the records of old jobs.
    Cleanup {
        /// Keep the jobs of this many days.
        days: u32,
        /// Only show what would be removed.
        dry_run: bool,
    },
}

#[derive(Debug, Clone, Copy)]
pub enum HookType {
    SessionStart,
    SessionEnd,
}

/// The days that a clean-up keeps where the command line names none.
pub const DEFAULT_KEEP_DAYS: u32 = 7;

} // verus!
