//! What the hook of a session end starts.

use crate::clock::{formatted_time, Timestamp};
use crate::config::Config;
use crate::hooks::input::HookInput;
use crate::jobs::manager::job_id_at;
use crate::jobs::JobManager;
use crate::paths;
use crate::paths::file_name_of;
use crate::text;
use crate::text::string_views;
use vstd::prelude::*;

verus! {

/// The program that summarizes.
pub const PROGRAM: &'static str = "daily";

/// A process to start, detached from the one that starts it, with its output going to the
/// log of its job.
#[derive(Debug, Clone)]
pub struct SpawnPlan {
    pub program: String,
    pub args: Vec<String>,
    pub job_id: String,
    pub task_name: String,
    pub transcript_path: String,
    /// Whether the process gets a process group of its own, so that it outlives the
    /// starter's terminal.
    pub own_process_group: bool,
}

/// The task name of a session that ran in a directory: the name of the directory, or
/// `unnamed-session`, and the time of day.
pub open spec fn task_name_at(cwd: Seq<char>, now: Timestamp) -> Seq<char> {
    (match file_name_of(cwd) {
        Some(name) => name,
        None => "unnamed-session"@,
    }) + "-"@ + formatted_time(now.secs(), now.nanos(), now.offset(), "%H%M%S"@)
}

/// The arguments that make the program summarize a transcript in the foreground and
/// report to a job.
pub open spec fn summarize_args(
    transcript_path: Seq<char>,
    task_name: Seq<char>,
    cwd: Option<Seq<char>>,
    job_id: Seq<char>,
) -> Seq<Seq<char>> {
    seq!["summarize"@, "--transcript"@, transcript_path, "--task-name"@, task_name] + (match cwd {
        Some(dir) => seq!["--cwd"@, dir],
        None => Seq::empty(),
    }) + seq!["--job-id"@, job_id, "--foreground"@]
}

/// The task name of a session that ran in a directory, made at `now`.
pub fn generate_task_name_at(cwd: &str, now: &Timestamp) -> (r: String)
    ensures
        r@ == task_name_at(cwd@, *now),
{
    let mut out: Vec<char> = Vec::new();
    match paths::file_name(cwd) {
        Some(name) => text::push_str(&mut out, name.as_str()),
        None => text::push_str(&mut out, "unnamed-session"),
    }
    text::push_str(&mut out, "-");
    let stamp = now.format("%H%M%S");
    text::push_str(&mut out, stamp.as_str());
    text::string_of(&out)
}

/// The task name of a session that ran in a directory, made now.
pub fn generate_task_name(cwd: &str) -> (r: String)
    ensures
        exists|now: Timestamp| now.wf() && r@ == task_name_at(cwd@, now),
{
    let now = Timestamp::now();
    let r = generate_task_name_at(cwd, &now);
    assert(now.wf() && r@ == task_name_at(cwd@, now));
    r
}

/// The arguments that make the program summarize a transcript in the foreground and
/// report to a job.
pub fn summarize_command(transcript_path: &str, task_name: &str, cwd: Option<&str>, job_id: &str) -> (r:
    Vec<String>)
    ensures
        string_views(r@) == summarize_args(
            transcript_path@,
            task_name@,
            match cwd {
                Some(d) => Some(d@),
                None => None,
            },
            job_id@,
        ),
{
    let mut args: Vec<String> = Vec::new();
    args.push(String::from_str("summarize"));
    args.push(String::from_str("--transcript"));
    args.push(String::from_str(transcript_path));
    args.push(String::from_str("--task-name"));
    args.push(String::from_str(task_name));
    match cwd {
        Some(d) => {
            args.push(String::from_str("--cwd"));
            args.push(String::from_str(d));
        },
        None => {},
    }
    args.push(String::from_str("--job-id"));
    args.push(String::from_str(job_id));
    args.push(String::from_str("--foreground"));
    assert(string_views(args@) =~= summarize_args(
        transcript_path@,
        task_name@,
        match cwd {
            Some(d) => Some(d@),
            None => None,
        },
        job_id@,
    ));
    args
}

/// What the hook of a session end starts at `now`: nothing where the hook is switched
/// off; else the summarizing of the session's transcript under a fresh job, named after
/// the directory of the session, in a process group of its own so that the end of the
/// session does not end it. `random` is the last part of the job id.
pub fn handle_at(config: &Config, input: &HookInput, now: &Timestamp, random: u32) -> (r: Option<
    SpawnPlan,
>)
    ensures
        r is Some <==> config.hooks.enable_session_end,
        r matches Some(plan) ==> {
            &&& plan.program@ == PROGRAM@
            &&& plan.task_name@ == task_name_at(input.cwd@, *now)
            &&& plan.job_id@ == job_id_at(*now, plan.task_name@, random)
            &&& plan.transcript_path@ == input.transcript_path@
            &&& string_views(plan.args@) == summarize_args(
                input.transcript_path@,
                plan.task_name@,
                None,
                plan.job_id@,
            )
            &&& plan.own_process_group
        },
{
    if !config.hooks.enable_session_end {
        return None;
    }
    let task_name = generate_task_name_at(input.cwd.as_str(), now);
    let job_id = JobManager::job_id_at(task_name.as_str(), now, random);
    let args = summarize_command(
        input.transcript_path.as_str(),
        task_name.as_str(),
        None,
        job_id.as_str(),
    );
    Some(
        SpawnPlan {
            program: String::from_str(PROGRAM),
            args,
            job_id,
            task_name,
            transcript_path: input.transcript_path.clone(),
            own_process_group: true,
        },
    )
}

/// What the hook of a session end starts now.
pub fn handle(config: &Config, input: &HookInput) -> (r: Option<SpawnPlan>)
    ensures
        r is Some <==> config.hooks.enable_session_end,
        r matches Some(plan) ==> plan.program@ == PROGRAM@ && plan.transcript_path@
            == input.transcript_path@ && plan.own_process_group && string_views(plan.args@)
            == summarize_args(input.transcript_path@, plan.task_name@, None, plan.job_id@),
        r matches Some(plan) ==> exists|now: Timestamp, random: u32|
            now.wf() && plan.task_name@ == task_name_at(input.cwd@, now) && plan.job_id@
                == job_id_at(now, plan.task_name@, random),
{
    let now = Timestamp::now();
    let random = crate::jobs::manager::rand_id();
    let r = handle_at(config, input, &now, random);
    proof {
        if r is Some {
            let plan = r->Some_0;
            assert(now.wf() && plan.task_name@ == task_name_at(input.cwd@, now) && plan.job_id@
                == job_id_at(now, plan.task_name@, random));
        }
    }
    r
}

} // verus!
