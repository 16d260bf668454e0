//! What the dashboard command decides before it serves.

use crate::auto_summarize::{
    recorded_check, should_trigger_auto_summarize_at, should_trigger_auto_summarize_on_show,
    time_trigger_due, TriggerError, UnsummarizedTranscript,
};
use crate::clock::{clock_time_reading, rfc3339_text, Timestamp};
use crate::config::{Config, SummarizationConfig};
use crate::hooks::session_end::{summarize_args, summarize_command, SpawnPlan, PROGRAM};
use crate::jobs::manager::job_id_at;
use crate::jobs::JobManager;
use crate::text;
use crate::text::string_views;
use vstd::prelude::*;

verus! {

/// The port of the dashboard where none is asked for.
pub const DEFAULT_PORT: u16 = 31456;

/// How many ports are tried, from the default port on, where none is asked for.
pub const MAX_PORT_ATTEMPTS: u16 = 100;

/// What became of one planned process.
#[derive(Debug, Clone, Copy, PartialEq, Eq)]
pub enum SpawnOutcome {
    /// The process could not be started.
    SpawnFailed,
    /// The process runs, but its job could not be registered.
    Unregistered,
    /// The process runs and its job is registered.
    Registered,
}

/// The ports to try, in order: the one asked for and no other, or the default port and
/// the ninety-nine after it.
pub open spec fn ports_to_try(port: Option<u16>) -> Seq<u16> {
    match port {
        Some(p) => seq![p],
        None => Seq::new(100, |i: int| (31456 + i) as u16),
    }
}

/// The task name of a transcript that is summarized on its own.
pub open spec fn auto_task_name(session_id: Seq<char>) -> Seq<char> {
    "auto-"@ + session_id
}

/// The directory that a transcript is summarized in: its own where it has one, else `.`.
pub open spec fn auto_cwd(cwd: Option<String>) -> Seq<char> {
    match cwd {
        Some(dir) => dir@,
        None => "."@,
    }
}

/// The number of the first `upto` outcomes that are registered jobs.
pub open spec fn registered_among(outcomes: Seq<SpawnOutcome>, upto: int) -> nat
    decreases upto,
{
    if upto <= 0 || upto > outcomes.len() {
        0
    } else {
        registered_among(outcomes, upto - 1) + if outcomes[upto - 1] == SpawnOutcome::Registered {
            1nat
        } else {
            0nat
        }
    }
}

/// The ports to try, in order.
pub fn port_candidates(port: Option<u16>) -> (r: Vec<u16>)
    ensures
        r@ == ports_to_try(port),
{
    let mut out: Vec<u16> = Vec::new();
    match port {
        Some(p) => {
            out.push(p);
            assert(out@ =~= seq![p]);
        },
        None => {
            let mut offset: u16 = 0;
            while offset < MAX_PORT_ATTEMPTS
                invariant
                    offset <= MAX_PORT_ATTEMPTS,
                    out@ == Seq::new(offset as nat, |i: int| (31456 + i) as u16),
                decreases MAX_PORT_ATTEMPTS - offset,
            {
                out.push(DEFAULT_PORT + offset);
                offset += 1;
                assert(out@ =~= Seq::new(offset as nat, |i: int| (31456 + i) as u16));
            }
        },
    }
    out
}

/// Whether a pass of automatic summarization starts at `now`: always where the dashboard
/// is set to start one, else where the time-based trigger is due.
pub fn should_start_pass_at(config: &Config, now: &Timestamp) -> (r: Result<bool, TriggerError>)
    ensures
        config.summarization.auto_summarize_enabled && config.summarization.auto_summarize_on_show
            ==> r == Ok::<bool, TriggerError>(true),
        !config.summarization.auto_summarize_enabled ==> r == Ok::<bool, TriggerError>(false),
        config.summarization.auto_summarize_enabled && !config.summarization.auto_summarize_on_show
            ==> (r is Ok <==> clock_time_reading(config.summarization.auto_summarize_time@)
            is Some),
        config.summarization.auto_summarize_enabled && !config.summarization.auto_summarize_on_show
            ==> (r matches Ok(due) ==> exists|last: Option<Timestamp>|
            recorded_check(config.summarization.last_auto_summarize_check, last) && due
                == time_trigger_due(
                *now,
                clock_time_reading(config.summarization.auto_summarize_time@)->0,
                last,
            )),
        r matches Err(e) ==> e == TriggerError::InvalidTime,
{
    if should_trigger_auto_summarize_on_show(config) {
        Ok(true)
    } else {
        should_trigger_auto_summarize_at(config, now)
    }
}

/// Notes in the configuration that the time-based trigger was considered at `now`, unless
/// the dashboard starts a pass on every opening and the time plays no part. The answer
/// says whether the configuration changed and has to be stored.
pub fn record_check(config: &mut Config, now: &Timestamp) -> (r: bool)
    ensures
        r == !(old(config).summarization.auto_summarize_enabled && old(
            config,
        ).summarization.auto_summarize_on_show),
        r ==> (final(config).summarization.last_auto_summarize_check matches Some(s) && s@
            == rfc3339_text(now.secs(), now.nanos(), now.offset())),
        !r ==> *final(config) == *old(config),
        final(config).storage == old(config).storage,
        final(config).archive == old(config).archive,
        final(config).hooks == old(config).hooks,
        final(config).output == old(config).output,
        final(config).prompt_templates == old(config).prompt_templates,
        final(config).summarization == (SummarizationConfig {
            last_auto_summarize_check: final(config).summarization.last_auto_summarize_check,
            ..old(config).summarization
        }),
{
    if should_trigger_auto_summarize_on_show(config) {
        false
    } else {
        config.summarization.last_auto_summarize_check = Some(now.to_rfc3339());
        true
    }
}

/// The process that summarizes a transcript on its own, under the given job id.
pub fn plan_auto_summarize(transcript: &UnsummarizedTranscript, job_id: &str) -> (r: SpawnPlan)
    ensures
        r.program@ == PROGRAM@,
        r.task_name@ == auto_task_name(transcript.session_id@),
        r.job_id@ == job_id@,
        r.transcript_path@ == transcript.path@,
        string_views(r.args@) == summarize_args(
            transcript.path@,
            auto_task_name(transcript.session_id@),
            Some(auto_cwd(transcript.cwd)),
            job_id@,
        ),
        r.own_process_group,
{
    let mut name: Vec<char> = Vec::new();
    text::push_str(&mut name, "auto-");
    text::push_str(&mut name, transcript.session_id.as_str());
    let task_name = text::string_of(&name);
    let args = match &transcript.cwd {
        Some(dir) => summarize_command(
            transcript.path.as_str(),
            task_name.as_str(),
            Some(dir.as_str()),
            job_id,
        ),
        None => summarize_command(transcript.path.as_str(), task_name.as_str(), Some("."), job_id),
    };
    SpawnPlan {
        program: String::from_str(PROGRAM),
        args,
        job_id: String::from_str(job_id),
        task_name,
        transcript_path: transcript.path.clone(),
        own_process_group: true,
    }
}

/// The processes that a pass starts: one for each transcript, in order, each under a
/// fresh job id made for its task name.
pub fn trigger_auto_summarize(unsummarized: &Vec<UnsummarizedTranscript>) -> (r: Vec<SpawnPlan>)
    ensures
        r@.len() == unsummarized@.len(),
        forall|i: int|
            0 <= i < r@.len() ==> {
                &&& (#[trigger] r@[i]).program@ == PROGRAM@
                &&& r@[i].task_name@ == auto_task_name(unsummarized@[i].session_id@)
                &&& r@[i].transcript_path@ == unsummarized@[i].path@
                &&& r@[i].own_process_group
                &&& string_views(r@[i].args@) == summarize_args(
                    unsummarized@[i].path@,
                    r@[i].task_name@,
                    Some(auto_cwd(unsummarized@[i].cwd)),
                    r@[i].job_id@,
                )
                &&& exists|now: Timestamp, random: u32|
                    now.wf() && r@[i].job_id@ == job_id_at(now, r@[i].task_name@, random)
            },
{
    let mut plans: Vec<SpawnPlan> = Vec::new();
    let mut i: usize = 0;
    while i < unsummarized.len()
        invariant
            i <= unsummarized.len(),
            plans@.len() == i,
            forall|k: int|
                0 <= k < plans@.len() ==> {
                    &&& (#[trigger] plans@[k]).program@ == PROGRAM@
                    &&& plans@[k].task_name@ == auto_task_name(unsummarized@[k].session_id@)
                    &&& plans@[k].transcript_path@ == unsummarized@[k].path@
                    &&& plans@[k].own_process_group
                    &&& string_views(plans@[k].args@) == summarize_args(
                        unsummarized@[k].path@,
                        plans@[k].task_name@,
                        Some(auto_cwd(unsummarized@[k].cwd)),
                        plans@[k].job_id@,
                    )
                    &&& exists|now: Timestamp, random: u32|
                        now.wf() && plans@[k].job_id@ == job_id_at(
                            now,
                            plans@[k].task_name@,
                            random,
                        )
                },
        decreases unsummarized.len() - i,
    {
        let mut name: Vec<char> = Vec::new();
        text::push_str(&mut name, "auto-");
        text::push_str(&mut name, unsummarized[i].session_id.as_str());
        let task_name = text::string_of(&name);
        let job_id = JobManager::generate_job_id(task_name.as_str());
        let plan = plan_auto_summarize(&unsummarized[i], job_id.as_str());
        plans.push(plan);
        i += 1;
    }
    plans
}

/// What became of a planned process, given whether it was started and whether its job was
/// registered after that. A job is registered only for a process that runs.
pub fn spawn_outcome(started: bool, registered: bool) -> (r: SpawnOutcome)
    ensures
        r == (if !started {
            SpawnOutcome::SpawnFailed
        } else if registered {
            SpawnOutcome::Registered
        } else {
            SpawnOutcome::Unregistered
        }),
{
    if !started {
        SpawnOutcome::SpawnFailed
    } else if registered {
        SpawnOutcome::Registered
    } else {
        SpawnOutcome::Unregistered
    }
}

/// How many of the planned processes run as registered jobs: a process that could not be
/// started, or whose job could not be registered, does not count and stops no other.
pub fn spawned_count(outcomes: &Vec<SpawnOutcome>) -> (r: usize)
    ensures
        r == registered_among(outcomes@, outcomes@.len() as int),
{
    let mut count: usize = 0;
    let mut i: usize = 0;
    while i < outcomes.len()
        invariant
            i <= outcomes.len(),
            count == registered_among(outcomes@, i as int),
            count <= i,
        decreases outcomes.len() - i,
    {
        match outcomes[i] {
            SpawnOutcome::Registered => {
                count += 1;
            },
            _ => {},
        }
        i += 1;
    }
    count
}

} // verus!
