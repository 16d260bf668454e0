//! The job registry.
//!
//! A job is one detached process with its record and its log. The registry holds the
//! records of one storage directory, keyed by job id. Whoever owns the directory loads the
//! records into a [`JobManager`], asks it to register, finish, reconcile, list or clean up,
//! and writes back what changed: the rules live here, the files elsewhere.

use crate::clock::{formatted_time, Timestamp};
use crate::config::settings::expanded_path;
use crate::config::Config;
use crate::paths;
use crate::paths::joined_path;
use crate::text;
use crate::text::{decimal, hex_padded, is_alnum, join, lines, lowercase, signed_decimal};
use vstd::prelude::*;

verus! {

/// Largest size of a log, in bytes, that is left as it is once its job has ended.
pub const MAX_LOG_SIZE: u64 = 1_048_576;

/// Longest prefix of a task name that goes into a job id, in characters.
pub const MAX_NAME_CHARS: usize = 20;

/// How a job stands: it runs, it has completed, or it has failed with an error.
#[derive(Debug, Clone)]
pub enum JobStatus {
    Running,
    Completed,
    Failed { error: String },
}

/// A job status as a mathematical value.
pub enum StatusView {
    Running,
    Completed,
    Failed { error: Seq<char> },
}

impl View for JobStatus {
    type V = StatusView;

    open spec fn view(&self) -> StatusView {
        match self {
            JobStatus::Running => StatusView::Running,
            JobStatus::Completed => StatusView::Completed,
            JobStatus::Failed { error } => StatusView::Failed { error: error@ },
        }
    }
}

/// What can go wrong when the registry is asked about a job.
#[derive(Debug, Clone, Copy, PartialEq, Eq)]
pub enum JobError {
    /// No record has the given id.
    NotFound,
    /// The job has no log file.
    LogMissing,
}

/// The record of one job. A record is finished, with the time it finished at, exactly
/// when its status is not `Running`.
#[derive(Debug)]
pub struct JobInfo {
    id: String,
    pid: u32,
    task_name: String,
    transcript_path: String,
    started_at: Timestamp,
    finished_at: Option<Timestamp>,
    status: JobStatus,
}

/// A job record as a mathematical value.
pub struct JobRecord {
    pub id: Seq<char>,
    pub pid: u32,
    pub task_name: Seq<char>,
    pub transcript_path: Seq<char>,
    pub started_at: Timestamp,
    pub finished_at: Option<Timestamp>,
    pub status: StatusView,
}

/// The invariant of a record: valid times, and a finishing time exactly when the job is
/// no longer running.
pub open spec fn record_wf(r: JobRecord) -> bool {
    &&& r.started_at.wf()
    &&& r.finished_at matches Some(t) ==> t.wf()
    &&& r.finished_at is Some <==> !(r.status is Running)
}

/// The record a job starts with.
pub open spec fn running_record(
    id: Seq<char>,
    pid: u32,
    task_name: Seq<char>,
    transcript_path: Seq<char>,
    now: Timestamp,
) -> JobRecord {
    JobRecord {
        id,
        pid,
        task_name,
        transcript_path,
        started_at: now,
        finished_at: None,
        status: StatusView::Running,
    }
}

/// The record after its job was reported to have ended with `status` at `now`: a running
/// record takes the status and the time, a finished one stays as it is.
pub open spec fn finished(r: JobRecord, status: StatusView, now: Timestamp) -> JobRecord {
    if r.status is Running {
        JobRecord { finished_at: Some(now), status, ..r }
    } else {
        r
    }
}

/// The status of a job whose process was found gone.
pub open spec fn lost_status() -> StatusView {
    StatusView::Failed { error: "process terminated unexpectedly"@ }
}

/// The status of a job that was terminated on request.
pub open spec fn killed_status() -> StatusView {
    StatusView::Failed { error: "Killed by user"@ }
}

/// The record after its process was looked for at `now`, where `dead` lists the process
/// ids found gone: a running record whose process is gone becomes a failed one.
pub open spec fn reconciled(r: JobRecord, dead: Seq<u32>, now: Timestamp) -> JobRecord {
    if r.status is Running && dead.contains(r.pid) {
        finished(r, lost_status(), now)
    } else {
        r
    }
}

/// Whether a clean-up at `now` that keeps `keep_days` days removes the record: the job has
/// ended and started more than that many days ago.
pub open spec fn removable(r: JobRecord, keep_days: int, now: Timestamp) -> bool {
    !(r.status is Running) && r.started_at.instant() + keep_days * 86_400 * 1_000_000_000
        < now.instant()
}

/// Whether no two records share an id.
pub open spec fn distinct_ids(s: Seq<JobRecord>) -> bool {
    forall|i: int, j: int| 0 <= i < j < s.len() ==> s[i].id != s[j].id
}

/// Whether some record has the id.
pub open spec fn has_id(s: Seq<JobRecord>, id: Seq<char>) -> bool {
    exists|i: int| 0 <= i < s.len() && #[trigger] s[i].id == id
}

/// The position of the record with the id.
pub open spec fn index_of(s: Seq<JobRecord>, id: Seq<char>) -> int {
    choose|i: int| 0 <= i < s.len() && #[trigger] s[i].id == id
}

/// The record with the id.
pub open spec fn record_of(s: Seq<JobRecord>, id: Seq<char>) -> JobRecord {
    s[index_of(s, id)]
}

/// The records with `r` put in the place of the record of the same id, or at the end where
/// there is none.
pub open spec fn upserted(s: Seq<JobRecord>, r: JobRecord) -> Seq<JobRecord> {
    if has_id(s, r.id) {
        s.update(index_of(s, r.id), r)
    } else {
        s.push(r)
    }
}

/// The records, each reconciled.
pub open spec fn all_reconciled(s: Seq<JobRecord>, dead: Seq<u32>, now: Timestamp) -> Seq<
    JobRecord,
> {
    s.map_values(|r: JobRecord| reconciled(r, dead, now))
}

/// The records that a reconciliation rewrites, as they stand after it, in their order.
pub open spec fn rewritten(s: Seq<JobRecord>, dead: Seq<u32>, now: Timestamp) -> Seq<JobRecord>
    decreases s.len(),
{
    if s.len() == 0 {
        Seq::empty()
    } else {
        let rest = rewritten(s.drop_last(), dead, now);
        if s.last().status is Running && dead.contains(s.last().pid) {
            rest.push(reconciled(s.last(), dead, now))
        } else {
            rest
        }
    }
}

/// Where a record that started at instant `t` goes into `acc`, which is ordered newest
/// first: before the first record that started strictly earlier.
pub open spec fn insertion_point(acc: Seq<JobRecord>, t: int, from: int) -> int
    decreases acc.len() - from,
{
    if 0 <= from < acc.len() && acc[from].started_at.instant() >= t {
        insertion_point(acc, t, from + 1)
    } else {
        from
    }
}

/// `acc` with `r` put in at its insertion point.
pub open spec fn inserted(acc: Seq<JobRecord>, r: JobRecord) -> Seq<JobRecord> {
    acc.insert(insertion_point(acc, r.started_at.instant(), 0), r)
}

/// Whether a listing shows the record.
pub open spec fn shown(r: JobRecord, include_completed: bool) -> bool {
    include_completed || r.status is Running
}

/// The listing of the records: those shown, newest first; of two that started at the same
/// instant the one that stands first in the registry comes first.
pub open spec fn listed(s: Seq<JobRecord>, include_completed: bool) -> Seq<JobRecord>
    decreases s.len(),
{
    if s.len() == 0 {
        Seq::empty()
    } else {
        let rest = listed(s.drop_last(), include_completed);
        if shown(s.last(), include_completed) {
            inserted(rest, s.last())
        } else {
            rest
        }
    }
}

/// The records that a clean-up leaves, in their order.
pub open spec fn retained(s: Seq<JobRecord>, keep_days: int, now: Timestamp) -> Seq<JobRecord>
    decreases s.len(),
{
    if s.len() == 0 {
        Seq::empty()
    } else {
        let rest = retained(s.drop_last(), keep_days, now);
        if removable(s.last(), keep_days, now) {
            rest
        } else {
            rest.push(s.last())
        }
    }
}

/// The records that a clean-up removes, in their order.
pub open spec fn removed(s: Seq<JobRecord>, keep_days: int, now: Timestamp) -> Seq<JobRecord>
    decreases s.len(),
{
    if s.len() == 0 {
        Seq::empty()
    } else {
        let rest = removed(s.drop_last(), keep_days, now);
        if removable(s.last(), keep_days, now) {
            rest.push(s.last())
        } else {
            rest
        }
    }
}

/// The process ids of the running records, in their order.
pub open spec fn running_pids_of(s: Seq<JobRecord>) -> Seq<u32>
    decreases s.len(),
{
    if s.len() == 0 {
        Seq::empty()
    } else {
        let rest = running_pids_of(s.drop_last());
        if s.last().status is Running {
            rest.push(s.last().pid)
        } else {
            rest
        }
    }
}

/// The views of the records, in order.
pub open spec fn records_of(v: Seq<JobInfo>) -> Seq<JobRecord> {
    v.map_values(|j: JobInfo| j@)
}

/// A task name made fit for a job id: its first twenty characters, each that is neither
/// alphanumeric nor a hyphen replaced by a hyphen, in lower case.
pub open spec fn sanitized_name(name: Seq<char>) -> Seq<char> {
    let head = if name.len() > 20 {
        name.subrange(0, 20)
    } else {
        name
    };
    lowercase(
        head.map_values(
            |c: char|
                if is_alnum(c) || c == '-' {
                    c
                } else {
                    '-'
                },
        ),
    )
}

/// The id of a job: the time stamp, the sanitized task name and six or more hexadecimal
/// digits of a random number, joined by hyphens.
pub open spec fn job_id_text(stamp: Seq<char>, task_name: Seq<char>, random: u32) -> Seq<char> {
    stamp + "-"@ + sanitized_name(task_name) + "-"@ + hex_padded(random as nat, 6)
}

/// The id of a job registered at `now`.
pub open spec fn job_id_at(now: Timestamp, task_name: Seq<char>, random: u32) -> Seq<char> {
    job_id_text(
        formatted_time(now.secs(), now.nanos(), now.offset(), "%Y%m%d-%H%M%S"@),
        task_name,
        random,
    )
}

/// A number of seconds for a reader: seconds below a minute, minutes and seconds below an
/// hour, hours and minutes from there on.
pub open spec fn human_duration(secs: int) -> Seq<char> {
    if secs < 60 {
        signed_decimal(secs) + "s"@
    } else if secs < 3600 {
        decimal((secs / 60) as nat) + "m "@ + decimal((secs % 60) as nat) + "s"@
    } else {
        decimal((secs / 3600) as nat) + "h "@ + decimal(((secs % 3600) / 60) as nat) + "m"@
    }
}

/// The last `n` of the lines, or all of them where there are fewer.
pub open spec fn last_lines(all: Seq<Seq<char>>, n: int) -> Seq<Seq<char>> {
    if n >= all.len() {
        all
    } else {
        all.subrange(all.len() - n, all.len() as int)
    }
}

/// The content of a log as a reader asked for it: whole, or its last `n` lines joined by
/// line feeds.
pub open spec fn log_view(content: Seq<char>, tail_lines: Option<usize>) -> Seq<char> {
    match tail_lines {
        Some(n) => join(last_lines(lines(content), n as int), "\n"@),
        None => content,
    }
}

/// The line that stands before the lines kept of a truncated log.
pub open spec fn truncation_marker(kept: nat) -> Seq<char> {
    "[... log truncated, showing last "@ + decimal(kept) + " lines ...]"@
}

/// A log cut down to the trailing half of its lines, after the marker line.
pub open spec fn truncated_log(content: Seq<char>) -> Seq<char> {
    let all = lines(content);
    let keep_from = all.len() / 2;
    truncation_marker((all.len() - keep_from) as nat) + "\n"@ + join(
        all.subrange(keep_from as int, all.len() as int),
        "\n"@,
    )
}

impl JobStatus {
    /// The status for a reader: `Running`, `Completed`, or `Failed: ` and the error.
    pub open spec fn text(self) -> Seq<char> {
        match self {
            JobStatus::Running => "Running"@,
            JobStatus::Completed => "Completed"@,
            JobStatus::Failed { error } => "Failed: "@ + error@,
        }
    }

    /// The status for a reader.
    pub fn to_string(&self) -> (r: String)
        ensures
            r@ == self.text(),
    {
        match self {
            JobStatus::Running => String::from_str("Running"),
            JobStatus::Completed => String::from_str("Completed"),
            JobStatus::Failed { error } => {
                let mut out: Vec<char> = Vec::new();
                text::push_str(&mut out, "Failed: ");
                text::push_str(&mut out, error.as_str());
                text::string_of(&out)
            },
        }
    }

    /// A copy of the status.
    pub fn duplicate(&self) -> (r: JobStatus)
        ensures
            r@ == self@,
    {
        match self {
            JobStatus::Running => JobStatus::Running,
            JobStatus::Completed => JobStatus::Completed,
            JobStatus::Failed { error } => JobStatus::Failed { error: error.clone() },
        }
    }

    /// Whether the job runs.
    pub fn is_running(&self) -> (r: bool)
        ensures
            r == (self@ is Running),
    {
        match self {
            JobStatus::Running => true,
            _ => false,
        }
    }
}

impl View for JobInfo {
    type V = JobRecord;

    closed spec fn view(&self) -> JobRecord {
        JobRecord {
            id: self.id@,
            pid: self.pid,
            task_name: self.task_name@,
            transcript_path: self.transcript_path@,
            started_at: self.started_at,
            finished_at: self.finished_at,
            status: self.status@,
        }
    }
}

impl JobInfo {
    #[verifier::type_invariant]
    spec fn inv(self) -> bool {
        record_wf(self@)
    }

    /// A record with the given content, or `None` where the finishing time and the status
    /// do not fit together.
    pub fn restore(
        id: String,
        pid: u32,
        task_name: String,
        transcript_path: String,
        started_at: Timestamp,
        finished_at: Option<Timestamp>,
        status: JobStatus,
    ) -> (r: Option<JobInfo>)
        ensures
            r is Some <==> (finished_at is Some <==> !(status@ is Running)),
            r matches Some(info) ==> record_wf(info@) && info@ == (JobRecord {
                id: id@,
                pid,
                task_name: task_name@,
                transcript_path: transcript_path@,
                started_at,
                finished_at,
                status: status@,
            }),
    {
        started_at.valid();
        let running = status.is_running();
        match &finished_at {
            Some(t) => {
                t.valid();
                if running {
                    return None;
                }
            },
            None => {
                if !running {
                    return None;
                }
            },
        }
        Some(JobInfo { id, pid, task_name, transcript_path, started_at, finished_at, status })
    }

    /// The record a job starts with.
    pub fn running(id: &str, pid: u32, task_name: &str, transcript_path: &str, now: &Timestamp) -> (r:
        JobInfo)
        ensures
            r@ == running_record(id@, pid, task_name@, transcript_path@, *now),
            record_wf(r@),
    {
        now.valid();
        JobInfo {
            id: String::from_str(id),
            pid,
            task_name: String::from_str(task_name),
            transcript_path: String::from_str(transcript_path),
            started_at: *now,
            finished_at: None,
            status: JobStatus::Running,
        }
    }

    /// A copy of the record.
    pub fn duplicate(&self) -> (r: JobInfo)
        ensures
            r@ == self@,
            record_wf(r@),
    {
        proof {
            use_type_invariant(self);
        }
        JobInfo {
            id: self.id.clone(),
            pid: self.pid,
            task_name: self.task_name.clone(),
            transcript_path: self.transcript_path.clone(),
            started_at: self.started_at,
            finished_at: self.finished_at,
            status: self.status.duplicate(),
        }
    }

    /// The record after its job was reported to have ended with `status` at `now`.
    pub fn finish(&self, status: JobStatus, now: &Timestamp) -> (r: JobInfo)
        requires
            !(status@ is Running),
        ensures
            r@ == finished(self@, status@, *now),
            record_wf(r@),
    {
        proof {
            use_type_invariant(self);
        }
        now.valid();
        if self.status.is_running() {
            JobInfo {
                id: self.id.clone(),
                pid: self.pid,
                task_name: self.task_name.clone(),
                transcript_path: self.transcript_path.clone(),
                started_at: self.started_at,
                finished_at: Some(*now),
                status,
            }
        } else {
            self.duplicate()
        }
    }

    /// The id of the job.
    pub fn id(&self) -> (r: &str)
        ensures
            r@ == self@.id,
    {
        self.id.as_str()
    }

    /// The id of the process of the job.
    pub fn pid(&self) -> (r: u32)
        ensures
            r == self@.pid,
    {
        self.pid
    }

    /// The name of the task.
    pub fn task_name(&self) -> (r: &str)
        ensures
            r@ == self@.task_name,
    {
        self.task_name.as_str()
    }

    /// The transcript that the job works on.
    pub fn transcript_path(&self) -> (r: &str)
        ensures
            r@ == self@.transcript_path,
    {
        self.transcript_path.as_str()
    }

    /// When the job started.
    pub fn started_at(&self) -> (r: Timestamp)
        ensures
            r == self@.started_at,
            r.wf(),
    {
        proof {
            use_type_invariant(self);
        }
        self.started_at
    }

    /// When the job ended, where it has.
    pub fn finished_at(&self) -> (r: Option<Timestamp>)
        ensures
            r == self@.finished_at,
            r is Some <==> !(self@.status is Running),
    {
        proof {
            use_type_invariant(self);
        }
        self.finished_at
    }

    /// How the job stands.
    pub fn status(&self) -> (r: &JobStatus)
        ensures
            r@ == self@.status,
    {
        &self.status
    }

    /// Whether the job counts as alive, given the process ids that were found gone: a
    /// process of which nothing is known is taken to live.
    pub fn is_alive(&self, dead_pids: &Vec<u32>) -> (r: bool)
        ensures
            r == !dead_pids@.contains(self@.pid),
    {
        !holds_pid(dead_pids, self.pid)
    }

    /// Whole seconds from the start of the job to its end, or to `now` while it runs.
    pub fn elapsed_at(&self, now: &Timestamp) -> (r: i64)
        ensures
            r == crate::clock::whole_seconds(
                match self@.finished_at {
                    Some(end) => end.instant(),
                    None => now.instant(),
                } - self@.started_at.instant(),
            ),
    {
        match &self.finished_at {
            Some(end) => self.started_at.seconds_until(end),
            None => self.started_at.seconds_until(now),
        }
    }

    /// Whole seconds from the start of the job to its end, or to the present while it
    /// runs.
    pub fn elapsed(&self) -> (r: i64)
        ensures
            self@.finished_at matches Some(end) ==> r == crate::clock::whole_seconds(
                end.instant() - self@.started_at.instant(),
            ),
            self@.finished_at is None ==> exists|now: Timestamp|
                now.wf() && r == crate::clock::whole_seconds(
                    now.instant() - self@.started_at.instant(),
                ),
    {
        let now = Timestamp::now();
        let r = self.elapsed_at(&now);
        proof {
            if self@.finished_at is None {
                assert(now.wf() && r == crate::clock::whole_seconds(
                    now.instant() - self@.started_at.instant(),
                ));
            }
        }
        r
    }

    /// The time the job has taken up to `now`, for a reader.
    pub fn elapsed_human_at(&self, now: &Timestamp) -> (r: String)
        ensures
            r@ == human_duration(
                crate::clock::whole_seconds(
                    match self@.finished_at {
                        Some(end) => end.instant(),
                        None => now.instant(),
                    } - self@.started_at.instant(),
                ),
            ),
    {
        format_duration(self.elapsed_at(now))
    }

    /// The time the job has taken, for a reader.
    pub fn elapsed_human(&self) -> (r: String)
        ensures
            self@.finished_at matches Some(end) ==> r@ == human_duration(
                crate::clock::whole_seconds(end.instant() - self@.started_at.instant()),
            ),
            self@.finished_at is None ==> exists|now: Timestamp|
                now.wf() && r@ == human_duration(
                    crate::clock::whole_seconds(now.instant() - self@.started_at.instant()),
                ),
    {
        let now = Timestamp::now();
        let r = self.elapsed_human_at(&now);
        proof {
            if self@.finished_at is None {
                assert(now.wf() && r@ == human_duration(
                    crate::clock::whole_seconds(now.instant() - self@.started_at.instant()),
                ));
            }
        }
        r
    }
}

/// A number of seconds for a reader.
pub fn format_duration(secs: i64) -> (r: String)
    ensures
        r@ == human_duration(secs as int),
{
    let mut out: Vec<char> = Vec::new();
    if secs < 60 {
        let digits = text::signed_decimal_chars(secs);
        text::push_all(&mut out, &digits);
        text::push_str(&mut out, "s");
    } else if secs < 3600 {
        text::push_decimal(&mut out, (secs / 60) as u64);
        text::push_str(&mut out, "m ");
        text::push_decimal(&mut out, (secs % 60) as u64);
        text::push_str(&mut out, "s");
    } else {
        text::push_decimal(&mut out, (secs / 3600) as u64);
        text::push_str(&mut out, "h ");
        text::push_decimal(&mut out, ((secs % 3600) / 60) as u64);
        text::push_str(&mut out, "m");
    }
    text::string_of(&out)
}

/// Whether the list holds the process id.
pub fn holds_pid(pids: &Vec<u32>, pid: u32) -> (r: bool)
    ensures
        r == pids@.contains(pid),
{
    let mut i: usize = 0;
    while i < pids.len()
        invariant
            i <= pids.len(),
            forall|k: int| 0 <= k < i ==> pids@[k] != pid,
        decreases pids.len() - i,
    {
        if pids[i] == pid {
            return true;
        }
        i += 1;
    }
    false
}

/// A task name made fit for a job id.
pub fn sanitize_name(name: &str) -> (r: String)
    ensures
        r@ == sanitized_name(name@),
{
    let chars = text::chars_of(name);
    let n: usize = if chars.len() > MAX_NAME_CHARS {
        MAX_NAME_CHARS
    } else {
        chars.len()
    };
    let ghost head = if name@.len() > 20 {
        name@.subrange(0, 20)
    } else {
        name@
    };
    let ghost f = |c: char|
        if is_alnum(c) || c == '-' {
            c
        } else {
            '-'
        };
    let mut mapped: Vec<char> = Vec::new();
    let mut i: usize = 0;
    while i < n
        invariant
            i <= n <= chars.len(),
            chars@ == name@,
            n == head.len(),
            head == name@.subrange(0, n as int),
            mapped@ == head.subrange(0, i as int).map_values(f),
            f == (|c: char|
                if is_alnum(c) || c == '-' {
                    c
                } else {
                    '-'
                }),
        decreases n - i,
    {
        let c = chars[i];
        let d = if text::is_alphanumeric(c) || c == '-' {
            c
        } else {
            '-'
        };
        assert(head.subrange(0, i + 1).map_values(f) == head.subrange(0, i as int).map_values(
            f,
        ).push(f(head[i as int])));
        mapped.push(d);
        i += 1;
    }
    assert(head.subrange(0, n as int) == head);
    let lowered = text::lowercase_chars(&mapped);
    text::string_of(&lowered)
}

/// The low 32 bits of a count of nanoseconds, mixed bit by bit with the nanoseconds past
/// the second.
pub open spec fn mixed_nanos(total: u128, subsec: u32) -> u32 {
    ((total % 0x1_0000_0000) as u32) ^ subsec
}

/// What one reading of the clock gives when its two parts are mixed: the reading is a time
/// in nanoseconds, and the nanoseconds past the second are what it leaves when divided by
/// one billion.
pub open spec fn clock_mix(total: u128) -> u32 {
    mixed_nanos(total, (total % 1_000_000_000) as u32)
}

/// The low 32 bits of a count of nanoseconds, mixed with the nanoseconds past the second.
pub fn mix_nanos(total: u128, subsec: u32) -> (r: u32)
    ensures
        r == mixed_nanos(total, subsec),
{
    let low: u32 = (total % 0x1_0000_0000u128) as u32;
    low ^ subsec
}

/// The two parts of one reading of the clock agree in their low nine bits, since 512
/// divides both two to the thirty-second and one billion; the mixing cancels these bits,
/// so that the mix is a multiple of 512.
pub proof fn lemma_clock_mix_low_bits(total: u128)
    ensures
        clock_mix(total) % 512 == 0,
{
    let low: u32 = (total % 0x1_0000_0000) as u32;
    let sub: u32 = (total % 1_000_000_000) as u32;
    assert(low % 512 == total % 512) by {
        assert(512 * 8_388_608 == 0x1_0000_0000int);
        vstd::arithmetic::div_mod::lemma_mod_mod(total as int, 512, 8_388_608);
    }
    assert(sub % 512 == total % 512) by {
        assert(512 * 1_953_125 == 1_000_000_000int);
        vstd::arithmetic::div_mod::lemma_mod_mod(total as int, 512, 1_953_125);
    }
    assert(low % 512 == sub % 512);
    assert((low ^ sub) % 512 == 0) by (bit_vector)
        requires
            low % 512 == sub % 512,
    ;
}

/// The random part of a job id: the two parts of one reading of the clock, mixed. It
/// changes as the clock moves; it is no more than the reading it is made of, and its low
/// nine bits are always zero.
pub fn rand_id() -> (r: u32)
    ensures
        exists|total: u128| r == clock_mix(total),
        r % 512 == 0,
{
    let (secs, subsec) = crate::clock::epoch_reading();
    let total: u128 = (secs as u128) * 1_000_000_000 + (subsec as u128);
    let r = mix_nanos(total, subsec);
    proof {
        assert(total % 1_000_000_000 == subsec);
        assert(r == clock_mix(total));
        lemma_clock_mix_low_bits(total);
    }
    r
}

/// The process id to hand to the system when a process is probed or signalled: the
/// process id of the record where the system can take it for one process, nothing for
/// zero and for a number beyond the system's range, which would stand for a group of
/// processes.
pub fn signal_target(pid: u32) -> (r: Option<i32>)
    ensures
        r is Some <==> 0 < pid <= i32::MAX,
        r matches Some(p) ==> p == pid,
{
    if 0 < pid && pid <= 0x7fff_ffff {
        Some(pid as i32)
    } else {
        None
    }
}

/// Whether a process counts as alive after a probe. `code` is what the probe returned,
/// `error` the error number it left where it failed, and `no_such_process` the error
/// number that says that there is no such process. The process is gone only where the
/// probe failed for that reason; where the probe succeeded, and where it could not decide
/// (it was refused, or failed otherwise), the process counts as alive.
pub fn is_process_alive(code: i32, error: i32, no_such_process: i32) -> (r: bool)
    ensures
        r == (code == 0 || error != no_such_process),
{
    code == 0 || error != no_such_process
}

/// Whether a signal was delivered, by what the request returned.
pub fn kill_process(code: i32) -> (r: bool)
    ensures
        r == (code == 0),
{
    code == 0
}

/// The registry of the jobs of one storage directory.
pub struct JobManager {
    jobs_dir: String,
    records: Vec<JobInfo>,
}

impl JobManager {
    #[verifier::type_invariant]
    spec fn inv(self) -> bool {
        &&& distinct_ids(records_of(self.records@))
        &&& forall|i: int| 0 <= i < self.records@.len() ==> record_wf(#[trigger] self.records@[i]@)
    }

    /// The directory that holds the records and the logs.
    pub closed spec fn jobs_dir(&self) -> Seq<char> {
        self.jobs_dir@
    }

    /// The records, in the order in which they came in.
    pub closed spec fn records(&self) -> Seq<JobRecord> {
        records_of(self.records@)
    }

    /// Whether the registry keeps its promise: no two records share an id, and each record
    /// is well formed. Every executable registry does.
    pub open spec fn wf(&self) -> bool {
        &&& distinct_ids(self.records())
        &&& forall|i: int| 0 <= i < self.records().len() ==> record_wf(#[trigger] self.records()[i])
    }

    /// An empty registry for the directory `jobs` under the given storage directory.
    pub fn in_storage(storage_path: &str) -> (r: JobManager)
        ensures
            r.jobs_dir() == joined_path(storage_path@, "jobs"@),
            r.records() == Seq::<JobRecord>::empty(),
            r.wf(),
    {
        let r = JobManager { jobs_dir: paths::join(storage_path, "jobs"), records: Vec::new() };
        assert(r.records() =~= Seq::<JobRecord>::empty());
        r
    }

    /// An empty registry for the directory `jobs` under the storage directory of the
    /// configuration.
    pub fn new(config: &Config) -> (r: JobManager)
        ensures
            exists|home: Option<Seq<char>>|
                r.jobs_dir() == joined_path(expanded_path(config.storage.path@, home), "jobs"@),
            r.records() == Seq::<JobRecord>::empty(),
            r.wf(),
    {
        let root = config.storage_path();
        let ghost h = choose|home: Option<Seq<char>>|
            root@ == expanded_path(config.storage.path@, home);
        let r = JobManager::in_storage(root.as_str());
        assert(r.jobs_dir() == joined_path(expanded_path(config.storage.path@, h), "jobs"@));
        r
    }

    /// The directory that holds the records and the logs.
    pub fn dir(&self) -> (r: &str)
        ensures
            r@ == self.jobs_dir(),
    {
        self.jobs_dir.as_str()
    }

    /// The number of records.
    pub fn len(&self) -> (r: usize)
        ensures
            r == self.records().len(),
    {
        self.records.len()
    }

    /// The id made of a time stamp, the task name and a random number.
    pub fn job_id_from(stamp: &str, task_name: &str, random: u32) -> (r: String)
        ensures
            r@ == job_id_text(stamp@, task_name@, random),
    {
        let name = sanitize_name(task_name);
        let suffix = text::hex_chars(random, 6);
        let mut out: Vec<char> = Vec::new();
        text::push_str(&mut out, stamp);
        text::push_str(&mut out, "-");
        text::push_str(&mut out, name.as_str());
        text::push_str(&mut out, "-");
        text::push_all(&mut out, &suffix);
        text::string_of(&out)
    }

    /// The id of a job registered at `now` for the task, with `random` as its last part.
    pub fn job_id_at(task_name: &str, now: &Timestamp, random: u32) -> (r: String)
        ensures
            r@ == job_id_at(*now, task_name@, random),
    {
        let stamp = now.format("%Y%m%d-%H%M%S");
        JobManager::job_id_from(stamp.as_str(), task_name, random)
    }

    /// A fresh id for a job of the task: the id for the present time and a number drawn
    /// from the clock.
    pub fn generate_job_id(task_name: &str) -> (r: String)
        ensures
            exists|now: Timestamp, random: u32| now.wf() && r@ == job_id_at(now, task_name@, random),
    {
        let now = Timestamp::now();
        let random = rand_id();
        let r = JobManager::job_id_at(task_name, &now, random);
        assert(now.wf() && r@ == job_id_at(now, task_name@, random));
        r
    }

    /// Where the record of a job is kept.
    pub fn job_path(&self, job_id: &str) -> (r: String)
        ensures
            r@ == joined_path(self.jobs_dir(), job_id@ + ".json"@),
    {
        let mut name: Vec<char> = text::chars_of(job_id);
        text::push_str(&mut name, ".json");
        let name = text::string_of(&name);
        paths::join(self.jobs_dir.as_str(), name.as_str())
    }

    /// Where the log of a job is kept.
    pub fn log_path(&self, job_id: &str) -> (r: String)
        ensures
            r@ == joined_path(self.jobs_dir(), job_id@ + ".log"@),
    {
        let mut name: Vec<char> = text::chars_of(job_id);
        text::push_str(&mut name, ".log");
        let name = text::string_of(&name);
        paths::join(self.jobs_dir.as_str(), name.as_str())
    }

    /// The position of the record with the id.
    fn position(&self, job_id: &str) -> (r: Option<usize>)
        ensures
            self.wf(),
            r is Some <==> has_id(self.records(), job_id@),
            r matches Some(i) ==> i < self.records().len() && i == index_of(
                self.records(),
                job_id@,
            ) && self.records()[i as int] == self.records@[i as int]@,
    {
        proof {
            use_type_invariant(self);
        }
        let wanted = text::chars_of(job_id);
        let mut i: usize = 0;
        while i < self.records.len()
            invariant
                i <= self.records.len(),
                wanted@ == job_id@,
                forall|k: int| 0 <= k < i ==> self.records()[k].id != job_id@,
                self.records().len() == self.records@.len(),
                self.wf(),
            decreases self.records.len() - i,
        {
            let here = text::chars_of(self.records[i].id());
            if text::same(&here, &wanted) {
                assert(self.records()[i as int].id == job_id@);
                assert(has_id(self.records(), job_id@));
                return Some(i);
            }
            i += 1;
        }
        None
    }

    /// Takes in a record, in the place of the record of the same id where there is one.
    pub fn adopt(&mut self, info: JobInfo)
        ensures
            final(self).records() == upserted(old(self).records(), info@),
            final(self).jobs_dir() == old(self).jobs_dir(),
            final(self).wf(),
    {
        proof {
            use_type_invariant(&*self);
            use_type_invariant(&info);
        }
        let ghost before = self.records();
        match self.position(info.id()) {
            Some(i) => {
                let mut all: Vec<JobInfo> = Vec::new();
                assert(records_of(all@) =~= Seq::<JobRecord>::empty());
                core::mem::swap(&mut all, &mut self.records);
                all.set(i, info);
                assert(records_of(all@) =~= before.update(i as int, info@));
                core::mem::swap(&mut all, &mut self.records);
            },
            None => {
                let mut all: Vec<JobInfo> = Vec::new();
                assert(records_of(all@) =~= Seq::<JobRecord>::empty());
                core::mem::swap(&mut all, &mut self.records);
                all.push(info);
                assert(records_of(all@) =~= before.push(info@));
                core::mem::swap(&mut all, &mut self.records);
            },
        }
    }

    /// Registers a job that started at `now`: its record is `Running` and not finished,
    /// and stands in the registry under its id.
    pub fn register_at(
        &mut self,
        job_id: &str,
        pid: u32,
        task_name: &str,
        transcript_path: &str,
        now: &Timestamp,
    ) -> (r: JobInfo)
        ensures
            r@ == running_record(job_id@, pid, task_name@, transcript_path@, *now),
            final(self).records() == upserted(old(self).records(), r@),
            final(self).jobs_dir() == old(self).jobs_dir(),
            final(self).wf(),
    {
        let info = JobInfo::running(job_id, pid, task_name, transcript_path, now);
        let copy = info.duplicate();
        self.adopt(info);
        copy
    }

    /// Registers a job that starts now.
    pub fn register(&mut self, job_id: &str, pid: u32, task_name: &str, transcript_path: &str) -> (r:
        JobInfo)
        ensures
            r@ == running_record(job_id@, pid, task_name@, transcript_path@, r@.started_at),
            final(self).records() == upserted(old(self).records(), r@),
            final(self).jobs_dir() == old(self).jobs_dir(),
            final(self).wf(),
    {
        let now = Timestamp::now();
        self.register_at(job_id, pid, task_name, transcript_path, &now)
    }

    /// The record of a job, or `NotFound`.
    pub fn load_job(&self, job_id: &str) -> (r: Result<JobInfo, JobError>)
        ensures
            r is Ok <==> has_id(self.records(), job_id@),
            r matches Ok(info) ==> info@ == record_of(self.records(), job_id@),
            r matches Err(e) ==> e == JobError::NotFound,
    {
        match self.position(job_id) {
            Some(i) => Ok(self.records[i].duplicate()),
            None => Err(JobError::NotFound),
        }
    }

    /// Records that a job has ended with `status` at `now`. A record that is finished
    /// already stays as it is.
    fn finish_at(&mut self, job_id: &str, status: JobStatus, now: &Timestamp) -> (r: Result<
        (),
        JobError,
    >)
        requires
            !(status@ is Running),
        ensures
            r is Ok <==> has_id(old(self).records(), job_id@),
            r is Ok ==> final(self).records() == old(self).records().update(
                index_of(old(self).records(), job_id@),
                finished(record_of(old(self).records(), job_id@), status@, *now),
            ),
            r matches Err(e) ==> e == JobError::NotFound && final(self).records() == old(
                self,
            ).records(),
            final(self).jobs_dir() == old(self).jobs_dir(),
            final(self).wf(),
    {
        proof {
            use_type_invariant(&*self);
        }
        let ghost before = self.records();
        match self.position(job_id) {
            Some(i) => {
                let next = self.records[i].finish(status, now);
                let mut all: Vec<JobInfo> = Vec::new();
                assert(records_of(all@) =~= Seq::<JobRecord>::empty());
                core::mem::swap(&mut all, &mut self.records);
                all.set(i, next);
                assert(records_of(all@) =~= before.update(i as int, next@));
                core::mem::swap(&mut all, &mut self.records);
                Ok(())
            },
            None => Err(JobError::NotFound),
        }
    }

    /// Records that a job completed at `now`.
    pub fn mark_completed_at(&mut self, job_id: &str, now: &Timestamp) -> (r: Result<(), JobError>)
        ensures
            r is Ok <==> has_id(old(self).records(), job_id@),
            r is Ok ==> final(self).records() == old(self).records().update(
                index_of(old(self).records(), job_id@),
                finished(record_of(old(self).records(), job_id@), StatusView::Completed, *now),
            ),
            r matches Err(e) ==> e == JobError::NotFound && final(self).records() == old(
                self,
            ).records(),
            final(self).jobs_dir() == old(self).jobs_dir(),
            final(self).wf(),
    {
        self.finish_at(job_id, JobStatus::Completed, now)
    }

    /// Records that a job completed now.
    pub fn mark_completed(&mut self, job_id: &str) -> (r: Result<(), JobError>)
        ensures
            r is Ok <==> has_id(old(self).records(), job_id@),
            r is Ok ==> exists|now: Timestamp|
                now.wf() && final(self).records() == old(self).records().update(
                    index_of(old(self).records(), job_id@),
                    finished(record_of(old(self).records(), job_id@), StatusView::Completed, now),
                ),
            r matches Err(e) ==> e == JobError::NotFound && final(self).records() == old(
                self,
            ).records(),
            final(self).jobs_dir() == old(self).jobs_dir(),
            final(self).wf(),
    {
        let now = Timestamp::now();
        let r = self.mark_completed_at(job_id, &now);
        proof {
            if r is Ok {
                assert(now.wf() && self.records() == old(self).records().update(
                    index_of(old(self).records(), job_id@),
                    finished(record_of(old(self).records(), job_id@), StatusView::Completed, now),
                ));
            }
        }
        r
    }

    /// Records that a job failed at `now` with the given error.
    pub fn mark_failed_at(&mut self, job_id: &str, error: &str, now: &Timestamp) -> (r: Result<
        (),
        JobError,
    >)
        ensures
            r is Ok <==> has_id(old(self).records(), job_id@),
            r is Ok ==> final(self).records() == old(self).records().update(
                index_of(old(self).records(), job_id@),
                finished(
                    record_of(old(self).records(), job_id@),
                    StatusView::Failed { error: error@ },
                    *now,
                ),
            ),
            r matches Err(e) ==> e == JobError::NotFound && final(self).records() == old(
                self,
            ).records(),
            final(self).jobs_dir() == old(self).jobs_dir(),
            final(self).wf(),
    {
        self.finish_at(job_id, JobStatus::Failed { error: String::from_str(error) }, now)
    }

    /// Records that a job failed now with the given error.
    pub fn mark_failed(&mut self, job_id: &str, error: &str) -> (r: Result<(), JobError>)
        ensures
            r is Ok <==> has_id(old(self).records(), job_id@),
            r is Ok ==> exists|now: Timestamp|
                now.wf() && final(self).records() == old(self).records().update(
                    index_of(old(self).records(), job_id@),
                    finished(
                        record_of(old(self).records(), job_id@),
                        StatusView::Failed { error: error@ },
                        now,
                    ),
                ),
            r matches Err(e) ==> e == JobError::NotFound && final(self).records() == old(
                self,
            ).records(),
            final(self).jobs_dir() == old(self).jobs_dir(),
            final(self).wf(),
    {
        let now = Timestamp::now();
        let r = self.mark_failed_at(job_id, error, &now);
        proof {
            if r is Ok {
                assert(now.wf() && self.records() == old(self).records().update(
                    index_of(old(self).records(), job_id@),
                    finished(
                        record_of(old(self).records(), job_id@),
                        StatusView::Failed { error: error@ },
                        now,
                    ),
                ));
            }
        }
        r
    }

    /// The process ids of the running jobs, in the order of their records: the processes
    /// to look for before a listing.
    pub fn running_pids(&self) -> (r: Vec<u32>)
        ensures
            r@ == running_pids_of(self.records()),
    {
        let mut out: Vec<u32> = Vec::new();
        let mut i: usize = 0;
        assert(self.records().subrange(0, 0) =~= Seq::<JobRecord>::empty());
        while i < self.records.len()
            invariant
                i <= self.records.len(),
                self.records().len() == self.records@.len(),
                out@ == running_pids_of(self.records().subrange(0, i as int)),
            decreases self.records.len() - i,
        {
            proof {
                let next = self.records().subrange(0, i + 1);
                assert(next.drop_last() =~= self.records().subrange(0, i as int));
                assert(next.last() == self.records@[i as int]@);
            }
            if self.records[i].status().is_running() {
                out.push(self.records[i].pid());
            }
            i += 1;
        }
        assert(self.records().subrange(0, self.records.len() as int) =~= self.records());
        out
    }

    /// Corrects the records of jobs whose process is gone: every running record whose
    /// process id is among `dead_pids` becomes a failed one that finished at `now`. The
    /// records so rewritten are returned as they stand now.
    pub fn reconcile_at(&mut self, dead_pids: &Vec<u32>, now: &Timestamp) -> (r: Vec<JobInfo>)
        ensures
            final(self).records() == all_reconciled(old(self).records(), dead_pids@, *now),
            records_of(r@) == rewritten(old(self).records(), dead_pids@, *now),
            final(self).jobs_dir() == old(self).jobs_dir(),
            final(self).wf(),
    {
        proof {
            use_type_invariant(&*self);
        }
        let ghost before = self.records();
        let mut all: Vec<JobInfo> = Vec::new();
        assert(records_of(all@) =~= Seq::<JobRecord>::empty());
        core::mem::swap(&mut all, &mut self.records);
        let mut changed: Vec<JobInfo> = Vec::new();
        let mut i: usize = 0;
        proof {
            assert(records_of(changed@) =~= Seq::<JobRecord>::empty());
            assert(before.subrange(0, 0) =~= Seq::<JobRecord>::empty());
        }
        while i < all.len()
            invariant
                i <= all.len(),
                all@.len() == before.len(),
                distinct_ids(before),
                records_of(changed@) == rewritten(before.subrange(0, i as int), dead_pids@, *now),
                forall|k: int| 0 <= k < i ==> (#[trigger] all@[k])@ == reconciled(
                    before[k],
                    dead_pids@,
                    *now,
                ),
                forall|k: int| i <= k < all@.len() ==> (#[trigger] all@[k])@ == before[k],
                forall|k: int| 0 <= k < all@.len() ==> record_wf((#[trigger] all@[k])@),
            decreases all.len() - i,
        {
            proof {
                let next = before.subrange(0, i + 1);
                assert(next.drop_last() =~= before.subrange(0, i as int));
                assert(next.last() == all@[i as int]@);
            }
            if all[i].status().is_running() && holds_pid(dead_pids, all[i].pid()) {
                let lost = JobStatus::Failed {
                    error: String::from_str("process terminated unexpectedly"),
                };
                let next = all[i].finish(lost, now);
                let ghost prior = records_of(changed@);
                let copy = next.duplicate();
                changed.push(copy);
                assert(records_of(changed@) =~= prior.push(next@));
                all.set(i, next);
            }
            i += 1;
        }
        proof {
            assert(before.subrange(0, before.len() as int) =~= before);
            assert(records_of(all@) =~= all_reconciled(before, dead_pids@, *now));
            assert(distinct_ids(records_of(all@))) by {
                assert forall|a: int, b: int| 0 <= a < b < all@.len() implies records_of(
                    all@,
                )[a].id != records_of(all@)[b].id by {
                    assert(all@[a]@.id == before[a].id);
                    assert(all@[b]@.id == before[b].id);
                }
            }
        }
        core::mem::swap(&mut all, &mut self.records);
        changed
    }

    /// Corrects, now, the records of jobs whose process is gone.
    pub fn reconcile(&mut self, dead_pids: &Vec<u32>) -> (r: Vec<JobInfo>)
        ensures
            exists|now: Timestamp|
                now.wf() && final(self).records() == all_reconciled(
                    old(self).records(),
                    dead_pids@,
                    now,
                ) && records_of(r@) == rewritten(old(self).records(), dead_pids@, now),
            final(self).jobs_dir() == old(self).jobs_dir(),
            final(self).wf(),
    {
        let now = Timestamp::now();
        let r = self.reconcile_at(dead_pids, &now);
        assert(now.wf() && self.records() == all_reconciled(old(self).records(), dead_pids@, now)
            && records_of(r@) == rewritten(old(self).records(), dead_pids@, now));
        r
    }

    /// The listing at `now`: the records are reconciled first, then those shown are given
    /// newest first.
    pub fn list_at(&mut self, include_completed: bool, dead_pids: &Vec<u32>, now: &Timestamp) -> (r:
        Vec<JobInfo>)
        ensures
            final(self).records() == all_reconciled(old(self).records(), dead_pids@, *now),
            records_of(r@) == listed(final(self).records(), include_completed),
            final(self).jobs_dir() == old(self).jobs_dir(),
            final(self).wf(),
    {
        let _ = self.reconcile_at(dead_pids, now);
        self.listing(include_completed)
    }

    /// The listing at the present time.
    pub fn list(&mut self, include_completed: bool, dead_pids: &Vec<u32>) -> (r: Vec<JobInfo>)
        ensures
            exists|now: Timestamp|
                now.wf() && final(self).records() == all_reconciled(
                    old(self).records(),
                    dead_pids@,
                    now,
                ),
            records_of(r@) == listed(final(self).records(), include_completed),
            final(self).jobs_dir() == old(self).jobs_dir(),
            final(self).wf(),
    {
        let now = Timestamp::now();
        let r = self.list_at(include_completed, dead_pids, &now);
        assert(now.wf() && self.records() == all_reconciled(old(self).records(), dead_pids@, now));
        r
    }

    /// The records shown, newest first, as they stand.
    pub fn listing(&self, include_completed: bool) -> (r: Vec<JobInfo>)
        ensures
            records_of(r@) == listed(self.records(), include_completed),
            self.wf(),
    {
        proof {
            use_type_invariant(self);
        }
        let mut out: Vec<JobInfo> = Vec::new();
        let mut i: usize = 0;
        assert(records_of(out@) =~= Seq::<JobRecord>::empty());
        assert(self.records().subrange(0, 0) =~= Seq::<JobRecord>::empty());
        while i < self.records.len()
            invariant
                i <= self.records.len(),
                self.records().len() == self.records@.len(),
                records_of(out@) == listed(self.records().subrange(0, i as int), include_completed),
            decreases self.records.len() - i,
        {
            proof {
                let next = self.records().subrange(0, i + 1);
                assert(next.drop_last() =~= self.records().subrange(0, i as int));
                assert(next.last() == self.records@[i as int]@);
            }
            if include_completed || self.records[i].status().is_running() {
                insert_newest_first(&mut out, self.records[i].duplicate());
            }
            i += 1;
        }
        assert(self.records().subrange(0, self.records.len() as int) =~= self.records());
        out
    }

    /// The process to signal in order to terminate a job: the process id of its record
    /// where that is running, nothing where the job has ended, `NotFound` where there is
    /// no such job.
    pub fn kill_target(&self, job_id: &str) -> (r: Result<Option<u32>, JobError>)
        ensures
            r is Ok <==> has_id(self.records(), job_id@),
            r matches Ok(target) ==> target == (if record_of(
                self.records(),
                job_id@,
            ).status is Running {
                Some(record_of(self.records(), job_id@).pid)
            } else {
                None
            }),
            r matches Err(e) ==> e == JobError::NotFound,
    {
        match self.position(job_id) {
            Some(i) => {
                if self.records[i].status().is_running() {
                    Ok(Some(self.records[i].pid()))
                } else {
                    Ok(None)
                }
            },
            None => Err(JobError::NotFound),
        }
    }

    /// Records the outcome of a request to terminate a job, made at `now`. `delivered`
    /// says whether the signal reached the process named by `kill_target`. The job counts
    /// as killed, and its record becomes a failed one, only where the record was running
    /// and the signal was delivered; otherwise nothing changes and the answer is `false`.
    pub fn kill_at(&mut self, job_id: &str, delivered: bool, now: &Timestamp) -> (r: Result<
        bool,
        JobError,
    >)
        ensures
            r is Ok <==> has_id(old(self).records(), job_id@),
            r matches Ok(killed) ==> killed == (delivered && record_of(
                old(self).records(),
                job_id@,
            ).status is Running),
            r matches Ok(killed) ==> final(self).records() == (if killed {
                old(self).records().update(
                    index_of(old(self).records(), job_id@),
                    finished(record_of(old(self).records(), job_id@), killed_status(), *now),
                )
            } else {
                old(self).records()
            }),
            r matches Err(e) ==> e == JobError::NotFound && final(self).records() == old(
                self,
            ).records(),
            final(self).jobs_dir() == old(self).jobs_dir(),
            final(self).wf(),
    {
        proof {
            use_type_invariant(&*self);
        }
        match self.position(job_id) {
            Some(i) => {
                if delivered && self.records[i].status().is_running() {
                    let _ = self.mark_failed_at(job_id, "Killed by user", now);
                    Ok(true)
                } else {
                    Ok(false)
                }
            },
            None => Err(JobError::NotFound),
        }
    }

    /// Records the outcome of a request to terminate a job, made now.
    pub fn kill(&mut self, job_id: &str, delivered: bool) -> (r: Result<bool, JobError>)
        ensures
            r is Ok <==> has_id(old(self).records(), job_id@),
            r matches Ok(killed) ==> killed == (delivered && record_of(
                old(self).records(),
                job_id@,
            ).status is Running),
            r matches Ok(killed) ==> !killed ==> final(self).records() == old(self).records(),
            r matches Ok(killed) ==> killed ==> exists|now: Timestamp|
                now.wf() && final(self).records() == old(self).records().update(
                    index_of(old(self).records(), job_id@),
                    finished(record_of(old(self).records(), job_id@), killed_status(), now),
                ),
            r matches Err(e) ==> e == JobError::NotFound && final(self).records() == old(
                self,
            ).records(),
            final(self).jobs_dir() == old(self).jobs_dir(),
            final(self).wf(),
    {
        let now = Timestamp::now();
        let r = self.kill_at(job_id, delivered, &now);
        proof {
            if r == Ok::<bool, JobError>(true) {
                assert(now.wf() && self.records() == old(self).records().update(
                    index_of(old(self).records(), job_id@),
                    finished(record_of(old(self).records(), job_id@), killed_status(), now),
                ));
            }
        }
        r
    }

    /// The records that a clean-up at `now` would remove: those of ended jobs that started
    /// more than `keep_days` days before.
    pub fn cleanup_candidates_at(&self, keep_days: u32, now: &Timestamp) -> (r: Vec<JobInfo>)
        ensures
            records_of(r@) == removed(self.records(), keep_days as int, *now),
    {
        let mut out: Vec<JobInfo> = Vec::new();
        let mut i: usize = 0;
        assert(records_of(out@) =~= Seq::<JobRecord>::empty());
        assert(self.records().subrange(0, 0) =~= Seq::<JobRecord>::empty());
        while i < self.records.len()
            invariant
                i <= self.records.len(),
                self.records().len() == self.records@.len(),
                records_of(out@) == removed(
                    self.records().subrange(0, i as int),
                    keep_days as int,
                    *now,
                ),
            decreases self.records.len() - i,
        {
            proof {
                let next = self.records().subrange(0, i + 1);
                assert(next.drop_last() =~= self.records().subrange(0, i as int));
                assert(next.last() == self.records@[i as int]@);
            }
            if is_removable(&self.records[i], keep_days, now) {
                let ghost prior = records_of(out@);
                let copy = self.records[i].duplicate();
                out.push(copy);
                assert(records_of(out@) =~= prior.push(copy@));
            }
            i += 1;
        }
        assert(self.records().subrange(0, self.records.len() as int) =~= self.records());
        out
    }

    /// Removes, at `now`, the records of ended jobs that started more than `keep_days`
    /// days before, and says how many they were. Running jobs stay, whatever their age.
    pub fn cleanup_at(&mut self, keep_days: u32, now: &Timestamp) -> (r: usize)
        ensures
            final(self).records() == retained(old(self).records(), keep_days as int, *now),
            r == removed(old(self).records(), keep_days as int, *now).len(),
            final(self).jobs_dir() == old(self).jobs_dir(),
            final(self).wf(),
    {
        proof {
            use_type_invariant(&*self);
        }
        let ghost before = self.records();
        let mut all: Vec<JobInfo> = Vec::new();
        assert(records_of(all@) =~= Seq::<JobRecord>::empty());
        core::mem::swap(&mut all, &mut self.records);
        let mut kept: Vec<JobInfo> = Vec::new();
        let mut gone: usize = 0;
        let ghost mut origin: Seq<int> = Seq::empty();
        let mut i: usize = 0;
        assert(records_of(kept@) =~= Seq::<JobRecord>::empty());
        assert(before.subrange(0, 0) =~= Seq::<JobRecord>::empty());
        while i < all.len()
            invariant
                i <= all.len(),
                records_of(all@) == before,
                all@.len() == before.len(),
                distinct_ids(before),
                forall|k: int| 0 <= k < before.len() ==> record_wf(#[trigger] before[k]),
                records_of(kept@) == retained(before.subrange(0, i as int), keep_days as int, *now),
                gone == removed(before.subrange(0, i as int), keep_days as int, *now).len(),
                gone <= i,
                origin.len() == kept@.len(),
                forall|k: int|
                    0 <= k < kept@.len() ==> 0 <= #[trigger] origin[k] < i && kept@[k]@
                        == before[origin[k]],
                distinct_ids(records_of(kept@)),
            decreases all.len() - i,
        {
            proof {
                let next = before.subrange(0, i + 1);
                assert(next.drop_last() =~= before.subrange(0, i as int));
                assert(next.last() == all@[i as int]@);
            }
            if is_removable(&all[i], keep_days, now) {
                gone += 1;
            } else {
                let ghost prior = records_of(kept@);
                let copy = all[i].duplicate();
                proof {
                    assert forall|k: int| 0 <= k < kept@.len() implies kept@[k]@.id
                        != copy@.id by {
                        assert(kept@[k]@ == before[origin[k]]);
                        assert(copy@ == before[i as int]);
                    }
                    origin = origin.push(i as int);
                }
                kept.push(copy);
                assert(records_of(kept@) =~= prior.push(copy@));
            }
            i += 1;
        }
        proof {
            assert(before.subrange(0, all.len() as int) =~= before);
            assert forall|k: int| 0 <= k < kept@.len() implies record_wf(
                #[trigger] kept@[k]@,
            ) by {
                assert(kept@[k]@ == before[origin[k]]);
            }
        }
        core::mem::swap(&mut kept, &mut self.records);
        gone
    }

    /// The records that a clean-up made now would remove.
    pub fn cleanup_candidates(&self, keep_days: u32) -> (r: Vec<JobInfo>)
        ensures
            exists|now: Timestamp|
                now.wf() && records_of(r@) == removed(self.records(), keep_days as int, now),
    {
        let now = Timestamp::now();
        let r = self.cleanup_candidates_at(keep_days, &now);
        assert(now.wf() && records_of(r@) == removed(self.records(), keep_days as int, now));
        r
    }

    /// Removes the records of ended jobs that started more than `keep_days` days ago.
    pub fn cleanup(&mut self, keep_days: u32) -> (r: usize)
        ensures
            exists|now: Timestamp|
                now.wf() && final(self).records() == retained(
                    old(self).records(),
                    keep_days as int,
                    now,
                ) && r == removed(old(self).records(), keep_days as int, now).len(),
            final(self).jobs_dir() == old(self).jobs_dir(),
            final(self).wf(),
    {
        let now = Timestamp::now();
        let r = self.cleanup_at(keep_days, &now);
        assert(now.wf() && self.records() == retained(old(self).records(), keep_days as int, now)
            && r == removed(old(self).records(), keep_days as int, now).len());
        r
    }

    /// The content of a log as a reader asked for it. `content` is what the log file
    /// holds, or nothing where there is no such file, which is an error of its own.
    pub fn read_log(&self, content: Option<&str>, tail_lines: Option<usize>) -> (r: Result<
        String,
        JobError,
    >)
        ensures
            r is Ok <==> content is Some,
            r matches Ok(shown) ==> shown@ == log_view(content->0@, tail_lines),
            r matches Err(e) ==> e == JobError::LogMissing,
    {
        match content {
            Some(content) => {
                match tail_lines {
                    Some(n) => {
                        let chars = text::chars_of(content);
                        let all = text::split_lines(&chars);
                        let start: usize = if n >= all.len() {
                            0
                        } else {
                            all.len() - n
                        };
                        proof {
                            if n >= all.len() {
                                assert(text::views(all@).subrange(0, all.len() as int)
                                    =~= text::views(all@));
                            }
                        }
                        let joined = text::join_range(&all, start, all.len(), "\n");
                        Ok(text::string_of(&joined))
                    },
                    None => Ok(String::from_str(content)),
                }
            },
            None => Err(JobError::LogMissing),
        }
    }

    /// What a log is to be replaced with once its job has ended: nothing while it is no
    /// larger than `max_bytes`; beyond that the trailing half of its lines, after a line
    /// that says how many they are.
    pub fn truncate_log_if_needed(&self, content: &str, max_bytes: u64) -> (r: Option<String>)
        ensures
            r is Some <==> content.len() > max_bytes,
            r matches Some(cut) ==> cut@ == truncated_log(content@),
    {
        if content.len() as u64 <= max_bytes {
            return None;
        }
        let chars = text::chars_of(content);
        let all = text::split_lines(&chars);
        let keep_from: usize = all.len() / 2;
        let joined = text::join_range(&all, keep_from, all.len(), "\n");
        let mut out: Vec<char> = Vec::new();
        text::push_str(&mut out, "[... log truncated, showing last ");
        text::push_decimal(&mut out, (all.len() - keep_from) as u64);
        text::push_str(&mut out, " lines ...]");
        text::push_str(&mut out, "\n");
        text::push_all(&mut out, &joined);
        Some(text::string_of(&out))
    }
}

/// Whether a clean-up at `now` that keeps `keep_days` days removes the record.
pub fn is_removable(info: &JobInfo, keep_days: u32, now: &Timestamp) -> (r: bool)
    ensures
        r == removable(info@, keep_days as int, *now),
{
    !info.status().is_running() && info.started_at().is_older_than(now, keep_days)
}

/// Puts a record into a listing that is ordered newest first: before the first record
/// that started strictly earlier.
pub fn insert_newest_first(out: &mut Vec<JobInfo>, info: JobInfo)
    ensures
        records_of(final(out)@) == inserted(records_of(old(out)@), info@),
{
    let ghost acc = records_of(out@);
    let started = info.started_at();
    let mut p: usize = 0;
    while p < out.len() && !out[p].started_at().is_before(&started)
        invariant
            p <= out.len(),
            acc == records_of(out@),
            started == info@.started_at,
            insertion_point(acc, started.instant(), 0) == insertion_point(
                acc,
                started.instant(),
                p as int,
            ),
        decreases out.len() - p,
    {
        p += 1;
    }
    out.insert(p, info);
    assert(records_of(out@) =~= acc.insert(p as int, info@));
}

} // verus!
