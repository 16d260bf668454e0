//! The shapes of the answers of the dashboard.

use crate::clock::{formatted_time, whole_seconds, Timestamp};
use crate::jobs::manager::{human_duration, JobInfo, StatusView};
use vstd::prelude::*;

verus! {

/// The envelope of every answer: the data of a success, or the message of a failure.
#[derive(Debug, Clone)]
pub struct ApiResponse<T> {
    pub success: bool,
    pub data: Option<T>,
    pub error: Option<String>,
}

impl<T> ApiResponse<T> {
    /// The answer that carries the data.
    pub fn success(data: T) -> (r: Self)
        ensures
            r.success,
            r.data == Some(data),
            r.error is None,
    {
        Self { success: true, data: Some(data), error: None }
    }

    /// The answer that carries the message of a failure.
    pub fn error(message: &str) -> (r: Self)
        ensures
            !r.success,
            r.data is None,
            r.error matches Some(m) && m@ == message@,
    {
        Self { success: false, data: None, error: Some(String::from_str(message)) }
    }
}

/// A date of the archive.
#[derive(Debug, Clone)]
pub struct DateInfo {
    pub date: String,
    pub session_count: usize,
    pub has_digest: bool,
}

/// A session in a list.
#[derive(Debug, Clone)]
pub struct SessionBrief {
    pub name: String,
    pub title: String,
    pub summary_preview: String,
}

/// The summary of a day.
#[derive(Debug, Clone)]
pub struct DailySummaryDto {
    pub date: String,
    pub overview: String,
    pub session_count: usize,
    pub sessions: Vec<String>,
    pub insights: Option<String>,
    pub skills: Option<String>,
    pub commands: Option<String>,
    pub reflections: Option<String>,
    pub tomorrow_focus: Option<String>,
    pub raw_content: String,
    pub file_path: String,
}

/// A session in full.
#[derive(Debug, Clone)]
pub struct SessionDetailDto {
    pub name: String,
    pub content: String,
    pub metadata: SessionMetadata,
    pub file_path: String,
}

/// What the front matter of an archived session tells.
#[derive(Debug, Clone)]
pub struct SessionMetadata {
    pub title: String,
    pub date: String,
    pub session_id: Option<String>,
    pub cwd: Option<String>,
    pub git_branch: Option<String>,
    pub duration: Option<String>,
}

impl Default for SessionMetadata {
    fn default() -> (r: Self)
        ensures
            r.title@.len() == 0,
            r.date@.len() == 0,
            r.session_id is None,
            r.cwd is None,
            r.git_branch is None,
            r.duration is None,
    {
        SessionMetadata {
            title: String::new(),
            date: String::new(),
            session_id: None,
            cwd: None,
            git_branch: None,
            duration: None,
        }
    }
}

/// A job as the dashboard shows it.
#[derive(Debug, Clone)]
pub struct JobDto {
    pub id: String,
    pub pid: u32,
    pub task_name: String,
    pub status: String,
    pub status_type: String,
    pub started_at: String,
    pub finished_at: Option<String>,
    pub elapsed: String,
}

/// The log of a job.
#[derive(Debug, Clone)]
pub struct JobLogDto {
    pub id: String,
    pub content: String,
}

/// The answer to a request for a digest.
#[derive(Debug, Clone)]
pub struct DigestResponse {
    pub message: String,
    pub session_count: usize,
}

/// What is pushed to an open dashboard.
#[derive(Debug, Clone)]
pub enum WsMessage {
    JobUpdated(JobDto),
    NewSession { date: String, name: String },
    DigestCompleted { date: String },
    Connected,
}

/// The prompt templates as the dashboard shows them.
#[derive(Debug, Clone)]
pub struct PromptTemplatesDto {
    pub session_summary: Option<String>,
    pub daily_summary: Option<String>,
    pub skill_extract: Option<String>,
    pub command_extract: Option<String>,
}

/// The settings as the dashboard shows them.
#[derive(Debug, Clone)]
pub struct ConfigDto {
    pub storage_path: String,
    pub model: String,
    pub summary_language: String,
    pub enable_daily_summary: bool,
    pub enable_extraction_hints: bool,
    pub auto_digest_enabled: bool,
    pub digest_time: String,
    pub author: Option<String>,
    pub prompt_templates: PromptTemplatesDto,
    pub auto_summarize_enabled: bool,
    pub auto_summarize_on_show: bool,
    pub auto_summarize_inactive_minutes: u64,
}

/// A change of the prompt templates.
#[derive(Debug, Clone)]
pub struct PromptTemplatesUpdateRequest {
    pub session_summary: Option<String>,
    pub daily_summary: Option<String>,
    pub skill_extract: Option<String>,
    pub command_extract: Option<String>,
}

/// A change of the settings: each part that is present replaces the setting.
#[derive(Debug, Clone)]
pub struct ConfigUpdateRequest {
    pub summary_language: Option<String>,
    pub model: Option<String>,
    pub enable_daily_summary: Option<bool>,
    pub enable_extraction_hints: Option<bool>,
    pub auto_digest_enabled: Option<bool>,
    pub digest_time: Option<String>,
    pub author: Option<String>,
    pub prompt_templates: Option<PromptTemplatesUpdateRequest>,
    pub auto_summarize_enabled: Option<bool>,
    pub auto_summarize_on_show: Option<bool>,
    pub auto_summarize_inactive_minutes: Option<u64>,
}

/// The built-in prompt templates, in both languages.
#[derive(Debug, Clone)]
pub struct DefaultTemplatesDto {
    pub session_summary_en: String,
    pub session_summary_zh: String,
    pub daily_summary_en: String,
    pub daily_summary_zh: String,
    pub skill_extract_en: String,
    pub skill_extract_zh: String,
    pub command_extract_en: String,
    pub command_extract_zh: String,
}

/// The status of a job for a reader.
pub open spec fn status_text(status: StatusView) -> Seq<char> {
    match status {
        StatusView::Running => "Running"@,
        StatusView::Completed => "Completed"@,
        StatusView::Failed { error } => "Failed: "@ + error,
    }
}

/// The kind of a status, for the dashboard to style it.
pub open spec fn status_kind(status: StatusView) -> Seq<char> {
    match status {
        StatusView::Running => "running"@,
        StatusView::Completed => "completed"@,
        StatusView::Failed { error } => "failed"@,
    }
}

/// An instant as the dashboard shows it.
pub open spec fn shown_time(t: Timestamp) -> Seq<char> {
    formatted_time(t.secs(), t.nanos(), t.offset(), "%Y-%m-%d %H:%M:%S"@)
}

impl JobDto {
    /// The job as the dashboard shows it at `now`.
    pub fn from_job_at(info: &JobInfo, now: &Timestamp) -> (r: JobDto)
        ensures
            r.id@ == info@.id,
            r.pid == info@.pid,
            r.task_name@ == info@.task_name,
            r.status@ == status_text(info@.status),
            r.status_type@ == status_kind(info@.status),
            r.started_at@ == shown_time(info@.started_at),
            match info@.finished_at {
                Some(t) => r.finished_at matches Some(s) && s@ == shown_time(t),
                None => r.finished_at is None,
            },
            r.elapsed@ == human_duration(
                whole_seconds(
                    match info@.finished_at {
                        Some(end) => end.instant(),
                        None => now.instant(),
                    } - info@.started_at.instant(),
                ),
            ),
    {
        let status = info.status().to_string();
        let status_type = match info.status() {
            crate::jobs::JobStatus::Running => String::from_str("running"),
            crate::jobs::JobStatus::Completed => String::from_str("completed"),
            crate::jobs::JobStatus::Failed { .. } => String::from_str("failed"),
        };
        let started_at = info.started_at().format("%Y-%m-%d %H:%M:%S");
        let finished_at = match info.finished_at() {
            Some(t) => Some(t.format("%Y-%m-%d %H:%M:%S")),
            None => None,
        };
        JobDto {
            id: String::from_str(info.id()),
            pid: info.pid(),
            task_name: String::from_str(info.task_name()),
            status,
            status_type,
            started_at,
            finished_at,
            elapsed: info.elapsed_human_at(now),
        }
    }

    /// The job as the dashboard shows it now.
    pub fn from_job(info: &JobInfo) -> (r: JobDto)
        ensures
            r.id@ == info@.id,
            r.pid == info@.pid,
            r.task_name@ == info@.task_name,
            r.status@ == status_text(info@.status),
            r.status_type@ == status_kind(info@.status),
            r.started_at@ == shown_time(info@.started_at),
            match info@.finished_at {
                Some(t) => r.finished_at matches Some(s) && s@ == shown_time(t),
                None => r.finished_at is None,
            },
            exists|now: Timestamp|
                now.wf() && r.elapsed@ == human_duration(
                    whole_seconds(
                        match info@.finished_at {
                            Some(end) => end.instant(),
                            None => now.instant(),
                        } - info@.started_at.instant(),
                    ),
                ),
    {
        let now = Timestamp::now();
        let r = JobDto::from_job_at(info, &now);
        assert(now.wf() && r.elapsed@ == human_duration(
            whole_seconds(
                match info@.finished_at {
                    Some(end) => end.instant(),
                    None => now.instant(),
                } - info@.started_at.instant(),
            ),
        ));
        r
    }
}

} // verus!
