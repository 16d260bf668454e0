//! Reading what the summarizer answered.

use crate::archive::session::code_changes_of;
use crate::archive::{DailySummary, SessionArchive};
use crate::clock::{formatted_time, Timestamp};
use crate::config::Config;
use crate::paths;
use crate::paths::file_stem_of;
use crate::text;
use crate::text::{find, lowercase, rfind, string_views, trim, trim_end_char};
use crate::transcript::parser::opt_view;
use crate::transcript::TranscriptData;
use vstd::prelude::*;

verus! {

/// Longest topic, in characters, that goes into a file name.
pub const MAX_TOPIC_CHARS: usize = 50;

/// Most characters taken of an archive that has no summary section.
pub const MAX_FALLBACK_CHARS: usize = 500;

/// The engine that asks for summaries.
pub struct SummarizerEngine {
    config: Config,
}

/// What the summarizer says of a session.
#[derive(Debug, Clone)]
pub struct SessionSummaryResponse {
    pub topic: String,
    pub summary: String,
    pub decisions: String,
    pub learnings: String,
    pub skill_hints: String,
}

/// What the summarizer says of a day.
#[derive(Debug, Clone)]
pub struct DailySummaryResponse {
    pub overview: String,
    pub session_details: String,
    pub insights: String,
    pub skills: String,
    pub commands: String,
    pub reflections: String,
    pub tomorrow_focus: String,
}

/// The title of a session summarized at `now`: the time of day and the topic made fit for
/// a file name.
pub open spec fn session_title(topic: Seq<char>, now: Timestamp) -> Seq<char> {
    formatted_time(now.secs(), now.nanos(), now.offset(), "%H_%M"@) + "-"@ + sanitized_topic(
        topic,
    )
}

/// The arguments that make the summarizer answer one prompt and leave no trace: the model,
/// printing, no hooks, no stored session, no tool servers.
pub open spec fn summarizer_args(model: Seq<char>) -> Seq<Seq<char>> {
    seq![
        "--model"@,
        model,
        "--print"@,
        "-p"@,
        "--settings"@,
        "{\"hooks\":{}}"@,
        "--no-session-persistence"@,
        "--strict-mcp-config"@,
    ]
}

/// `s` from position `from` to its end.
pub open spec fn tail(s: Seq<char>, from: int) -> Seq<char> {
    if 0 <= from <= s.len() {
        s.subrange(from, s.len() as int)
    } else {
        Seq::empty()
    }
}

/// Where the fenced block that opens at `start` ends, counted from `start`: at the first
/// fence that is followed by a line feed, or else at the last fence.
pub open spec fn fence_end(response: Seq<char>, start: int) -> Option<int> {
    match find(tail(response, start), "```\n"@) {
        Some(end) => Some(end),
        None => rfind(tail(response, start), "```"@),
    }
}

/// The content of the block fenced as `json`, where there is one that is not empty.
pub open spec fn fenced_json(response: Seq<char>) -> Option<Seq<char>> {
    match find(response, "```json"@) {
        Some(start) => match fence_end(response, start) {
            Some(end) => if end > 7 {
                Some(trim(response.subrange(start + 7, start + end)))
            } else {
                None
            },
            None => None,
        },
        None => None,
    }
}

/// The text from the first opening brace to the last closing brace, where the one stands
/// before the other.
pub open spec fn braced_json(response: Seq<char>) -> Option<Seq<char>> {
    match find(response, "{"@) {
        Some(start) => match rfind(response, "}"@) {
            Some(end) => if end > start {
                Some(response.subrange(start, end + 1))
            } else {
                None
            },
            None => None,
        },
        None => None,
    }
}

/// The JSON in an answer: the content of the block fenced as `json`, else the text from
/// the first opening to the last closing brace, else the answer itself.
pub open spec fn json_of(response: Seq<char>) -> Seq<char> {
    match fenced_json(response) {
        Some(json) => json,
        None => match braced_json(response) {
            Some(json) => json,
            None => response,
        },
    }
}

/// A character of a topic made fit for a file name: lower-case letters, digits and the
/// hyphen stay, every other character becomes a hyphen.
pub open spec fn topic_char(c: char) -> char {
    if ('a' <= c && c <= 'z') || ('0' <= c && c <= '9') || c == '-' {
        c
    } else {
        '-'
    }
}

/// `s` without its leading hyphens and with every run of hyphens made one.
pub open spec fn collapsed(s: Seq<char>) -> Seq<char>
    decreases s.len(),
{
    if s.len() == 0 {
        Seq::empty()
    } else {
        let rest = collapsed(s.drop_last());
        if s.last() == '-' {
            if rest.len() == 0 || (s.len() >= 2 && s[s.len() - 2] == '-') {
                rest
            } else {
                rest.push('-')
            }
        } else {
            rest.push(s.last())
        }
    }
}

/// A topic made fit for a file name: trimmed, in lower case, with hyphens for all but
/// lower-case letters and digits, no hyphen doubled, none at either end, at most fifty
/// characters, and `session` where nothing is left.
pub open spec fn sanitized_topic(topic: Seq<char>) -> Seq<char> {
    let cleaned = trim_end_char(
        collapsed(lowercase(trim(topic)).map_values(|c: char| topic_char(c))),
        '-',
    );
    if cleaned.len() > 50 {
        trim_end_char(cleaned.subrange(0, 50), '-')
    } else if cleaned.len() == 0 {
        "session"@
    } else {
        cleaned
    }
}

/// The summary of an archived session: what stands between the heading `## Summary` and
/// the next heading of that level, trimmed; the first five hundred characters where there
/// is no such heading.
pub open spec fn summary_section(content: Seq<char>) -> Seq<char> {
    match find(content, "## Summary"@) {
        Some(start) => {
            let after = tail(content, start + 10);
            match find(after, "\n## "@) {
                Some(end) => trim(after.subrange(0, end)),
                None => trim(after),
            }
        },
        None => if content.len() > 500 {
            content.subrange(0, 500)
        } else {
            content
        },
    }
}

/// The content of the block fenced as `markdown`, where it is closed.
pub open spec fn fenced_markdown(response: Seq<char>) -> Option<Seq<char>> {
    match find(response, "```markdown"@) {
        Some(start) => {
            let after = tail(response, start + 11);
            match find(after, "```"@) {
                Some(end) => Some(trim(after.subrange(0, end))),
                None => None,
            }
        },
        None => None,
    }
}

/// The content of the first fenced block, after the line that opens it, where the block
/// is closed.
pub open spec fn fenced_block(response: Seq<char>) -> Option<Seq<char>> {
    match find(response, "```"@) {
        Some(start) => {
            let after = tail(response, start + 3);
            let content_start = match find(after, "\n"@) {
                Some(i) => i + 1,
                None => 1,
            };
            let body = tail(after, content_start);
            match find(body, "```"@) {
                Some(end) => Some(trim(body.subrange(0, end))),
                None => None,
            }
        },
        None => None,
    }
}

/// The markdown in an answer: the content of the block fenced as `markdown`, else that of
/// the first fenced block, else the answer itself, trimmed.
pub open spec fn markdown_of(response: Seq<char>) -> Seq<char> {
    match fenced_markdown(response) {
        Some(md) => md,
        None => match fenced_block(response) {
            Some(md) => md,
            None => trim(response),
        },
    }
}

/// `s` from position `from` to its end.
pub fn tail_of(s: &Vec<char>, from: usize) -> (r: Vec<char>)
    ensures
        r@ == tail(s@, from as int),
{
    if from <= s.len() {
        text::slice(s, from, s.len())
    } else {
        Vec::new()
    }
}

impl SummarizerEngine {
    pub fn new(config: Config) -> (r: Self)
        ensures
            r.config() == config,
    {
        Self { config }
    }

    /// The configuration the engine works with.
    pub closed spec fn config(&self) -> Config {
        self.config
    }

    /// The configuration the engine works with.
    pub fn settings(&self) -> (r: &Config)
        ensures
            *r == self.config(),
    {
        &self.config
    }

    /// The arguments that the summarizer is started with.
    pub fn invoke_args(&self) -> (r: Vec<String>)
        ensures
            string_views(r@) == summarizer_args(self.config().summarization.model@),
    {
        let mut args: Vec<String> = Vec::new();
        args.push(String::from_str("--model"));
        args.push(self.config.summarization.model.clone());
        args.push(String::from_str("--print"));
        args.push(String::from_str("-p"));
        args.push(String::from_str("--settings"));
        args.push(String::from_str("{\"hooks\":{}}"));
        args.push(String::from_str("--no-session-persistence"));
        args.push(String::from_str("--strict-mcp-config"));
        assert(string_views(args@) =~= summarizer_args(self.config().summarization.model@));
        args
    }

    /// The archive of a session that was summarized at `now`: titled by the time and the
    /// topic, dated by the day, with the tool calls and files of the transcript and the
    /// parts of the summary.
    pub fn summarize_session_at(
        &self,
        transcript_path: &str,
        cwd: &str,
        git_branch: Option<String>,
        data: &TranscriptData,
        response: SessionSummaryResponse,
        now: &Timestamp,
    ) -> (r: SessionArchive)
        ensures
            r.title@ == session_title(response.topic@, *now),
            r.date@ == formatted_time(now.secs(), now.nanos(), now.offset(), "%Y-%m-%d"@),
            r.session_id@ == (match file_stem_of(transcript_path@) {
                Some(stem) => stem,
                None => "unknown"@,
            }),
            r.cwd@ == cwd@,
            opt_view(r.transcript_path) == Some(transcript_path@),
            r.git_branch == git_branch,
            r.duration is None,
            r.tool_calls == data.tool_calls@.len(),
            r.code_changes@ == code_changes_of(string_views(data.files_modified@)),
            r.summary == response.summary,
            r.decisions == response.decisions,
            r.learnings == response.learnings,
            r.skill_hints == response.skill_hints,
    {
        let mut title: Vec<char> = Vec::new();
        let prefix = now.format("%H_%M");
        text::push_str(&mut title, prefix.as_str());
        text::push_str(&mut title, "-");
        let topic = sanitize_topic(response.topic.as_str());
        text::push_str(&mut title, topic.as_str());
        let title = text::string_of(&title);
        let today = now.format("%Y-%m-%d");
        let session_id = match paths::file_stem(transcript_path) {
            Some(stem) => stem,
            None => String::from_str("unknown"),
        };
        let archive = SessionArchive::new(title, today, session_id, String::from_str(cwd));
        let archive = archive.with_transcript_data(data);
        let mut archive = archive.with_summary(
            response.summary,
            response.decisions,
            response.learnings,
            response.skill_hints,
        );
        archive.git_branch = git_branch;
        archive.transcript_path = Some(String::from_str(transcript_path));
        archive
    }

    /// Whether the summarizer has anything to work on for a day: sessions, or a summary
    /// that exists.
    pub fn has_material(session_count: usize, summary_exists: bool) -> (r: bool)
        ensures
            r == (session_count > 0 || summary_exists),
    {
        session_count > 0 || summary_exists
    }

    /// The summary of a day made of what the summarizer said of its sessions.
    pub fn update_daily_summary(date: &str, sessions: Vec<String>, response: DailySummaryResponse) -> (r:
        DailySummary)
        ensures
            r.date@ == date@,
            r.sessions == sessions,
            r.overview == response.overview,
            r.session_details == response.session_details,
            r.insights == response.insights,
            r.skills == response.skills,
            r.commands == response.commands,
            r.reflections == response.reflections,
            r.tomorrow_focus == response.tomorrow_focus,
    {
        let mut summary = DailySummary::new(String::from_str(date));
        summary.sessions = sessions;
        summary.with_content(
            response.overview,
            response.session_details,
            response.insights,
            response.skills,
            response.commands,
            response.reflections,
            response.tomorrow_focus,
        )
    }

    /// The JSON in an answer of the summarizer.
    pub fn extract_json(&self, response: &str) -> (r: String)
        ensures
            r@ == json_of(response@),
    {
        proof {
            reveal_strlit("```json");
            reveal_strlit("```\n");
            reveal_strlit("```");
            reveal_strlit("{");
            reveal_strlit("}");
        }
        let s = text::chars_of(response);
        match text::find_str(&s, "```json", 0) {
            Some(start) => {
                let rest = tail_of(&s, start);
                let end = match text::find_str(&rest, "```\n", 0) {
                    Some(e) => Some(e),
                    None => {
                        let fence = text::chars_of("```");
                        text::rfind_in(&rest, &fence)
                    },
                };
                match end {
                    Some(e) => {
                        if e > 7 {
                            let body = text::slice(&s, start + 7, start + e);
                            let body = text::trimmed(&body);
                            return text::string_of(&body);
                        }
                    },
                    None => {},
                }
            },
            None => {},
        }
        match text::find_str(&s, "{", 0) {
            Some(start) => {
                let brace = text::chars_of("}");
                match text::rfind_in(&s, &brace) {
                    Some(end) => {
                        if end > start {
                            let body = text::slice(&s, start, end + 1);
                            return text::string_of(&body);
                        }
                    },
                    None => {},
                }
            },
            None => {},
        }
        String::from_str(response)
    }
}

/// A topic made fit for a file name.
pub fn sanitize_topic(topic: &str) -> (r: String)
    ensures
        r@ == sanitized_topic(topic@),
{
    let chars = text::chars_of(topic);
    let stripped = text::trimmed(&chars);
    let lowered = text::lowercase_chars(&stripped);
    let ghost mapped = lowered@.map_values(|c: char| topic_char(c));
    let mut result: Vec<char> = Vec::new();
    let mut prev_hyphen: bool = false;
    let mut i: usize = 0;
    assert(mapped.subrange(0, 0) =~= Seq::<char>::empty());
    while i < lowered.len()
        invariant
            i <= lowered.len(),
            mapped == lowered@.map_values(|c: char| topic_char(c)),
            result@ == collapsed(mapped.subrange(0, i as int)),
            prev_hyphen == (i > 0 && mapped[i - 1] == '-'),
        decreases lowered.len() - i,
    {
        let c = lowered[i];
        let d = if ('a' <= c && c <= 'z') || ('0' <= c && c <= '9') || c == '-' {
            c
        } else {
            '-'
        };
        proof {
            let next = mapped.subrange(0, i + 1);
            assert(next.drop_last() =~= mapped.subrange(0, i as int));
            assert(next.last() == d);
            if i > 0 {
                assert(next[next.len() - 2] == mapped[i - 1]);
            }
        }
        if d == '-' {
            if !prev_hyphen && result.len() > 0 {
                result.push(d);
            }
            prev_hyphen = true;
        } else {
            result.push(d);
            prev_hyphen = false;
        }
        i += 1;
    }
    assert(mapped.subrange(0, lowered.len() as int) =~= mapped);
    let cleaned = text::trimmed_end_char(&result, '-');
    if cleaned.len() > MAX_TOPIC_CHARS {
        let head = text::slice(&cleaned, 0, MAX_TOPIC_CHARS);
        let head = text::trimmed_end_char(&head, '-');
        text::string_of(&head)
    } else if cleaned.len() == 0 {
        String::from_str("session")
    } else {
        text::string_of(&cleaned)
    }
}

/// The summary of an archived session.
pub fn extract_summary_from_markdown(content: &str) -> (r: String)
    ensures
        r@ == summary_section(content@),
{
    proof {
        reveal_strlit("## Summary");
    }
    let s = text::chars_of(content);
    match text::find_str(&s, "## Summary", 0) {
        Some(start) => {
            let after = tail_of(&s, start + 10);
            match text::find_str(&after, "\n## ", 0) {
                Some(end) => {
                    let body = text::slice(&after, 0, end);
                    let body = text::trimmed(&body);
                    text::string_of(&body)
                },
                None => {
                    let body = text::trimmed(&after);
                    text::string_of(&body)
                },
            }
        },
        None => {
            if s.len() > MAX_FALLBACK_CHARS {
                let head = text::slice(&s, 0, MAX_FALLBACK_CHARS);
                text::string_of(&head)
            } else {
                String::from_str(content)
            }
        },
    }
}

/// The markdown in an answer of the summarizer.
pub fn extract_markdown_from_response(response: &str) -> (r: String)
    ensures
        r@ == markdown_of(response@),
{
    proof {
        reveal_strlit("```markdown");
        reveal_strlit("```");
        reveal_strlit("\n");
    }
    let s = text::chars_of(response);
    match text::find_str(&s, "```markdown", 0) {
        Some(start) => {
            let after = tail_of(&s, start + 11);
            match text::find_str(&after, "```", 0) {
                Some(end) => {
                    let body = text::slice(&after, 0, end);
                    let body = text::trimmed(&body);
                    return text::string_of(&body);
                },
                None => {},
            }
        },
        None => {},
    }
    match text::find_str(&s, "```", 0) {
        Some(start) => {
            let after = tail_of(&s, start + 3);
            let content_start: usize = match text::find_str(&after, "\n", 0) {
                Some(i) => i + 1,
                None => 1,
            };
            let body = tail_of(&after, content_start);
            match text::find_str(&body, "```", 0) {
                Some(end) => {
                    let inner = text::slice(&body, 0, end);
                    let inner = text::trimmed(&inner);
                    return text::string_of(&inner);
                },
                None => {},
            }
        },
        None => {},
    }
    let whole = text::trimmed(&s);
    text::string_of(&whole)
}

} // verus!
