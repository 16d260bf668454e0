//! Reading archived files for the dashboard.

use crate::config::Config;
use crate::server::dto::{DailySummaryDto, SessionMetadata};
use crate::summarizer::engine::{tail, tail_of};
use crate::text;
use crate::text::{contains, find, lines, matches_at, string_views, trim, trim_char};
use crate::transcript::parser::opt_view;
use vstd::prelude::*;

verus! {

/// Longest preview of a summary, in characters.
pub const MAX_PREVIEW_CHARS: usize = 200;

/// How far a summary is read for its preview where no further heading ends it.
pub const PREVIEW_WINDOW: usize = 300;

/// What the handlers share.
pub struct AppState {
    pub config: Config,
}

/// The content of the section under a heading of the second level: what stands between the
/// heading and the next heading of that level, trimmed. Nothing where there is no such
/// heading, where the section is empty, or where it only says that no session was recorded
/// yet.
pub open spec fn section_of(content: Seq<char>, header: Seq<char>) -> Option<Seq<char>> {
    let pattern = "## "@ + header + "\n"@;
    match find(content, pattern) {
        Some(at) => {
            let rest = tail(content, at + pattern.len());
            let body = match find(rest, "\n## "@) {
                Some(end) => trim(rest.subrange(0, end)),
                None => trim(rest),
            };
            if body.len() == 0 || body == "No sessions recorded yet."@ {
                None
            } else {
                Some(body)
            }
        },
        None => None,
    }
}

/// The part of a summary that lists its sessions: from behind `sessions:` to the end of
/// the front matter, or else to the tags, or else to the end.
pub open spec fn sessions_block(content: Seq<char>) -> Option<Seq<char>> {
    match find(content, "sessions:"@) {
        Some(at) => {
            let rest = tail(content, at + 9);
            Some(
                match find(rest, "\n---"@) {
                    Some(end) => rest.subrange(0, end),
                    None => match find(rest, "\ntags:"@) {
                        Some(end) => rest.subrange(0, end),
                        None => rest,
                    },
                },
            )
        },
        None => None,
    }
}

/// The session that a line of the list names: what follows `- ` on the trimmed line,
/// without quotes around it.
pub open spec fn listed_session(line: Seq<char>) -> Option<Seq<char>> {
    let t = trim(line);
    if matches_at(t, "- "@, 0) {
        Some(trim_char(t.subrange(2, t.len() as int), '"'))
    } else {
        None
    }
}

/// The sessions that the lines name, in order.
pub open spec fn listed_sessions(all: Seq<Seq<char>>) -> Seq<Seq<char>>
    decreases all.len(),
{
    if all.len() == 0 {
        Seq::empty()
    } else {
        let rest = listed_sessions(all.drop_last());
        match listed_session(all.last()) {
            Some(name) => rest.push(name),
            None => rest,
        }
    }
}

/// The sessions that a summary lists.
pub open spec fn sessions_of(content: Seq<char>) -> Seq<Seq<char>> {
    match sessions_block(content) {
        Some(block) => listed_sessions(lines(block)),
        None => Seq::empty(),
    }
}

/// `s` up to its first line feed.
pub open spec fn first_line(s: Seq<char>) -> Seq<char> {
    match find(s, "\n"@) {
        Some(end) => s.subrange(0, end),
        None => s,
    }
}

/// The title of an archived session: what follows the first `title:` on its line, trimmed
/// and without quotes; else what follows the first `# ` on its line; else `Untitled`.
pub open spec fn title_of(content: Seq<char>) -> Seq<char> {
    match find(content, "title:"@) {
        Some(at) => trim_char(trim(first_line(tail(content, at + 6))), '"'),
        None => match find(content, "# "@) {
            Some(at) => trim(first_line(tail(content, at + 2))),
            None => "Untitled"@,
        },
    }
}

/// The preview of the summary of an archived session: the section under `## Summary`, read
/// to the next heading or else three hundred characters far, trimmed, and cut to two
/// hundred characters with an ellipsis. Empty where there is no such section.
pub open spec fn preview_of(content: Seq<char>) -> Seq<char> {
    match find(content, "## Summary\n"@) {
        Some(at) => {
            let rest = tail(content, at + 11);
            let body = trim(
                match find(rest, "\n## "@) {
                    Some(end) => rest.subrange(0, end),
                    None => if rest.len() > 300 {
                        rest.subrange(0, 300)
                    } else {
                        rest
                    },
                },
            );
            if body.len() > 200 {
                body.subrange(0, 200) + "..."@
            } else {
                body
            }
        },
        None => Seq::empty(),
    }
}

/// The front matter of a file: what stands between a first line `---` and the next line
/// that begins with `---`.
pub open spec fn front_matter_of(content: Seq<char>) -> Option<Seq<char>> {
    if matches_at(content, "---\n"@, 0) {
        let rest = tail(content, 4);
        match find(rest, "\n---"@) {
            Some(end) => Some(rest.subrange(0, end)),
            None => None,
        }
    } else {
        None
    }
}

/// The value that a line gives to a key: the line is the key, a colon and the value, with
/// white space around both and quotes around the value left out.
pub open spec fn value_for(line: Seq<char>, key: Seq<char>) -> Option<Seq<char>> {
    match find(line, ":"@) {
        Some(colon) => if trim(line.subrange(0, colon)) == key {
            Some(trim_char(trim(line.subrange(colon + 1, line.len() as int)), '"'))
        } else {
            None
        },
        None => None,
    }
}

/// The value that the last of the first `upto` lines with the key gives to it.
pub open spec fn last_value(all: Seq<Seq<char>>, key: Seq<char>, upto: int) -> Option<Seq<char>>
    decreases upto,
{
    if upto <= 0 || upto > all.len() {
        None
    } else {
        match value_for(all[upto - 1], key) {
            Some(v) => Some(v),
            None => last_value(all, key, upto - 1),
        }
    }
}

/// The value of a key in the front matter of a file.
pub open spec fn metadata_value(content: Seq<char>, key: Seq<char>) -> Option<Seq<char>> {
    match front_matter_of(content) {
        Some(fm) => last_value(lines(fm), key, lines(fm).len() as int),
        None => None,
    }
}

/// A value, or the empty text where there is none.
pub open spec fn or_empty(value: Option<Seq<char>>) -> Seq<char> {
    match value {
        Some(v) => v,
        None => Seq::empty(),
    }
}

/// Whether a day was digested: its file has an overview, and the overview does not say
/// that no session was recorded yet.
pub open spec fn is_digested(content: Seq<char>) -> bool {
    contains(content, "## Overview"@) && !contains(content, "No sessions recorded yet"@)
}

/// Whether a day was digested.
pub fn has_digest(content: &str) -> (r: bool)
    ensures
        r == is_digested(content@),
{
    let s = text::chars_of(content);
    text::contains_str(&s, "## Overview") && !text::contains_str(&s, "No sessions recorded yet")
}

/// The content of the section under a heading of the second level.
pub fn extract_section(content: &Vec<char>, header: &str) -> (r: Option<String>)
    ensures
        opt_view(r) == section_of(content@, header@),
{
    let mut pattern: Vec<char> = Vec::new();
    text::push_str(&mut pattern, "## ");
    text::push_str(&mut pattern, header);
    text::push_str(&mut pattern, "\n");
    match text::find_in(content, &pattern, 0) {
        Some(at) => {
            let rest = tail_of(content, at + pattern.len());
            let body = match text::find_str(&rest, "\n## ", 0) {
                Some(end) => {
                    let part = text::slice(&rest, 0, end);
                    text::trimmed(&part)
                },
                None => text::trimmed(&rest),
            };
            if body.len() == 0 || text::same_str(&body, "No sessions recorded yet.") {
                None
            } else {
                Some(text::string_of(&body))
            }
        },
        None => None,
    }
}

/// The sessions that a summary lists.
pub fn extract_sessions(content: &Vec<char>) -> (r: Vec<String>)
    ensures
        string_views(r@) == sessions_of(content@),
{
    proof {
        reveal_strlit("sessions:");
        reveal_strlit("- ");
    }
    let mut out: Vec<String> = Vec::new();
    assert(string_views(out@) =~= Seq::<Seq<char>>::empty());
    match text::find_str(content, "sessions:", 0) {
        Some(at) => {
            let rest = tail_of(content, at + 9);
            let block = match text::find_str(&rest, "\n---", 0) {
                Some(end) => text::slice(&rest, 0, end),
                None => match text::find_str(&rest, "\ntags:", 0) {
                    Some(end) => text::slice(&rest, 0, end),
                    None => rest,
                },
            };
            let all = text::split_lines(&block);
            let ghost ls = text::views(all@);
            let mut i: usize = 0;
            assert(ls.subrange(0, 0) =~= Seq::<Seq<char>>::empty());
            while i < all.len()
                invariant
                    i <= all.len(),
                    ls == text::views(all@),
                    string_views(out@) == listed_sessions(ls.subrange(0, i as int)),
                decreases all.len() - i,
            {
                proof {
                    let next = ls.subrange(0, i + 1);
                    assert(next.drop_last() =~= ls.subrange(0, i as int));
                    assert(next.last() == all@[i as int]@);
                }
                proof {
                    reveal_strlit("- ");
                }
                let t = text::trimmed(&all[i]);
                if text::starts_with(&t, "- ") {
                    let ghost prior = string_views(out@);
                    let name = text::slice(&t, 2, t.len());
                    let name = text::trimmed_char(&name, '"');
                    let name = text::string_of(&name);
                    out.push(name);
                    assert(string_views(out@) =~= prior.push(name@));
                }
                i += 1;
            }
            assert(ls.subrange(0, all.len() as int) =~= ls);
            out
        },
        None => out,
    }
}

/// What the dashboard shows of the summary of a day: its sections, and the sessions that
/// its front matter lists.
pub fn parse_daily_summary(date: &str, content: &str, file_path: &str) -> (r: DailySummaryDto)
    ensures
        r.date@ == date@,
        r.raw_content@ == content@,
        r.file_path@ == file_path@,
        r.overview@ == or_empty(section_of(content@, "Overview"@)),
        string_views(r.sessions@) == sessions_of(content@),
        r.session_count == r.sessions@.len(),
        opt_view(r.insights) == section_of(content@, "Key Insights"@),
        opt_view(r.skills) == section_of(content@, "Skills"@),
        opt_view(r.commands) == section_of(content@, "Commands"@),
        opt_view(r.reflections) == section_of(content@, "Reflections"@),
        opt_view(r.tomorrow_focus) == section_of(content@, "Tomorrow's Focus"@),
{
    let s = text::chars_of(content);
    let sessions = extract_sessions(&s);
    let overview = match extract_section(&s, "Overview") {
        Some(o) => o,
        None => String::new(),
    };
    DailySummaryDto {
        date: String::from_str(date),
        overview,
        session_count: sessions.len(),
        sessions,
        insights: extract_section(&s, "Key Insights"),
        skills: extract_section(&s, "Skills"),
        commands: extract_section(&s, "Commands"),
        reflections: extract_section(&s, "Reflections"),
        tomorrow_focus: extract_section(&s, "Tomorrow's Focus"),
        raw_content: String::from_str(content),
        file_path: String::from_str(file_path),
    }
}

/// `s` up to its first line feed.
pub fn first_line_of(s: &Vec<char>) -> (r: Vec<char>)
    ensures
        r@ == first_line(s@),
{
    match text::find_str(s, "\n", 0) {
        Some(end) => text::slice(s, 0, end),
        None => {
            assert(s@.subrange(0, s.len() as int) =~= s@);
            text::slice(s, 0, s.len())
        },
    }
}

/// The title and the preview of the summary of an archived session.
pub fn extract_session_preview(content: &str) -> (r: (String, String))
    ensures
        r.0@ == title_of(content@),
        r.1@ == preview_of(content@),
{
    proof {
        reveal_strlit("title:");
        reveal_strlit("# ");
        reveal_strlit("## Summary\n");
    }
    let s = text::chars_of(content);
    let title = match text::find_str(&s, "title:", 0) {
        Some(at) => {
            let rest = tail_of(&s, at + 6);
            let line = first_line_of(&rest);
            let line = text::trimmed(&line);
            let line = text::trimmed_char(&line, '"');
            text::string_of(&line)
        },
        None => match text::find_str(&s, "# ", 0) {
            Some(at) => {
                let rest = tail_of(&s, at + 2);
                let line = first_line_of(&rest);
                let line = text::trimmed(&line);
                text::string_of(&line)
            },
            None => String::from_str("Untitled"),
        },
    };
    let summary = match text::find_str(&s, "## Summary\n", 0) {
        Some(at) => {
            let rest = tail_of(&s, at + 11);
            let part = match text::find_str(&rest, "\n## ", 0) {
                Some(end) => text::slice(&rest, 0, end),
                None => {
                    if rest.len() > PREVIEW_WINDOW {
                        text::slice(&rest, 0, PREVIEW_WINDOW)
                    } else {
                        assert(rest@.subrange(0, rest.len() as int) =~= rest@);
                        text::slice(&rest, 0, rest.len())
                    }
                },
            };
            let body = text::trimmed(&part);
            if body.len() > MAX_PREVIEW_CHARS {
                let mut cut = text::slice(&body, 0, MAX_PREVIEW_CHARS);
                text::push_str(&mut cut, "...");
                text::string_of(&cut)
            } else {
                text::string_of(&body)
            }
        },
        None => String::new(),
    };
    (title, summary)
}

/// The value that a line gives to a key.
pub fn value_in(line: &Vec<char>, key: &str) -> (r: Option<String>)
    ensures
        opt_view(r) == value_for(line@, key@),
{
    proof {
        reveal_strlit(":");
    }
    match text::find_str(line, ":", 0) {
        Some(colon) => {
            let name = text::slice(line, 0, colon);
            let name = text::trimmed(&name);
            if text::same_str(&name, key) {
                let value = text::slice(line, colon + 1, line.len());
                let value = text::trimmed(&value);
                let value = text::trimmed_char(&value, '"');
                Some(text::string_of(&value))
            } else {
                None
            }
        },
        None => None,
    }
}

/// The value that the last of the lines with the key gives to it.
pub fn last_value_in(all: &Vec<Vec<char>>, key: &str) -> (r: Option<String>)
    ensures
        opt_view(r) == last_value(text::views(all@), key@, all@.len() as int),
{
    let ghost ls = text::views(all@);
    let mut i: usize = all.len();
    while i > 0
        invariant
            i <= all.len(),
            ls == text::views(all@),
            last_value(ls, key@, all@.len() as int) == last_value(ls, key@, i as int),
        decreases i,
    {
        assert(ls[i - 1] == all@[i - 1]@);
        match value_in(&all[i - 1], key) {
            Some(v) => {
                return Some(v);
            },
            None => {},
        }
        i -= 1;
    }
    None
}

/// What the front matter of an archived session tells: for each key the value of the last
/// line that gives it one.
pub fn extract_session_metadata(content: &str) -> (r: SessionMetadata)
    ensures
        r.title@ == or_empty(metadata_value(content@, "title"@)),
        r.date@ == or_empty(metadata_value(content@, "date"@)),
        opt_view(r.session_id) == metadata_value(content@, "session_id"@),
        opt_view(r.cwd) == metadata_value(content@, "cwd"@),
        opt_view(r.git_branch) == metadata_value(content@, "git_branch"@),
        opt_view(r.duration) == metadata_value(content@, "duration"@),
{
    proof {
        reveal_strlit("---\n");
    }
    let s = text::chars_of(content);
    if !text::starts_with(&s, "---\n") {
        return SessionMetadata::default();
    }
    let rest = tail_of(&s, 4);
    match text::find_str(&rest, "\n---", 0) {
        Some(end) => {
            let fm = text::slice(&rest, 0, end);
            let all = text::split_lines(&fm);
            let title = match last_value_in(&all, "title") {
                Some(v) => v,
                None => String::new(),
            };
            let date = match last_value_in(&all, "date") {
                Some(v) => v,
                None => String::new(),
            };
            SessionMetadata {
                title,
                date,
                session_id: last_value_in(&all, "session_id"),
                cwd: last_value_in(&all, "cwd"),
                git_branch: last_value_in(&all, "git_branch"),
                duration: last_value_in(&all, "duration"),
            }
        },
        None => SessionMetadata::default(),
    }
}

} // verus!
