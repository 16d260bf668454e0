//! The markdown of the archived files.

use crate::text;
use crate::text::{decimal, string_views};
use vstd::prelude::*;

verus! {

/// What the overview of a day says before any session was digested.
pub const NO_SESSIONS: &'static str = "No sessions recorded yet.";

/// What stands for a value of the front matter that is not known.
pub const NOT_KNOWN: &'static str = "N/A";

/// The lines of the front matter that name the first `upto` sessions.
pub open spec fn session_lines(sessions: Seq<Seq<char>>, upto: int) -> Seq<char>
    decreases upto,
{
    if upto <= 0 || upto > sessions.len() {
        Seq::empty()
    } else {
        session_lines(sessions, upto - 1) + "  - \""@ + sessions[upto - 1] + "\"\n"@
    }
}

/// The front matter of the summary of a day.
pub open spec fn daily_front_matter(date: Seq<char>, sessions: Seq<Seq<char>>) -> Seq<char> {
    "---\ndate: "@ + date + "\ntotal_sessions: "@ + decimal(sessions.len()) + "\nsessions:\n"@
        + session_lines(sessions, sessions.len() as int) + "tags: [daily-summary]\n---\n\n"@
        + "# Daily Summary - "@ + date + "\n\n"@
}

/// A section of a file: its heading and its content.
pub open spec fn section(heading: Seq<char>, content: Seq<char>) -> Seq<char> {
    "## "@ + heading + "\n\n"@ + content + "\n\n"@
}

/// The summary of a day as markdown.
pub open spec fn daily_summary_markdown(
    date: Seq<char>,
    sessions: Seq<Seq<char>>,
    overview: Seq<char>,
    session_details: Seq<char>,
    insights: Seq<char>,
    skills: Seq<char>,
    commands: Seq<char>,
    reflections: Seq<char>,
    tomorrow_focus: Seq<char>,
) -> Seq<char> {
    daily_front_matter(date, sessions) + section("Overview"@, overview) + section(
        "Sessions"@,
        session_details,
    ) + section("Key Insights"@, insights) + section("Skills"@, skills) + section(
        "Commands"@,
        commands,
    ) + section("Reflections"@, reflections) + section("Tomorrow's Focus"@, tomorrow_focus)
}

/// The file a day starts with, before any session was digested.
pub open spec fn daily_init_markdown(date: Seq<char>) -> Seq<char> {
    daily_front_matter(date, Seq::empty()) + section("Overview"@, NO_SESSIONS@)
}

/// A value of the front matter, or `N/A` where it is not known.
pub open spec fn known_or_not(value: Option<Seq<char>>) -> Seq<char> {
    match value {
        Some(v) => v,
        None => NOT_KNOWN@,
    }
}

/// The archive of a session as markdown.
pub open spec fn session_archive_markdown(
    title: Seq<char>,
    date: Seq<char>,
    session_id: Seq<char>,
    cwd: Seq<char>,
    transcript_path: Option<Seq<char>>,
    git_branch: Option<Seq<char>>,
    duration: Option<Seq<char>>,
    tool_calls: nat,
    summary: Seq<char>,
    decisions: Seq<char>,
    code_changes: Seq<char>,
    learnings: Seq<char>,
    skill_hints: Seq<char>,
) -> Seq<char> {
    "---\ntitle: \""@ + title + "\"\ndate: "@ + date + "\nsession_id: "@ + session_id + "\ncwd: "@
        + cwd + "\ntranscript_path: "@ + known_or_not(transcript_path) + "\ngit_branch: "@
        + known_or_not(git_branch) + "\nduration: "@ + known_or_not(duration) + "\ntool_calls: "@
        + decimal(tool_calls) + "\n---\n\n# "@ + title + "\n\n"@ + section("Summary"@, summary)
        + section("Decisions"@, decisions) + section("Code Changes"@, code_changes) + section(
        "Learnings"@,
        learnings,
    ) + section("Skill Hints"@, skill_hints)
}

/// The view of an optional string slice.
pub open spec fn opt_str(value: Option<&str>) -> Option<Seq<char>> {
    match value {
        Some(v) => Some(v@),
        None => None,
    }
}

/// Appends a section to `out`.
fn push_section(out: &mut Vec<char>, heading: &str, content: &str)
    ensures
        final(out)@ == old(out)@ + section(heading@, content@),
{
    text::push_str(out, "## ");
    text::push_str(out, heading);
    text::push_str(out, "\n\n");
    text::push_str(out, content);
    text::push_str(out, "\n\n");
    assert(out@ =~= old(out)@ + section(heading@, content@));
}

/// Appends the front matter of the summary of a day to `out`.
fn push_daily_front_matter(out: &mut Vec<char>, date: &str, sessions: &Vec<String>)
    ensures
        final(out)@ == old(out)@ + daily_front_matter(date@, string_views(sessions@)),
{
    let ghost names = string_views(sessions@);
    text::push_str(out, "---\ndate: ");
    text::push_str(out, date);
    text::push_str(out, "\ntotal_sessions: ");
    text::push_decimal(out, sessions.len() as u64);
    text::push_str(out, "\nsessions:\n");
    let ghost head = out@;
    let mut i: usize = 0;
    while i < sessions.len()
        invariant
            i <= sessions.len(),
            names == string_views(sessions@),
            out@ == head + session_lines(names, i as int),
        decreases sessions.len() - i,
    {
        text::push_str(out, "  - \"");
        text::push_str(out, sessions[i].as_str());
        text::push_str(out, "\"\n");
        assert(out@ =~= head + (session_lines(names, i as int) + "  - \""@ + names[i as int]
            + "\"\n"@));
        i += 1;
    }
    text::push_str(out, "tags: [daily-summary]\n---\n\n");
    text::push_str(out, "# Daily Summary - ");
    text::push_str(out, date);
    text::push_str(out, "\n\n");
    assert(out@ =~= old(out)@ + daily_front_matter(date@, names));
}

/// The markdown of the archived files.
pub struct Templates;

impl Templates {
    /// The summary of a day: front matter with the date and the sessions, then one section
    /// for each part of the summary.
    pub fn daily_summary(
        date: &str,
        sessions: &Vec<String>,
        overview: &str,
        session_details: &str,
        insights: &str,
        skills: &str,
        commands: &str,
        reflections: &str,
        tomorrow_focus: &str,
    ) -> (r: String)
        ensures
            r@ == daily_summary_markdown(
                date@,
                string_views(sessions@),
                overview@,
                session_details@,
                insights@,
                skills@,
                commands@,
                reflections@,
                tomorrow_focus@,
            ),
    {
        let mut out: Vec<char> = Vec::new();
        push_daily_front_matter(&mut out, date, sessions);
        push_section(&mut out, "Overview", overview);
        push_section(&mut out, "Sessions", session_details);
        push_section(&mut out, "Key Insights", insights);
        push_section(&mut out, "Skills", skills);
        push_section(&mut out, "Commands", commands);
        push_section(&mut out, "Reflections", reflections);
        push_section(&mut out, "Tomorrow's Focus", tomorrow_focus);
        assert(out@ =~= daily_summary_markdown(
            date@,
            string_views(sessions@),
            overview@,
            session_details@,
            insights@,
            skills@,
            commands@,
            reflections@,
            tomorrow_focus@,
        ));
        text::string_of(&out)
    }

    /// The file a day starts with, before any session was digested.
    pub fn daily_init(date: &str) -> (r: String)
        ensures
            r@ == daily_init_markdown(date@),
    {
        let mut out: Vec<char> = Vec::new();
        let none: Vec<String> = Vec::new();
        assert(string_views(none@) =~= Seq::<Seq<char>>::empty());
        push_daily_front_matter(&mut out, date, &none);
        push_section(&mut out, "Overview", NO_SESSIONS);
        assert(out@ =~= daily_init_markdown(date@));
        text::string_of(&out)
    }

    /// The archive of a session: front matter with what is known of the session, the
    /// title, then one section for each part of the summary.
    pub fn session_archive(
        title: &str,
        date: &str,
        session_id: &str,
        cwd: &str,
        transcript_path: Option<&str>,
        git_branch: Option<&str>,
        duration: Option<&str>,
        tool_calls: usize,
        summary: &str,
        decisions: &str,
        code_changes: &str,
        learnings: &str,
        skill_hints: &str,
    ) -> (r: String)
        ensures
            r@ == session_archive_markdown(
                title@,
                date@,
                session_id@,
                cwd@,
                opt_str(transcript_path),
                opt_str(git_branch),
                opt_str(duration),
                tool_calls as nat,
                summary@,
                decisions@,
                code_changes@,
                learnings@,
                skill_hints@,
            ),
    {
        let mut out: Vec<char> = Vec::new();
        text::push_str(&mut out, "---\ntitle: \"");
        text::push_str(&mut out, title);
        text::push_str(&mut out, "\"\ndate: ");
        text::push_str(&mut out, date);
        text::push_str(&mut out, "\nsession_id: ");
        text::push_str(&mut out, session_id);
        text::push_str(&mut out, "\ncwd: ");
        text::push_str(&mut out, cwd);
        text::push_str(&mut out, "\ntranscript_path: ");
        match transcript_path {
            Some(v) => text::push_str(&mut out, v),
            None => text::push_str(&mut out, NOT_KNOWN),
        }
        text::push_str(&mut out, "\ngit_branch: ");
        match git_branch {
            Some(v) => text::push_str(&mut out, v),
            None => text::push_str(&mut out, NOT_KNOWN),
        }
        text::push_str(&mut out, "\nduration: ");
        match duration {
            Some(v) => text::push_str(&mut out, v),
            None => text::push_str(&mut out, NOT_KNOWN),
        }
        text::push_str(&mut out, "\ntool_calls: ");
        text::push_decimal(&mut out, tool_calls as u64);
        text::push_str(&mut out, "\n---\n\n# ");
        text::push_str(&mut out, title);
        text::push_str(&mut out, "\n\n");
        push_section(&mut out, "Summary", summary);
        push_section(&mut out, "Decisions", decisions);
        push_section(&mut out, "Code Changes", code_changes);
        push_section(&mut out, "Learnings", learnings);
        push_section(&mut out, "Skill Hints", skill_hints);
        assert(out@ =~= session_archive_markdown(
            title@,
            date@,
            session_id@,
            cwd@,
            opt_str(transcript_path),
            opt_str(git_branch),
            opt_str(duration),
            tool_calls as nat,
            summary@,
            decisions@,
            code_changes@,
            learnings@,
            skill_hints@,
        ));
        text::string_of(&out)
    }
}

} // verus!
