//! The prompts that ask the summarizer for its answers.

use crate::clock::{formatted_time, Timestamp};
use crate::text;
use crate::text::trim;
use vstd::prelude::*;

verus! {

/// What stands for a branch or a hint where none is given.
pub const NO_BRANCH: &'static str = "N/A";

/// The hint of an extraction where the caller gives none.
pub const DEFAULT_HINT: &'static str = "Based on patterns in the session";

pub const SESSION_INTRO: &'static str =
    "You are analyzing the transcript of a coding-assistant session. Generate a comprehensive summary in JSON format.\n\nContext:\n- Working Directory: ";

pub const SESSION_BRANCH: &'static str = "\n- Git Branch: ";

pub const SESSION_TRANSCRIPT: &'static str = "\n\nTranscript:\n";

pub const SESSION_TASK: &'static str =
    "\n\nGenerate a JSON response with this exact structure:\n```json\n{\n  \"topic\": \"Short kebab-case topic for filename (2-4 words, e.g., 'fix-auth-bug', 'add-dark-mode', 'refactor-api')\",\n  \"summary\": \"2-3 sentence overview including CONCRETE RESULTS (answers found, solutions implemented, code written). Never just describe the action - always include what was produced or discovered.\",\n  \"decisions\": \"Key decisions made and their rationale (markdown list format)\",\n  \"learnings\": \"Key learnings from this session (markdown list format)\",\n  \"skill_hints\": \"Potential reusable skills (only if passes quality gate, see below)\"\n}\n```\n\n## Skill Quality Gate (沉淀三问)\nOnly suggest skills that pass ALL three criteria:\n1. **踩过坑吗？** Did debugging, trial-and-error, or non-obvious discovery occur?\n2. **下次还会遇到吗？** Is this a recurring problem, not a one-time edge case?\n3. **能说清楚吗？** Can the solution be clearly described and verified?\n\nFor skill_hints format (only if quality gate passes):\n```\n- **[skill-name]**: [what it solves]\n  - Trigger: [error message or symptom]\n  - Why: [root cause]\n```\n\nIf no skills pass the quality gate, set skill_hints to \"None identified in this session.\"\n\nOutput ONLY the JSON block, no additional text.";

pub const COMMAND_INTRO: &'static str =
    "Generate a complete slash command file for the coding assistant based on this session.\n\nSession Summary:\n";

pub const COMMAND_HINT: &'static str = "\n\nCommand Hint: ";

pub const COMMAND_TASK: &'static str =
    "\n\nGenerate a command file that:\n1. Has a clear description\n2. Explains when to use it\n3. Provides instructions for the assistant to follow\n4. Is immediately usable as a /command\n\nOutput the complete command markdown following this format:\n```markdown\n---\ndescription: \"Brief description of what this command does\"\n---\n\n# Command Name\n\n[When to use this command]\n\n## Instructions\n\n[Instructions for the assistant to follow when this command is invoked]\n```\n\nOutput ONLY the markdown content.";

pub const DAILY_INTRO: &'static str = "You are analyzing coding-assistant sessions from ";

pub const DAILY_TIME: &'static str =
    ". Generate a daily summary.\n\n## Time Context\n- Current time: ";

pub const DAILY_PERIODS: &'static str =
    "\n- Session names contain timestamps: e.g., \"21_03-fix-bug\" means 21:03 (晚上), \"09_30-add-feature\" means 09:30 (早上)\n- Time periods: 凌晨 (00:00-05:59), 早上 (06:00-11:59), 下午 (12:00-17:59), 晚上 (18:00-23:59)\n\nCRITICAL: Parse the actual timestamps from session names to determine time periods. NEVER fabricate times like \"上午...下午...\" if all sessions are in the evening.\n";

pub const DAILY_TASK: &'static str =
    "\n\n## Your Task\n\nGenerate a summary that answers: \"今天问了什么？聊了什么？有什么收获？接下来要做什么？\"\n\n### Output Structure\n\n1. **Overview**: 2-3 sentences describing what happened today. Use ACTUAL time periods based on session timestamps (e.g., \"今晚主要在...\" if all sessions are after 18:00).\n\n2. **Sessions**: List each session with:\n   - Session name with emoji indicating type (🔧 fix, 📚 research, 💬 chat, 🎨 UI, 📋 plan)\n   - One-line description of what was discussed/accomplished\n\n3. **Key Insights**: Valuable learnings worth remembering. Focus on:\n   - Technical discoveries (root causes, solutions found)\n   - Patterns observed\n   - Connections between topics\n\n4. **Skills & Commands Identified**: Reusable patterns that could become skills or commands (if any, otherwise say \"暂未发现\")\n\n5. **Reflections**: Brief thoughts on work patterns, what went well, what could improve\n\n6. **Tomorrow's Focus**: High-value TODOs based on:\n   - Unfinished tasks\n   - Problems discovered but not yet solved\n   - Natural next steps\n\nOutput format (JSON):\n```json\n{\n  \"overview\": \"...\",\n  \"session_details\": \"markdown formatted list\",\n  \"insights\": \"markdown list of insights\",\n  \"skills\": \"markdown formatted skill suggestions (or '暂未发现')\",\n  \"commands\": \"markdown formatted command suggestions (or '暂未发现')\",\n  \"reflections\": \"thoughtful reflection paragraph\",\n  \"tomorrow_focus\": \"prioritized suggestions\"\n}\n```\n\nOutput ONLY the JSON block. Ensure all strings in JSON are properly escaped (especially quotes and newlines).";

pub const REGENERATE_HEAD: &'static str =
    "\n## REGENERATE MODE\n\nYou are regenerating an existing daily summary. The original content is below.\nYour task is to REWRITE it with better structure and time accuracy, NOT to add new content.\n\nOriginal daily.md content:\n```\n";

pub const REGENERATE_TAIL: &'static str =
    "\n```\n\nIMPORTANT for regeneration:\n- Extract session information from the Sessions section in the original content\n- Parse timestamps from session names to determine ACTUAL time periods\n- Rewrite the overview to reflect the ACTUAL time distribution\n- Preserve all insights, reflections, and tomorrow's focus but improve clarity\n- Do NOT fabricate sessions or content that wasn't in the original\n";

pub const MERGE_HEAD: &'static str =
    "\n## Existing Daily Summary (from previous digest)\n\nThe following content was generated from earlier sessions today. You MUST preserve and integrate this content with the new sessions:\n\n```\n";

pub const MERGE_TAIL: &'static str =
    "\n```\n\nIMPORTANT: Merge the existing summary with the new sessions. Do NOT discard existing content.\n- Combine overviews into a comprehensive day summary\n- Append new session details to existing ones\n- Merge insights, skills, commands (avoid duplicates)\n- Update reflections to cover the full day\n- Revise tomorrow's focus based on all work done\n";

pub const SESSIONS_HEAD: &'static str = "## Sessions (JSON format):\n";

pub const SKILL_INTRO: &'static str =
    "You are extracting a reusable skill from a coding-assistant session.\n\n## Quality Gate - Answer these three questions first:\n\n1. **踩过坑吗？** Was there trial-and-error, debugging, or a non-obvious discovery?\n2. **下次还会遇到吗？** Is this a recurring problem, not a one-time edge case?\n3. **能说清楚吗？** Can the solution be clearly described and verified?\n\nIf ANY answer is NO, respond with:\n```\nNOT_EXTRACTABLE: [reason]\n```\n\nIf ALL answers are YES, generate the skill.\n\n## Session Summary:\n";

pub const SKILL_HINT: &'static str = "\n\nSkill Hint: ";

pub const SKILL_FORMAT: &'static str =
    "\n\n## Output Format:\n\n```markdown\n---\nname: skill-name-kebab-case\ndescription: \"Retrieval-optimized: include error messages, symptoms, or how user might describe the problem. Max 100 tokens.\"\norigin: \"";

pub const SKILL_TASK: &'static str =
    "/session-name\"\nconfidence: verified\n---\n\n# Skill Name\n\nBrief description of what this skill solves.\n\n## When to Use\n\nTrigger this skill when you encounter:\n- [Exact error message or symptom, e.g., \"ECONNREFUSED on port 3000\"]\n- [How user might describe it, e.g., \"my dev server won't start\"]\n- [Related scenarios]\n\n## Root Cause\n\nWhy does this problem happen? Understanding the cause prevents future issues.\n\n## Solution\n\nStep-by-step resolution:\n\n1. [First step]\n2. [Second step]\n...\n\n## Verification\n\nHow to confirm the problem is solved:\n- [Check command or expected output]\n```\n\nOutput ONLY the markdown content (or NOT_EXTRACTABLE message).";

/// The name of the part of the day that the hour falls in.
pub open spec fn period_name(hour: int) -> Seq<char> {
    if hour <= 5 {
        "凌晨"@
    } else if hour <= 11 {
        "早上"@
    } else if hour <= 17 {
        "下午"@
    } else {
        "晚上"@
    }
}

/// Whether a daily summary is only written anew: there is one already, and no session to
/// add to it.
pub open spec fn is_regeneration(sessions_json: Seq<char>, existing: Option<Seq<char>>) -> bool {
    trim(sessions_json) == "[]"@ && existing is Some
}

/// The part of the daily prompt that shows the summary there is.
pub open spec fn existing_section(sessions_json: Seq<char>, existing: Option<Seq<char>>) -> Seq<
    char,
> {
    match existing {
        Some(e) => if is_regeneration(sessions_json, existing) {
            REGENERATE_HEAD@ + e + REGENERATE_TAIL@
        } else {
            MERGE_HEAD@ + e + MERGE_TAIL@
        },
        None => Seq::empty(),
    }
}

/// The part of the daily prompt that shows the sessions.
pub open spec fn sessions_section(sessions_json: Seq<char>, existing: Option<Seq<char>>) -> Seq<
    char,
> {
    if is_regeneration(sessions_json, existing) {
        Seq::empty()
    } else {
        SESSIONS_HEAD@ + sessions_json
    }
}

/// The prompt that asks for the summary of a day, written at `now`.
pub open spec fn daily_summary_text(
    sessions_json: Seq<char>,
    date: Seq<char>,
    existing: Option<Seq<char>>,
    now: Timestamp,
) -> Seq<char> {
    DAILY_INTRO@ + date + DAILY_TIME@ + formatted_time(
        now.secs(),
        now.nanos(),
        now.offset(),
        "%H:%M"@,
    ) + " ("@ + period_name(now.local_second_of_day() / 3600) + ")"@ + DAILY_PERIODS@
        + existing_section(sessions_json, existing) + "\n"@ + sessions_section(
        sessions_json,
        existing,
    ) + DAILY_TASK@
}

/// The prompt that asks for a skill, written at `now`.
pub open spec fn extract_skill_text(
    session_summary: Seq<char>,
    hint: Option<Seq<char>>,
    now: Timestamp,
) -> Seq<char> {
    SKILL_INTRO@ + session_summary + SKILL_HINT@ + (match hint {
        Some(h) => h,
        None => DEFAULT_HINT@,
    }) + SKILL_FORMAT@ + formatted_time(now.secs(), now.nanos(), now.offset(), "%Y-%m-%d"@)
        + SKILL_TASK@
}

/// The prompt that asks for the summary of a session.
pub open spec fn session_summary_text(
    transcript_text: Seq<char>,
    cwd: Seq<char>,
    git_info: Option<Seq<char>>,
) -> Seq<char> {
    SESSION_INTRO@ + cwd + SESSION_BRANCH@ + (match git_info {
        Some(branch) => branch,
        None => NO_BRANCH@,
    }) + SESSION_TRANSCRIPT@ + transcript_text + SESSION_TASK@
}

/// The prompt that asks for a command.
pub open spec fn extract_command_text(session_summary: Seq<char>, hint: Option<Seq<char>>) -> Seq<
    char,
> {
    COMMAND_INTRO@ + session_summary + COMMAND_HINT@ + (match hint {
        Some(h) => h,
        None => DEFAULT_HINT@,
    }) + COMMAND_TASK@
}

/// The prompts of the summarizer.
pub struct Prompts;

impl Prompts {
    /// The prompt that asks for the summary of a session: the working directory, the
    /// branch (`N/A` where there is none) and the transcript, between fixed texts.
    pub fn session_summary(transcript_text: &str, cwd: &str, git_info: Option<&str>) -> (r: String)
        ensures
            r@ == session_summary_text(
                transcript_text@,
                cwd@,
                match git_info {
                    Some(b) => Some(b@),
                    None => None,
                },
            ),
    {
        let mut out: Vec<char> = Vec::new();
        text::push_str(&mut out, SESSION_INTRO);
        text::push_str(&mut out, cwd);
        text::push_str(&mut out, SESSION_BRANCH);
        match git_info {
            Some(b) => text::push_str(&mut out, b),
            None => text::push_str(&mut out, NO_BRANCH),
        }
        text::push_str(&mut out, SESSION_TRANSCRIPT);
        text::push_str(&mut out, transcript_text);
        text::push_str(&mut out, SESSION_TASK);
        text::string_of(&out)
    }

    /// The prompt that asks for the summary of a day, written at `now`: the date, the time
    /// and the part of the day, the summary there is already, and the sessions. Where
    /// there is a summary and no session, the prompt asks for the summary to be written
    /// anew.
    pub fn daily_summary_at(
        sessions_json: &str,
        date: &str,
        existing_summary: Option<&str>,
        now: &Timestamp,
    ) -> (r: String)
        ensures
            r@ == daily_summary_text(
                sessions_json@,
                date@,
                match existing_summary {
                    Some(e) => Some(e@),
                    None => None,
                },
                *now,
            ),
    {
        let ghost existing: Option<Seq<char>> = match existing_summary {
            Some(e) => Some(e@),
            None => None,
        };
        let current_time = now.format("%H:%M");
        let hour = now.second_of_day() / 3600;
        let json = text::chars_of(sessions_json);
        let stripped = text::trimmed(&json);
        let regenerate = text::same_str(&stripped, "[]") && existing_summary.is_some();
        assert(regenerate == is_regeneration(sessions_json@, existing));
        let mut out: Vec<char> = Vec::new();
        text::push_str(&mut out, DAILY_INTRO);
        text::push_str(&mut out, date);
        text::push_str(&mut out, DAILY_TIME);
        text::push_str(&mut out, current_time.as_str());
        text::push_str(&mut out, " (");
        if hour <= 5 {
            text::push_str(&mut out, "凌晨");
        } else if hour <= 11 {
            text::push_str(&mut out, "早上");
        } else if hour <= 17 {
            text::push_str(&mut out, "下午");
        } else {
            text::push_str(&mut out, "晚上");
        }
        text::push_str(&mut out, ")");
        text::push_str(&mut out, DAILY_PERIODS);
        let ghost head = out@;
        match existing_summary {
            Some(e) => {
                if regenerate {
                    text::push_str(&mut out, REGENERATE_HEAD);
                    text::push_str(&mut out, e);
                    text::push_str(&mut out, REGENERATE_TAIL);
                } else {
                    text::push_str(&mut out, MERGE_HEAD);
                    text::push_str(&mut out, e);
                    text::push_str(&mut out, MERGE_TAIL);
                }
            },
            None => {},
        }
        assert(out@ =~= head + existing_section(sessions_json@, existing));
        text::push_str(&mut out, "\n");
        let ghost middle = out@;
        if !regenerate {
            text::push_str(&mut out, SESSIONS_HEAD);
            text::push_str(&mut out, sessions_json);
        }
        assert(out@ =~= middle + sessions_section(sessions_json@, existing));
        text::push_str(&mut out, DAILY_TASK);
        assert(out@ =~= daily_summary_text(sessions_json@, date@, existing, *now));
        text::string_of(&out)
    }

    /// The prompt that asks for the summary of a day, written now.
    pub fn daily_summary(sessions_json: &str, date: &str, existing_summary: Option<&str>) -> (r:
        String)
        ensures
            exists|now: Timestamp|
                now.wf() && r@ == daily_summary_text(
                    sessions_json@,
                    date@,
                    match existing_summary {
                        Some(e) => Some(e@),
                        None => None,
                    },
                    now,
                ),
    {
        let now = Timestamp::now();
        let r = Self::daily_summary_at(sessions_json, date, existing_summary, &now);
        assert(now.wf() && r@ == daily_summary_text(
            sessions_json@,
            date@,
            match existing_summary {
                Some(e) => Some(e@),
                None => None,
            },
            now,
        ));
        r
    }

    /// The prompt that asks for a skill made from a session, written at `now`.
    pub fn extract_skill_at(session_summary: &str, skill_hint: Option<&str>, now: &Timestamp) -> (r:
        String)
        ensures
            r@ == extract_skill_text(
                session_summary@,
                match skill_hint {
                    Some(h) => Some(h@),
                    None => None,
                },
                *now,
            ),
    {
        let today = now.format("%Y-%m-%d");
        let mut out: Vec<char> = Vec::new();
        text::push_str(&mut out, SKILL_INTRO);
        text::push_str(&mut out, session_summary);
        text::push_str(&mut out, SKILL_HINT);
        match skill_hint {
            Some(h) => text::push_str(&mut out, h),
            None => text::push_str(&mut out, DEFAULT_HINT),
        }
        text::push_str(&mut out, SKILL_FORMAT);
        text::push_str(&mut out, today.as_str());
        text::push_str(&mut out, SKILL_TASK);
        text::string_of(&out)
    }

    /// The prompt that asks for a skill made from a session, written now.
    pub fn extract_skill(session_summary: &str, skill_hint: Option<&str>) -> (r: String)
        ensures
            exists|now: Timestamp|
                now.wf() && r@ == extract_skill_text(
                    session_summary@,
                    match skill_hint {
                        Some(h) => Some(h@),
                        None => None,
                    },
                    now,
                ),
    {
        let now = Timestamp::now();
        let r = Self::extract_skill_at(session_summary, skill_hint, &now);
        assert(now.wf() && r@ == extract_skill_text(
            session_summary@,
            match skill_hint {
                Some(h) => Some(h@),
                None => None,
            },
            now,
        ));
        r
    }

    /// The prompt that asks for a command made from a session.
    pub fn extract_command(session_summary: &str, command_hint: Option<&str>) -> (r: String)
        ensures
            r@ == extract_command_text(
                session_summary@,
                match command_hint {
                    Some(h) => Some(h@),
                    None => None,
                },
            ),
    {
        let mut out: Vec<char> = Vec::new();
        text::push_str(&mut out, COMMAND_INTRO);
        text::push_str(&mut out, session_summary);
        text::push_str(&mut out, COMMAND_HINT);
        match command_hint {
            Some(h) => text::push_str(&mut out, h),
            None => text::push_str(&mut out, DEFAULT_HINT),
        }
        text::push_str(&mut out, COMMAND_TASK);
        text::string_of(&out)
    }
}

} // verus!
