//! What the viewing commands show of archived files.

use crate::clock::Timestamp;
use crate::cli::commands::digest::date_text;
use crate::summarizer::engine::{tail, tail_of};
use crate::text;
use crate::text::{find, join, lines, matches_at};
use crate::transcript::parser::opt_view;
use vstd::prelude::*;

verus! {

/// Most lines of an overview that are shown where no further heading ends it.
pub const MAX_OVERVIEW_LINES: usize = 10;

/// Longest first line of a summary, in characters, that is shown.
pub const MAX_LINE_CHARS: usize = 80;

/// How a date relates to the present day.
#[derive(Debug, Clone, Copy, PartialEq, Eq)]
pub enum DateLabel {
    Today,
    Yesterday,
    Other,
}

/// The first `n` of the lines, or all of them where there are fewer.
pub open spec fn first_lines(all: Seq<Seq<char>>, n: int) -> Seq<Seq<char>> {
    if n >= all.len() {
        all
    } else {
        all.subrange(0, n)
    }
}

/// The overview of a day as a reader sees it: from the heading `## Overview` to the
/// heading of the sessions, or else its first ten lines. Nothing where there is no such
/// heading.
pub open spec fn overview_of(content: Seq<char>) -> Option<Seq<char>> {
    match find(content, "## Overview"@) {
        Some(at) => {
            let rest = tail(content, at);
            Some(
                match find(rest, "\n## Sessions"@) {
                    Some(end) => rest.subrange(0, end),
                    None => join(first_lines(lines(rest), 10), "\n"@),
                },
            )
        },
        None => None,
    }
}

/// The first line of the summary of a session as a reader sees it: the line after the
/// heading `## Summary`, cut to eighty characters. Nothing where there is no such
/// heading, or where that line is empty or a heading itself.
pub open spec fn summary_line_of(content: Seq<char>) -> Option<Seq<char>> {
    match find(content, "## Summary"@) {
        Some(at) => {
            let all = lines(tail(content, at + 11));
            if all.len() > 0 && all[0].len() > 0 && !matches_at(all[0], "#"@, 0) {
                Some(
                    if all[0].len() > 80 {
                        all[0].subrange(0, 80)
                    } else {
                        all[0]
                    },
                )
            } else {
                None
            }
        },
        None => None,
    }
}

/// How a date relates to the day of `now`.
pub fn format_date_label(date: &str, now: &Timestamp) -> (r: DateLabel)
    ensures
        r == (if date@ == date_text(*now) {
            DateLabel::Today
        } else if date@ == date_text(now.spec_days_before(1)) {
            DateLabel::Yesterday
        } else {
            DateLabel::Other
        }),
{
    let wanted = text::chars_of(date);
    let today = now.format("%Y-%m-%d");
    let yesterday = now.days_before(1).format("%Y-%m-%d");
    if text::same_str(&wanted, today.as_str()) {
        DateLabel::Today
    } else if text::same_str(&wanted, yesterday.as_str()) {
        DateLabel::Yesterday
    } else {
        DateLabel::Other
    }
}

/// The overview of a day as a reader sees it.
pub fn overview_excerpt(content: &str) -> (r: Option<String>)
    ensures
        opt_view(r) == overview_of(content@),
{
    let s = text::chars_of(content);
    match text::find_str(&s, "## Overview", 0) {
        Some(at) => {
            let rest = tail_of(&s, at);
            match text::find_str(&rest, "\n## Sessions", 0) {
                Some(end) => {
                    let part = text::slice(&rest, 0, end);
                    Some(text::string_of(&part))
                },
                None => {
                    let all = text::split_lines(&rest);
                    let n: usize = if all.len() > MAX_OVERVIEW_LINES {
                        MAX_OVERVIEW_LINES
                    } else {
                        all.len()
                    };
                    proof {
                        if all.len() <= 10 {
                            assert(text::views(all@).subrange(0, all.len() as int)
                                =~= text::views(all@));
                        }
                    }
                    let joined = text::join_range(&all, 0, n, "\n");
                    Some(text::string_of(&joined))
                },
            }
        },
        None => None,
    }
}

/// The first line of the summary of a session as a reader sees it.
pub fn summary_first_line(content: &str) -> (r: Option<String>)
    ensures
        opt_view(r) == summary_line_of(content@),
{
    proof {
        reveal_strlit("## Summary");
    }
    let s = text::chars_of(content);
    match text::find_str(&s, "## Summary", 0) {
        Some(at) => {
            let rest = if at + 10 < s.len() {
                tail_of(&s, at + 11)
            } else {
                Vec::new()
            };
            assert(rest@ =~= tail(content@, at + 11));
            let all = text::split_lines(&rest);
            if all.len() == 0 {
                return None;
            }
            assert(text::views(all@)[0] == all@[0]@);
            let first = &all[0];
            if first.len() > 0 && !text::starts_with(first, "#") {
                if first.len() > MAX_LINE_CHARS {
                    let cut = text::slice(first, 0, MAX_LINE_CHARS);
                    Some(text::string_of(&cut))
                } else {
                    Some(text::string_of(first))
                }
            } else {
                None
            }
        },
        None => None,
    }
}

} // verus!
