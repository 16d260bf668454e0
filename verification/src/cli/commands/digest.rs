//! Which day a digest is made for.

use crate::clock::{formatted_time, Timestamp};
use crate::text;
use crate::text::lowercase;
use vstd::prelude::*;

verus! {

/// The date of an instant, as the archive names its directories.
pub open spec fn date_text(t: Timestamp) -> Seq<char> {
    formatted_time(t.secs(), t.nanos(), t.offset(), "%Y-%m-%d"@)
}

/// The day that a word stands for at `now`: `today`, or `yest` and `yesterday`, in
/// whatever case; no day for any other word.
pub open spec fn relative_date(word: Seq<char>, now: Timestamp, day_before: Timestamp) -> Option<
    Seq<char>,
> {
    if lowercase(word) == "yest"@ || lowercase(word) == "yesterday"@ {
        Some(date_text(day_before))
    } else if lowercase(word) == "today"@ {
        Some(date_text(now))
    } else {
        None
    }
}

/// The date that a digest is made for: the day that the relative word stands for, or the
/// word itself where it stands for none; else the date given; else today.
pub open spec fn digest_date(
    relative: Option<Seq<char>>,
    date: Option<Seq<char>>,
    now: Timestamp,
    day_before: Timestamp,
) -> Seq<char> {
    match relative {
        Some(word) => match relative_date(word, now, day_before) {
            Some(d) => d,
            None => word,
        },
        None => match date {
            Some(d) => d,
            None => date_text(now),
        },
    }
}

/// The date of an instant, as the archive names its directories.
pub fn date_of(t: &Timestamp) -> (r: String)
    ensures
        r@ == date_text(*t),
{
    t.format("%Y-%m-%d")
}

/// The day that a word stands for at `now`.
pub fn parse_relative_date(relative: &str, now: &Timestamp) -> (r: Option<String>)
    ensures
        crate::transcript::parser::opt_view(r) == relative_date(
            relative@,
            *now,
            now.spec_days_before(1),
        ),
{
    let lowered = text::to_lowercase(relative);
    let chars = text::chars_of(lowered.as_str());
    if text::same_str(&chars, "yest") || text::same_str(&chars, "yesterday") {
        let yesterday = now.days_before(1);
        Some(date_of(&yesterday))
    } else if text::same_str(&chars, "today") {
        Some(date_of(now))
    } else {
        None
    }
}

/// The date that a digest is made for at `now`.
pub fn target_date(relative_date: Option<&str>, date: Option<&str>, now: &Timestamp) -> (r: String)
    ensures
        r@ == digest_date(
            match relative_date {
                Some(w) => Some(w@),
                None => None,
            },
            match date {
                Some(d) => Some(d@),
                None => None,
            },
            *now,
            now.spec_days_before(1),
        ),
{
    match relative_date {
        Some(word) => match parse_relative_date(word, now) {
            Some(d) => d,
            None => String::from_str(word),
        },
        None => match date {
            Some(d) => String::from_str(d),
            None => date_of(now),
        },
    }
}

} // verus!
