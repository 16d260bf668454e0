//! Choosing the directory of the archive.

use crate::paths;
use crate::paths::{file_name_of, joined_path};
use crate::text;
use crate::text::{contains, lowercase, matches_at, string_views, trim, trim_start_matches};
use vstd::prelude::*;

verus! {

/// Most directories that a search gathers.
pub const MAX_FOUND: usize = 200;

/// Most directories that a search offers.
pub const MAX_OFFERED: usize = 100;

/// How deep a search goes below the home directory.
pub const MAX_DEPTH: usize = 10;

/// What the answer to the question for the archive directory asks for.
#[derive(Debug, Clone)]
pub enum DirChoice {
    /// The default directory.
    Default,
    /// The directory named.
    Direct { path: String },
    /// A search for directories whose name holds the keyword.
    Search { keyword: String },
}

/// A path with a leading `~` replaced by the home directory, where there is one.
pub open spec fn expanded(path: Seq<char>, home: Option<Seq<char>>) -> Seq<char> {
    match home {
        Some(h) => if matches_at(path, "~"@, 0) {
            joined_path(h, trim_start_matches(trim_start_matches(path, "~/"@), "~"@))
        } else {
            path
        },
        None => path,
    }
}

/// Whether an answer names a directory: it holds a slash or begins with `~`.
pub open spec fn names_path(answer: Seq<char>) -> bool {
    contains(answer, "/"@) || matches_at(answer, "~"@, 0)
}

/// Whether a search passes a directory by: a hidden one that is not the settings
/// directory of the assistant, or one of those that hold no data of the user.
pub open spec fn is_passed_by(name: Seq<char>, assistant_dir: Seq<char>) -> bool {
    ||| (matches_at(name, "."@, 0) && name != assistant_dir)
    ||| name == "node_modules"@
    ||| name == "target"@
    ||| name == "build"@
    ||| name == "dist"@
    ||| name == ".git"@
    ||| name == "vendor"@
    ||| name == "cache"@
    ||| name == "Cache"@
    ||| name == "Caches"@
}

/// Whether a directory is offered before another, or is as good: one whose path holds
/// `daily` before one whose path does not, and of two alike the shorter first.
pub open spec fn ranks_before(a: Seq<char>, b: Seq<char>) -> bool {
    let a_daily = contains(lowercase(a), "daily"@);
    let b_daily = contains(lowercase(b), "daily"@);
    if a_daily != b_daily {
        a_daily
    } else {
        a.len() <= b.len()
    }
}

/// Where a directory goes into a ranked list: before the first that it ranks strictly
/// before.
pub open spec fn rank_position(acc: Seq<Seq<char>>, t: Seq<char>, from: int) -> int
    decreases acc.len() - from,
{
    if 0 <= from < acc.len() && ranks_before(acc[from], t) {
        rank_position(acc, t, from + 1)
    } else {
        from
    }
}

/// The directories in the order of their rank; those of equal rank keep their order.
pub open spec fn ranked(all: Seq<Seq<char>>) -> Seq<Seq<char>>
    decreases all.len(),
{
    if all.len() == 0 {
        Seq::empty()
    } else {
        let rest = ranked(all.drop_last());
        rest.insert(rank_position(rest, all.last(), 0), all.last())
    }
}

/// The first hundred of the ranked directories.
pub open spec fn offered(all: Seq<Seq<char>>) -> Seq<Seq<char>> {
    if ranked(all).len() > 100 {
        ranked(all).subrange(0, 100)
    } else {
        ranked(all)
    }
}

/// The number that a text of digits stands for, with a plus sign before it or without,
/// where it fits into thirty-two bits.
pub open spec fn number_of(s: Seq<char>) -> Option<int> {
    let digits = if s.len() > 0 && s[0] == '+' {
        s.subrange(1, s.len() as int)
    } else {
        s
    };
    if digits.len() > 0 && all_digits(digits) && digits_value(digits) <= u32::MAX {
        Some(digits_value(digits))
    } else {
        None
    }
}

/// Whether every character is a decimal digit.
pub open spec fn all_digits(s: Seq<char>) -> bool {
    forall|i: int| 0 <= i < s.len() ==> '0' <= #[trigger] s[i] <= '9'
}

/// The value of a text of decimal digits.
pub open spec fn digits_value(s: Seq<char>) -> int
    decreases s.len(),
{
    if s.len() == 0 {
        0
    } else {
        digits_value(s.drop_last()) * 10 + (s.last() as int - '0' as int)
    }
}

/// Whether a text is a time of day: hours below twenty-four, a colon, minutes below
/// sixty, and no second colon.
pub open spec fn is_clock_time(s: Seq<char>) -> bool {
    match text::find(s, ":"@) {
        Some(colon) => {
            let hours = number_of(s.subrange(0, colon));
            let minutes = number_of(s.subrange(colon + 1, s.len() as int));
            &&& text::find_from(s, ":"@, colon + 1) is None
            &&& hours matches Some(h) && h < 24
            &&& minutes matches Some(m) && m < 60
        },
        None => false,
    }
}

/// A path as it is offered: with `~` for the home directory at its start, and with a
/// note where the directory is yet to be made.
pub open spec fn offered_path(path: Seq<char>, home: Option<Seq<char>>, exists: bool) -> Seq<char> {
    (match home {
        Some(h) => if matches_at(path, h, 0) {
            "~"@ + path.subrange(h.len() as int, path.len() as int)
        } else {
            path
        },
        None => path,
    }) + (if exists {
        Seq::empty()
    } else {
        " (will create)"@
    })
}

/// A path as it is offered.
pub fn format_path_display(path: &str, home: Option<&str>, exists: bool) -> (r: String)
    ensures
        r@ == offered_path(
            path@,
            match home {
                Some(h) => Some(h@),
                None => None,
            },
            exists,
        ),
{
    let p = text::chars_of(path);
    let mut out: Vec<char> = Vec::new();
    let under_home = match home {
        Some(h) => {
            let hc = text::chars_of(h);
            if text::occurs_at(&p, &hc, 0) {
                Some(hc.len())
            } else {
                None
            }
        },
        None => None,
    };
    match under_home {
        Some(n) => {
            text::push_str(&mut out, "~");
            let rest = text::slice(&p, n, p.len());
            text::push_all(&mut out, &rest);
        },
        None => {
            text::push_all(&mut out, &p);
        },
    }
    if !exists {
        text::push_str(&mut out, " (will create)");
    }
    assert(out@ =~= offered_path(
        path@,
        match home {
            Some(h) => Some(h@),
            None => None,
        },
        exists,
    ));
    text::string_of(&out)
}

/// A path with a leading `~` replaced by the home directory, where there is one.
pub fn expand_path(path: &str, home: Option<&str>) -> (r: String)
    ensures
        r@ == expanded(
            path@,
            match home {
                Some(h) => Some(h@),
                None => None,
            },
        ),
{
    let chars = text::chars_of(path);
    match home {
        Some(h) => {
            if text::starts_with(&chars, "~") {
                let rest = text::trimmed_start_matches(&chars, "~/");
                let rest = text::trimmed_start_matches(&rest, "~");
                let rest = text::string_of(&rest);
                paths::join(h, rest.as_str())
            } else {
                String::from_str(path)
            }
        },
        None => String::from_str(path),
    }
}

/// What the answer to the question for the archive directory asks for: the default
/// where it is empty or names the default, a directory where it names a path, else a
/// search for the answer in lower case.
pub fn classify_answer(answer: &str, default_path: &str) -> (r: DirChoice)
    ensures
        trim(answer@).len() == 0 || trim(answer@) == default_path@ ==> r is Default,
        !(trim(answer@).len() == 0 || trim(answer@) == default_path@) && names_path(trim(answer@))
            ==> (r matches DirChoice::Direct { path } && path@ == trim(answer@)),
        !(trim(answer@).len() == 0 || trim(answer@) == default_path@) && !names_path(trim(answer@))
            ==> (r matches DirChoice::Search { keyword } && keyword@ == lowercase(trim(answer@))),
{
    let chars = text::chars_of(answer);
    let t = text::trimmed(&chars);
    if t.len() == 0 || text::same_str(&t, default_path) {
        DirChoice::Default
    } else if text::contains_str(&t, "/") || text::starts_with(&t, "~") {
        DirChoice::Direct { path: text::string_of(&t) }
    } else {
        let lowered = text::lowercase_chars(&t);
        DirChoice::Search { keyword: text::string_of(&lowered) }
    }
}

/// The archive directory for a directory that was chosen: the directory itself where its
/// name is `daily`, else `daily` in it.
pub fn archive_dir_in(selected: &str) -> (r: String)
    ensures
        r@ == (if file_name_of(selected@) == Some("daily"@) {
            selected@
        } else {
            joined_path(selected@, "daily"@)
        }),
{
    let is_daily = match paths::file_name(selected) {
        Some(name) => {
            let chars = text::chars_of(name.as_str());
            text::same_str(&chars, "daily")
        },
        None => false,
    };
    if is_daily {
        String::from_str(selected)
    } else {
        paths::join(selected, "daily")
    }
}

/// Whether a search passes a directory by.
pub fn is_skipped_dir(name: &str, assistant_dir: &str) -> (r: bool)
    ensures
        r == is_passed_by(name@, assistant_dir@),
{
    let n = text::chars_of(name);
    (text::starts_with(&n, ".") && !text::same_str(&n, assistant_dir)) || text::same_str(
        &n,
        "node_modules",
    ) || text::same_str(&n, "target") || text::same_str(&n, "build") || text::same_str(&n, "dist")
        || text::same_str(&n, ".git") || text::same_str(&n, "vendor") || text::same_str(
        &n,
        "cache",
    ) || text::same_str(&n, "Cache") || text::same_str(&n, "Caches")
}

/// Whether the name of a directory holds the keyword, whatever the case of the name.
pub fn matches_keyword(name: &str, keyword: &str) -> (r: bool)
    ensures
        r == contains(lowercase(name@), keyword@),
{
    let lowered = text::to_lowercase(name);
    let chars = text::chars_of(lowered.as_str());
    text::contains_str(&chars, keyword)
}

/// Whether a search goes no further: it is deeper than ten levels, or two hundred
/// directories were gathered.
pub fn search_is_over(depth: usize, gathered: usize) -> (r: bool)
    ensures
        r == (depth > 10 || gathered >= 200),
{
    depth > MAX_DEPTH || gathered >= MAX_FOUND
}

/// Gathers a directory whose name holds the keyword, unless it was gathered before.
pub fn gather_match(found: &mut Vec<String>, path: &str, name: &str, keyword: &str)
    ensures
        string_views(final(found)@) == (if contains(lowercase(name@), keyword@) && !string_views(
            old(found)@,
        ).contains(path@) {
            string_views(old(found)@).push(path@)
        } else {
            string_views(old(found)@)
        }),
{
    if matches_keyword(name, keyword) && !crate::transcript::parser::holds_string(found, path) {
        found.push(String::from_str(path));
        assert(string_views(found@) =~= string_views(old(found)@).push(path@));
    }
}

/// Whether a directory is offered before another, or is as good.
fn is_ranked_before(a: &str, b: &Vec<char>, b_daily: bool) -> (r: bool)
    requires
        b_daily == contains(lowercase(b@), "daily"@),
    ensures
        r == ranks_before(a@, b@),
{
    let a_daily = matches_keyword(a, "daily");
    if a_daily != b_daily {
        a_daily
    } else {
        a.unicode_len() <= b.len()
    }
}

/// The directories that a search offers: in the order of their rank, and no more than a
/// hundred.
pub fn search_directories_recursive(found: &Vec<String>) -> (r: Vec<String>)
    ensures
        string_views(r@) == offered(string_views(found@)),
{
    let ghost all = string_views(found@);
    let mut out: Vec<String> = Vec::new();
    let mut i: usize = 0;
    proof {
        assert(string_views(out@) =~= Seq::<Seq<char>>::empty());
        assert(all.subrange(0, 0) =~= Seq::<Seq<char>>::empty());
    }
    while i < found.len()
        invariant
            i <= found.len(),
            all == string_views(found@),
            string_views(out@) == ranked(all.subrange(0, i as int)),
        decreases found.len() - i,
    {
        proof {
            let next = all.subrange(0, i + 1);
            assert(next.drop_last() =~= all.subrange(0, i as int));
            assert(next.last() == found@[i as int]@);
        }
        let ghost acc = string_views(out@);
        let item = text::chars_of(found[i].as_str());
        let item_daily = matches_keyword(found[i].as_str(), "daily");
        let mut p: usize = 0;
        while p < out.len() && is_ranked_before(out[p].as_str(), &item, item_daily)
            invariant
                p <= out.len(),
                acc == string_views(out@),
                item_daily == contains(lowercase(item@), "daily"@),
                rank_position(acc, item@, 0) == rank_position(acc, item@, p as int),
            decreases out.len() - p,
        {
            p += 1;
        }
        let copy = found[i].clone();
        out.insert(p, copy);
        assert(string_views(out@) =~= acc.insert(p as int, item@));
        i += 1;
    }
    assert(all.subrange(0, found.len() as int) =~= all);
    if out.len() > MAX_OFFERED {
        let ghost full = string_views(out@);
        out.truncate(MAX_OFFERED);
        assert(string_views(out@) =~= full.subrange(0, 100));
    }
    out
}

/// The number that a text of digits stands for.
pub fn parse_number(s: &Vec<char>, from: usize, to: usize) -> (r: Option<u32>)
    requires
        from <= to <= s.len(),
    ensures
        number_of(s@.subrange(from as int, to as int)) == (match r {
            Some(v) => Some(v as int),
            None => None,
        }),
{
    let ghost whole = s@.subrange(from as int, to as int);
    let start: usize = if from < to && s[from] == '+' {
        from + 1
    } else {
        from
    };
    let ghost digits = s@.subrange(start as int, to as int);
    proof {
        if from < to && s[from as int] == '+' {
            assert(whole[0] == '+');
            assert(whole.subrange(1, whole.len() as int) =~= digits);
        } else {
            if from < to {
                assert(whole[0] == s@[from as int]);
            }
            assert(whole =~= digits);
        }
    }
    if start == to {
        return None;
    }
    let ghost wanted = number_of(whole);
    let mut value: u64 = 0;
    let mut i: usize = start;
    assert(digits.subrange(0, 0) =~= Seq::<char>::empty());
    while i < to
        invariant
            start <= i <= to <= s.len(),
            start < to,
            from <= to,
            digits == s@.subrange(start as int, to as int),
            wanted == number_of(s@.subrange(from as int, to as int)),
            wanted == (if all_digits(digits) && digits_value(digits) <= u32::MAX {
                Some(digits_value(digits))
            } else {
                None
            }),
            all_digits(digits.subrange(0, i - start)),
            value == digits_value(digits.subrange(0, i - start)),
            value <= u32::MAX,
        decreases to - i,
    {
        let c = s[i];
        let ghost next = digits.subrange(0, i - start + 1);
        proof {
            assert(next.drop_last() =~= digits.subrange(0, i - start));
            assert(next.last() == c);
            assert(digits[i - start] == c);
        }
        if c < '0' || c > '9' {
            assert(!all_digits(digits));
            return None;
        }
        proof {
            assert forall|k: int| 0 <= k < next.len() implies '0' <= #[trigger] next[k]
                <= '9' by {
                if k < next.len() - 1 {
                    assert(digits.subrange(0, i - start)[k] == next[k]);
                }
            }
        }
        let d: u64 = (c as u32 - '0' as u32) as u64;
        let next_value: u64 = value * 10 + d;
        assert(next_value == digits_value(next));
        if next_value > u32::MAX as u64 {
            proof {
                lemma_digits_value_grows(digits, i - start + 1);
            }
            return None;
        }
        value = next_value;
        i += 1;
    }
    assert(digits.subrange(0, to - start) =~= digits);
    Some(value as u32)
}

/// The value of a text of digits is no smaller than that of any of its beginnings.
pub proof fn lemma_digits_value_grows(s: Seq<char>, upto: int)
    requires
        0 <= upto <= s.len(),
        all_digits(s.subrange(0, upto)),
    ensures
        all_digits(s) ==> digits_value(s) >= digits_value(s.subrange(0, upto)),
        digits_value(s.subrange(0, upto)) >= 0,
    decreases s.len() - upto,
{
    lemma_digits_value_nonnegative(s.subrange(0, upto));
    if upto < s.len() && all_digits(s) {
        let next = s.subrange(0, upto + 1);
        assert(next.drop_last() =~= s.subrange(0, upto));
        assert forall|k: int| 0 <= k < next.len() implies '0' <= #[trigger] next[k] <= '9' by {
            assert(next[k] == s[k]);
        }
        lemma_digits_value_grows(s, upto + 1);
    } else if upto == s.len() {
        assert(s.subrange(0, upto) =~= s);
    }
}

/// The value of a text of digits is not negative.
pub proof fn lemma_digits_value_nonnegative(s: Seq<char>)
    requires
        all_digits(s),
    ensures
        digits_value(s) >= 0,
    decreases s.len(),
{
    if s.len() > 0 {
        assert forall|k: int| 0 <= k < s.drop_last().len() implies '0' <= #[trigger] s.drop_last()[k]
            <= '9' by {
            assert(s.drop_last()[k] == s[k]);
        }
        lemma_digits_value_nonnegative(s.drop_last());
    }
}

/// Whether a text is a time of day, written as hours, a colon and minutes.
pub fn is_valid_clock_time(input: &str) -> (r: bool)
    ensures
        r == is_clock_time(input@),
{
    proof {
        reveal_strlit(":");
    }
    let s = text::chars_of(input);
    match text::find_str(&s, ":", 0) {
        Some(colon) => {
            if text::find_str(&s, ":", colon + 1).is_some() {
                return false;
            }
            match parse_number(&s, 0, colon) {
                Some(h) => {
                    if h >= 24 {
                        return false;
                    }
                },
                None => {
                    return false;
                },
            }
            match parse_number(&s, colon + 1, s.len()) {
                Some(m) => m < 60,
                None => false,
            }
        },
        None => false,
    }
}

} // verus!
