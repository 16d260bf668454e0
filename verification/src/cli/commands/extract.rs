//! Naming what was extracted from a session.

use crate::text;
use crate::text::{is_alnum, lines, lowercase, matches_at, replace, trim, trim_char, trim_start_matches};
use vstd::prelude::*;

verus! {

/// The name that a line of front matter gives: the line begins with `name:`, and what
/// follows, trimmed and without quotes of either kind, is not empty.
pub open spec fn yaml_name_in(line: Seq<char>) -> Option<Seq<char>> {
    if matches_at(line, "name:"@, 0) {
        let name = trim_char(trim_char(trim(trim_start_matches(line, "name:"@)), '"'), '\'');
        if name.len() > 0 {
            Some(name)
        } else {
            None
        }
    } else {
        None
    }
}

/// The name given by the first of the lines, from `from` on, that gives one.
pub open spec fn first_yaml_name(all: Seq<Seq<char>>, from: int) -> Option<Seq<char>>
    decreases all.len() - from,
{
    if from < 0 || from >= all.len() {
        None
    } else {
        match yaml_name_in(all[from]) {
            Some(name) => Some(name),
            None => first_yaml_name(all, from + 1),
        }
    }
}

/// The name in the front matter of a content, or the default.
pub open spec fn yaml_name_of(content: Seq<char>, default: Seq<char>) -> Seq<char> {
    match first_yaml_name(lines(content), 0) {
        Some(name) => name,
        None => default,
    }
}

/// A heading made a file name: in lower case, hyphens for spaces, and nothing but
/// alphanumeric characters and hyphens.
pub open spec fn kebab(name: Seq<char>) -> Seq<char> {
    replace(lowercase(name), " "@, "-"@).filter(|c: char| is_alnum(c) || c == '-')
}

/// The name that a heading line gives: the line begins with `# `, and what follows,
/// trimmed, is not empty.
pub open spec fn heading_name_in(line: Seq<char>) -> Option<Seq<char>> {
    if matches_at(line, "# "@, 0) {
        let name = trim(trim_start_matches(line, "# "@));
        if name.len() > 0 {
            Some(kebab(name))
        } else {
            None
        }
    } else {
        None
    }
}

/// The name given by the first of the lines, from `from` on, that gives one.
pub open spec fn first_heading_name(all: Seq<Seq<char>>, from: int) -> Option<Seq<char>>
    decreases all.len() - from,
{
    if from < 0 || from >= all.len() {
        None
    } else {
        match heading_name_in(all[from]) {
            Some(name) => Some(name),
            None => first_heading_name(all, from + 1),
        }
    }
}

/// The name in the first heading of a content, or the default.
pub open spec fn heading_name_of(content: Seq<char>, default: Seq<char>) -> Seq<char> {
    match first_heading_name(lines(content), 0) {
        Some(name) => name,
        None => default,
    }
}

/// The name of a skill: that of the first line `name:` of its content that gives one, or
/// the default.
pub fn extract_name_from_yaml(content: &str, default: &str) -> (r: String)
    ensures
        r@ == yaml_name_of(content@, default@),
{
    let s = text::chars_of(content);
    let all = text::split_lines(&s);
    let ghost ls = text::views(all@);
    let mut i: usize = 0;
    while i < all.len()
        invariant
            i <= all.len(),
            ls == text::views(all@),
            ls == lines(content@),
            first_yaml_name(ls, 0) == first_yaml_name(ls, i as int),
        decreases all.len() - i,
    {
        assert(ls[i as int] == all@[i as int]@);
        if text::starts_with(&all[i], "name:") {
            let rest = text::trimmed_start_matches(&all[i], "name:");
            let rest = text::trimmed(&rest);
            let rest = text::trimmed_char(&rest, '"');
            let rest = text::trimmed_char(&rest, '\'');
            if rest.len() > 0 {
                return text::string_of(&rest);
            }
        }
        i += 1;
    }
    String::from_str(default)
}

/// A heading made a file name.
pub fn kebab_case(name: &Vec<char>) -> (r: Vec<char>)
    ensures
        r@ == kebab(name@),
{
    let lowered = text::lowercase_chars(name);
    let space = text::chars_of(" ");
    let hyphen = text::chars_of("-");
    let joined = text::replaced(&lowered, &space, &hyphen);
    let ghost keep = |c: char| is_alnum(c) || c == '-';
    let mut out: Vec<char> = Vec::new();
    let mut i: usize = 0;
    assert(joined@.subrange(0, 0) =~= Seq::<char>::empty());
    while i < joined.len()
        invariant
            i <= joined.len(),
            keep == (|c: char| is_alnum(c) || c == '-'),
            out@ == joined@.subrange(0, i as int).filter(keep),
        decreases joined.len() - i,
    {
        proof {
            let next = joined@.subrange(0, i + 1);
            assert(next.drop_last() =~= joined@.subrange(0, i as int));
            assert(next.last() == joined@[i as int]);
            reveal(Seq::filter);
        }
        let c = joined[i];
        if text::is_alphanumeric(c) || c == '-' {
            out.push(c);
        }
        i += 1;
    }
    assert(joined@.subrange(0, joined.len() as int) =~= joined@);
    out
}

/// The name of a command: the first heading of its content as a file name, or the
/// default.
pub fn extract_name_from_content(content: &str, default: &str) -> (r: String)
    ensures
        r@ == heading_name_of(content@, default@),
{
    let s = text::chars_of(content);
    let all = text::split_lines(&s);
    let ghost ls = text::views(all@);
    let mut i: usize = 0;
    while i < all.len()
        invariant
            i <= all.len(),
            ls == text::views(all@),
            ls == lines(content@),
            first_heading_name(ls, 0) == first_heading_name(ls, i as int),
        decreases all.len() - i,
    {
        assert(ls[i as int] == all@[i as int]@);
        if text::starts_with(&all[i], "# ") {
            let rest = text::trimmed_start_matches(&all[i], "# ");
            let rest = text::trimmed(&rest);
            if rest.len() > 0 {
                let name = kebab_case(&rest);
                return text::string_of(&name);
            }
        }
        i += 1;
    }
    String::from_str(default)
}

} // verus!
