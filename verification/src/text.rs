//! Character-level text primitives shared by the rest of the library.
//!
//! Text is handled as sequences of characters. Every function here is stated over
//! `Seq<char>`; positions are character positions, never byte offsets. What Unicode decides
//! (which characters are white space or alphanumeric, and the lower-case form of a text) is
//! asked of the standard library and appears in contracts under a name.

use vstd::prelude::*;

verus! {

broadcast use vstd::string::group_string_axioms;

/// Whether `char::is_whitespace` holds of `c`.
pub uninterp spec fn is_space(c: char) -> bool;

/// Whether `char::is_alphanumeric` holds of `c`.
pub uninterp spec fn is_alnum(c: char) -> bool;

/// The text that `str::to_lowercase` gives for `s`.
pub uninterp spec fn lowercase(s: Seq<char>) -> Seq<char>;

/// Whether `pat` occurs in `s` at position `i`.
pub open spec fn matches_at(s: Seq<char>, pat: Seq<char>, i: int) -> bool {
    0 <= i && i + pat.len() <= s.len() && s.subrange(i, i + pat.len()) == pat
}

/// The first position at or after `from` where `pat` occurs in `s`.
pub open spec fn find_from(s: Seq<char>, pat: Seq<char>, from: int) -> Option<int>
    decreases s.len() + 1 - from,
{
    if from < 0 || from + pat.len() > s.len() {
        None
    } else if matches_at(s, pat, from) {
        Some(from)
    } else {
        find_from(s, pat, from + 1)
    }
}

/// The first position where `pat` occurs in `s`.
pub open spec fn find(s: Seq<char>, pat: Seq<char>) -> Option<int> {
    find_from(s, pat, 0)
}

/// The last position at or before `upto` where `pat` occurs in `s`.
pub open spec fn rfind_upto(s: Seq<char>, pat: Seq<char>, upto: int) -> Option<int>
    decreases upto + 1,
{
    if upto < 0 {
        None
    } else if matches_at(s, pat, upto) {
        Some(upto)
    } else {
        rfind_upto(s, pat, upto - 1)
    }
}

/// The last position where `pat` occurs in `s`.
pub open spec fn rfind(s: Seq<char>, pat: Seq<char>) -> Option<int> {
    rfind_upto(s, pat, s.len() - pat.len())
}

/// Whether `pat` occurs anywhere in `s`.
pub open spec fn contains(s: Seq<char>, pat: Seq<char>) -> bool {
    find(s, pat) is Some
}

/// The number of leading characters of `s`, from `from` on, that are white space.
pub open spec fn leading_space(s: Seq<char>, from: int) -> int
    decreases s.len() - from,
{
    if 0 <= from < s.len() && is_space(s[from]) {
        leading_space(s, from + 1) + 1
    } else {
        0
    }
}

/// The number of characters of `s` just before `upto`, not reaching below `floor`, that
/// are white space.
pub open spec fn trailing_space(s: Seq<char>, floor: int, upto: int) -> int
    decreases upto,
{
    if 0 <= floor < upto <= s.len() && is_space(s[upto - 1]) {
        trailing_space(s, floor, upto - 1) + 1
    } else {
        0
    }
}

/// `s` without its leading and trailing white space.
pub open spec fn trim(s: Seq<char>) -> Seq<char> {
    let lo = leading_space(s, 0);
    s.subrange(lo, s.len() - trailing_space(s, lo, s.len() as int))
}

/// The number of leading characters of `s`, from `from` on, that equal `c`.
pub open spec fn leading_run(s: Seq<char>, c: char, from: int) -> int
    decreases s.len() - from,
{
    if 0 <= from < s.len() && s[from] == c {
        leading_run(s, c, from + 1) + 1
    } else {
        0
    }
}

/// The number of characters of `s` just before `upto`, not reaching below `floor`, that
/// equal `c`.
pub open spec fn trailing_run(s: Seq<char>, c: char, floor: int, upto: int) -> int
    decreases upto,
{
    if 0 <= floor < upto <= s.len() && s[upto - 1] == c {
        trailing_run(s, c, floor, upto - 1) + 1
    } else {
        0
    }
}

/// `s` without the run of `c` at its end.
pub open spec fn trim_end_char(s: Seq<char>, c: char) -> Seq<char> {
    s.subrange(0, s.len() - trailing_run(s, c, 0, s.len() as int))
}

/// `s` without the runs of `c` at its start and at its end.
pub open spec fn trim_char(s: Seq<char>, c: char) -> Seq<char> {
    let lo = leading_run(s, c, 0);
    s.subrange(lo, s.len() - trailing_run(s, c, lo, s.len() as int))
}

/// The position after every repetition of `pat` at the start of `s`, counted from `from`.
pub open spec fn skip_prefixes(s: Seq<char>, pat: Seq<char>, from: int) -> int
    decreases s.len() - from,
{
    if pat.len() > 0 && matches_at(s, pat, from) {
        skip_prefixes(s, pat, from + pat.len())
    } else {
        from
    }
}

/// `s` without every repetition of `pat` at its start.
pub open spec fn trim_start_matches(s: Seq<char>, pat: Seq<char>) -> Seq<char> {
    s.subrange(skip_prefixes(s, pat, 0), s.len() as int)
}

/// The position of the first line feed at or after `from`, or the length of `s`.
pub open spec fn line_end(s: Seq<char>, from: int) -> int
    decreases s.len() - from,
{
    if 0 <= from < s.len() && s[from] != '\n' {
        line_end(s, from + 1)
    } else if from < s.len() {
        from
    } else {
        s.len() as int
    }
}

/// The line that runs from `from` to `end`, where `end` is the position of its line feed
/// or the end of the text: a carriage return before a line feed does not belong to it.
pub open spec fn line_body(s: Seq<char>, from: int, end: int) -> Seq<char> {
    if end < s.len() && from < end && s[end - 1] == '\r' {
        s.subrange(from, end - 1)
    } else {
        s.subrange(from, end)
    }
}

/// The lines of `s` from position `from` on. Lines end at a line feed, or at a carriage
/// return followed by a line feed; a line feed at the very end starts no further line.
pub open spec fn lines_from(s: Seq<char>, from: int) -> Seq<Seq<char>>
    decreases s.len() + 1 - from,
{
    if from < 0 || from >= s.len() {
        Seq::empty()
    } else {
        let end = line_end(s, from);
        if from <= end <= s.len() {
            seq![line_body(s, from, end)] + lines_from(s, end + 1)
        } else {
            Seq::empty()
        }
    }
}

/// The lines of `s`.
pub open spec fn lines(s: Seq<char>) -> Seq<Seq<char>> {
    lines_from(s, 0)
}

/// The parts joined with `sep` between each two.
pub open spec fn join(parts: Seq<Seq<char>>, sep: Seq<char>) -> Seq<char>
    decreases parts.len(),
{
    if parts.len() == 0 {
        Seq::empty()
    } else if parts.len() == 1 {
        parts[0]
    } else {
        join(parts.drop_last(), sep) + sep + parts.last()
    }
}

/// `s` from position `from` on with every occurrence of `pat`, found from left to right
/// and never overlapping, replaced by `to`. An empty `pat` replaces nothing.
pub open spec fn replace_from(s: Seq<char>, pat: Seq<char>, to: Seq<char>, from: int) -> Seq<char>
    decreases s.len() - from,
{
    if from < 0 || from >= s.len() {
        Seq::empty()
    } else if pat.len() > 0 && matches_at(s, pat, from) {
        to + replace_from(s, pat, to, from + pat.len())
    } else {
        seq![s[from]] + replace_from(s, pat, to, from + 1)
    }
}

/// `s` with every occurrence of `pat` replaced by `to`.
pub open spec fn replace(s: Seq<char>, pat: Seq<char>, to: Seq<char>) -> Seq<char> {
    replace_from(s, pat, to, 0)
}

/// Whether `a` stands before `b`, or equals it, in the order of strings: character by
/// character, a text before its extensions.
pub open spec fn lex_le(a: Seq<char>, b: Seq<char>) -> bool
    decreases a.len(),
{
    if a.len() == 0 {
        true
    } else if b.len() == 0 {
        false
    } else if a[0] != b[0] {
        a[0] < b[0]
    } else {
        lex_le(a.drop_first(), b.drop_first())
    }
}

/// Where a text goes into texts that are in ascending order: before the first that stands
/// strictly after it.
pub open spec fn sorted_position(acc: Seq<Seq<char>>, t: Seq<char>, from: int) -> int
    decreases acc.len() - from,
{
    if 0 <= from < acc.len() && lex_le(acc[from], t) {
        sorted_position(acc, t, from + 1)
    } else {
        from
    }
}

/// The texts in ascending order.
pub open spec fn sorted(all: Seq<Seq<char>>) -> Seq<Seq<char>>
    decreases all.len(),
{
    if all.len() == 0 {
        Seq::empty()
    } else {
        let rest = sorted(all.drop_last());
        rest.insert(sorted_position(rest, all.last(), 0), all.last())
    }
}

/// The texts, each once, in the order of their first occurrence.
pub open spec fn deduped(all: Seq<Seq<char>>) -> Seq<Seq<char>>
    decreases all.len(),
{
    if all.len() == 0 {
        Seq::empty()
    } else {
        let rest = deduped(all.drop_last());
        if rest.contains(all.last()) {
            rest
        } else {
            rest.push(all.last())
        }
    }
}

/// The character that stands for a digit below sixteen.
pub open spec fn digit(d: int) -> char {
    if d == 0 {
        '0'
    } else if d == 1 {
        '1'
    } else if d == 2 {
        '2'
    } else if d == 3 {
        '3'
    } else if d == 4 {
        '4'
    } else if d == 5 {
        '5'
    } else if d == 6 {
        '6'
    } else if d == 7 {
        '7'
    } else if d == 8 {
        '8'
    } else if d == 9 {
        '9'
    } else if d == 10 {
        'a'
    } else if d == 11 {
        'b'
    } else if d == 12 {
        'c'
    } else if d == 13 {
        'd'
    } else if d == 14 {
        'e'
    } else {
        'f'
    }
}

/// The decimal digits of `n`, most significant first, without leading zeros.
pub open spec fn decimal(n: nat) -> Seq<char>
    decreases n,
{
    if n < 10 {
        seq![digit(n as int)]
    } else {
        decimal(n / 10).push(digit((n % 10) as int))
    }
}

/// The lower-case hexadecimal digits of `n`, most significant first, without leading zeros.
pub open spec fn hexadecimal(n: nat) -> Seq<char>
    decreases n,
{
    if n < 16 {
        seq![digit(n as int)]
    } else {
        hexadecimal(n / 16).push(digit((n % 16) as int))
    }
}

/// The decimal form of a signed number: a minus sign before the digits of a negative one.
pub open spec fn signed_decimal(n: int) -> Seq<char> {
    if n < 0 {
        seq!['-'] + decimal((-n) as nat)
    } else {
        decimal(n as nat)
    }
}

/// `s` with zeros put before it until it is `width` characters long.
pub open spec fn zero_padded(s: Seq<char>, width: nat) -> Seq<char> {
    if s.len() < width {
        Seq::new((width - s.len()) as nat, |i: int| '0') + s
    } else {
        s
    }
}

/// The lower-case hexadecimal digits of `n`, padded with zeros to `width` characters.
pub open spec fn hex_padded(n: nat, width: nat) -> Seq<char> {
    zero_padded(hexadecimal(n), width)
}

/// The views of the texts, in order.
pub open spec fn views(v: Seq<Vec<char>>) -> Seq<Seq<char>> {
    v.map_values(|l: Vec<char>| l@)
}

/// The views of the strings, in order.
pub open spec fn string_views(v: Seq<String>) -> Seq<Seq<char>> {
    v.map_values(|l: String| l@)
}

/// Collects the characters of `s` into a vector.
pub fn chars_of(s: &str) -> (out: Vec<char>)
    ensures
        out@ == s@,
{
    let mut out: Vec<char> = Vec::new();
    for c in it: s.chars()
        invariant
            it.seq() == s@,
            out@ == it.seq().take(it.index()),
    {
        out.push(c);
    }
    out
}

/// `String::from_iter` over the characters of a vector: the string that holds exactly
/// these characters in this order.
#[verifier::external_body]
pub(crate) fn string_of(chars: &Vec<char>) -> (s: String)
    ensures
        s@ == chars@,
{
    chars.iter().collect()
}

/// `str::to_lowercase`; the result is only named.
#[verifier::external_body]
pub(crate) fn to_lowercase(s: &str) -> (r: String)
    ensures
        r@ == lowercase(s@),
{
    s.to_lowercase()
}

/// `char::is_whitespace`; the result is only named.
#[verifier::external_body]
pub(crate) fn is_whitespace(c: char) -> (r: bool)
    ensures
        r == is_space(c),
{
    c.is_whitespace()
}

/// `char::is_alphanumeric`; the result is only named.
#[verifier::external_body]
pub(crate) fn is_alphanumeric(c: char) -> (r: bool)
    ensures
        r == is_alnum(c),
{
    c.is_alphanumeric()
}

/// The lower-case form of a text held as characters.
pub fn lowercase_chars(s: &Vec<char>) -> (r: Vec<char>)
    ensures
        r@ == lowercase(s@),
{
    let owned = string_of(s);
    let lowered = to_lowercase(owned.as_str());
    chars_of(lowered.as_str())
}

/// Copies the characters of `s` between two positions.
pub fn slice(s: &Vec<char>, lo: usize, hi: usize) -> (out: Vec<char>)
    requires
        lo <= hi <= s.len(),
    ensures
        out@ == s@.subrange(lo as int, hi as int),
{
    let mut out: Vec<char> = Vec::new();
    let mut i: usize = lo;
    while i < hi
        invariant
            lo <= i <= hi <= s.len(),
            out@ == s@.subrange(lo as int, i as int),
        decreases hi - i,
    {
        out.push(s[i]);
        i += 1;
    }
    out
}

/// Appends the characters of `src` to `out`.
pub fn push_all(out: &mut Vec<char>, src: &Vec<char>)
    ensures
        final(out)@ == old(out)@ + src@,
{
    let mut i: usize = 0;
    while i < src.len()
        invariant
            i <= src.len(),
            out@ == old(out)@ + src@.subrange(0, i as int),
        decreases src.len() - i,
    {
        out.push(src[i]);
        i += 1;
    }
    assert(src@.subrange(0, src.len() as int) == src@);
}

/// Appends the characters of a string to `out`.
pub fn push_str(out: &mut Vec<char>, src: &str)
    ensures
        final(out)@ == old(out)@ + src@,
{
    let chars = chars_of(src);
    push_all(out, &chars);
}

/// Whether two texts hold the same characters.
pub fn same(a: &Vec<char>, b: &Vec<char>) -> (r: bool)
    ensures
        r == (a@ == b@),
{
    if a.len() != b.len() {
        return false;
    }
    let mut i: usize = 0;
    while i < a.len()
        invariant
            i <= a.len(),
            a.len() == b.len(),
            a@.subrange(0, i as int) == b@.subrange(0, i as int),
        decreases a.len() - i,
    {
        if a[i] != b[i] {
            return false;
        }
        assert(a@.subrange(0, i + 1) == a@.subrange(0, i as int).push(a@[i as int]));
        assert(b@.subrange(0, i + 1) == b@.subrange(0, i as int).push(b@[i as int]));
        i += 1;
    }
    assert(a@.subrange(0, a.len() as int) == a@);
    assert(b@.subrange(0, b.len() as int) == b@);
    true
}

/// Whether a text equals a string.
pub fn same_str(a: &Vec<char>, b: &str) -> (r: bool)
    ensures
        r == (a@ == b@),
{
    let chars = chars_of(b);
    same(a, &chars)
}

/// Whether `pat` occurs in `s` at position `i`.
pub fn occurs_at(s: &Vec<char>, pat: &Vec<char>, i: usize) -> (r: bool)
    ensures
        r == matches_at(s@, pat@, i as int),
{
    if pat.len() > s.len() || i > s.len() - pat.len() {
        return false;
    }
    let mut k: usize = 0;
    while k < pat.len()
        invariant
            k <= pat.len(),
            i + pat.len() <= s.len(),
            s@.subrange(i as int, i + k) == pat@.subrange(0, k as int),
        decreases pat.len() - k,
    {
        if s[i + k] != pat[k] {
            assert(s@.subrange(i as int, i + pat.len())[k as int] != pat@[k as int]);
            return false;
        }
        assert(s@.subrange(i as int, i + k + 1) == s@.subrange(i as int, i + k).push(
            s@[i + k],
        ));
        assert(pat@.subrange(0, k + 1) == pat@.subrange(0, k as int).push(pat@[k as int]));
        k += 1;
    }
    assert(pat@.subrange(0, pat.len() as int) == pat@);
    true
}

/// Whether `s` begins with `pat`.
pub fn starts_with(s: &Vec<char>, pat: &str) -> (r: bool)
    ensures
        r == matches_at(s@, pat@, 0),
{
    let p = chars_of(pat);
    occurs_at(s, &p, 0)
}

/// The first position at or after `from` where `pat` occurs in `s`.
pub fn find_in(s: &Vec<char>, pat: &Vec<char>, from: usize) -> (r: Option<usize>)
    ensures
        find_from(s@, pat@, from as int) == match r {
            Some(i) => Some(i as int),
            None => None,
        },
        r matches Some(i) ==> from <= i && i + pat.len() <= s.len() && matches_at(
            s@,
            pat@,
            i as int,
        ),
{
    if pat.len() > s.len() || from > s.len() - pat.len() {
        return None;
    }
    let last: usize = s.len() - pat.len();
    let mut i: usize = from;
    loop
        invariant
            from <= i <= last,
            last == s.len() - pat.len(),
            find_from(s@, pat@, from as int) == find_from(s@, pat@, i as int),
        decreases last - i,
    {
        if occurs_at(s, pat, i) {
            return Some(i);
        }
        if i == last {
            assert(find_from(s@, pat@, i + 1) is None);
            return None;
        }
        i += 1;
    }
}

/// The first position at or after `from` where the string `pat` occurs in `s`.
pub fn find_str(s: &Vec<char>, pat: &str, from: usize) -> (r: Option<usize>)
    ensures
        find_from(s@, pat@, from as int) == match r {
            Some(i) => Some(i as int),
            None => None,
        },
        r matches Some(i) ==> from <= i && i + pat@.len() <= s.len() && matches_at(
            s@,
            pat@,
            i as int,
        ),
{
    let p = chars_of(pat);
    find_in(s, &p, from)
}

/// The last position where `pat` occurs in `s`.
pub fn rfind_in(s: &Vec<char>, pat: &Vec<char>) -> (r: Option<usize>)
    ensures
        rfind(s@, pat@) == match r {
            Some(i) => Some(i as int),
            None => None,
        },
        r matches Some(i) ==> i + pat.len() <= s.len() && matches_at(s@, pat@, i as int),
{
    if pat.len() > s.len() {
        return None;
    }
    let mut i: usize = s.len() - pat.len();
    loop
        invariant
            i + pat.len() <= s.len(),
            rfind(s@, pat@) == rfind_upto(s@, pat@, i as int),
        decreases i,
    {
        if occurs_at(s, pat, i) {
            return Some(i);
        }
        if i == 0 {
            assert(rfind_upto(s@, pat@, -1) is None);
            return None;
        }
        i -= 1;
    }
}

/// Whether the string `pat` occurs anywhere in `s`.
pub fn contains_str(s: &Vec<char>, pat: &str) -> (r: bool)
    ensures
        r == contains(s@, pat@),
{
    find_str(s, pat, 0).is_some()
}

/// The bounds of `s` without its leading and trailing white space.
pub fn trim_bounds(s: &Vec<char>) -> (r: (usize, usize))
    ensures
        r.0 <= r.1 <= s.len(),
        r.0 == leading_space(s@, 0),
        r.1 == s.len() - trailing_space(s@, r.0 as int, s.len() as int),
        s@.subrange(r.0 as int, r.1 as int) == trim(s@),
{
    let mut lo: usize = 0;
    while lo < s.len() && is_whitespace(s[lo])
        invariant
            lo <= s.len(),
            leading_space(s@, 0) == leading_space(s@, lo as int) + lo,
        decreases s.len() - lo,
    {
        lo += 1;
    }
    let mut hi: usize = s.len();
    while hi > lo && is_whitespace(s[hi - 1])
        invariant
            lo <= hi <= s.len(),
            trailing_space(s@, lo as int, s.len() as int) == trailing_space(
                s@,
                lo as int,
                hi as int,
            ) + (s.len() - hi),
        decreases hi,
    {
        hi -= 1;
    }
    (lo, hi)
}

/// `s` without its leading and trailing white space.
pub fn trimmed(s: &Vec<char>) -> (r: Vec<char>)
    ensures
        r@ == trim(s@),
{
    let (lo, hi) = trim_bounds(s);
    slice(s, lo, hi)
}

/// Whether `s` holds nothing but white space.
pub fn is_blank(s: &Vec<char>) -> (r: bool)
    ensures
        r == (trim(s@).len() == 0),
{
    let (lo, hi) = trim_bounds(s);
    lo == hi
}

/// `s` without the runs of `c` at its start and at its end.
pub fn trimmed_char(s: &Vec<char>, c: char) -> (r: Vec<char>)
    ensures
        r@ == trim_char(s@, c),
{
    let mut lo: usize = 0;
    while lo < s.len() && s[lo] == c
        invariant
            lo <= s.len(),
            leading_run(s@, c, 0) == leading_run(s@, c, lo as int) + lo,
        decreases s.len() - lo,
    {
        lo += 1;
    }
    let mut hi: usize = s.len();
    while hi > lo && s[hi - 1] == c
        invariant
            lo <= hi <= s.len(),
            trailing_run(s@, c, lo as int, s.len() as int) == trailing_run(
                s@,
                c,
                lo as int,
                hi as int,
            ) + (s.len() - hi),
        decreases hi,
    {
        hi -= 1;
    }
    slice(s, lo, hi)
}

/// `s` without the run of `c` at its end.
pub fn trimmed_end_char(s: &Vec<char>, c: char) -> (r: Vec<char>)
    ensures
        r@ == trim_end_char(s@, c),
{
    let mut hi: usize = s.len();
    while hi > 0 && s[hi - 1] == c
        invariant
            hi <= s.len(),
            trailing_run(s@, c, 0, s.len() as int) == trailing_run(s@, c, 0, hi as int) + (s.len()
                - hi),
        decreases hi,
    {
        hi -= 1;
    }
    slice(s, 0, hi)
}

/// `s` without every repetition of `pat` at its start.
pub fn trimmed_start_matches(s: &Vec<char>, pat: &str) -> (r: Vec<char>)
    ensures
        r@ == trim_start_matches(s@, pat@),
{
    let p = chars_of(pat);
    let mut lo: usize = 0;
    if p.len() > 0 {
        while occurs_at(s, &p, lo)
            invariant
                lo <= s.len(),
                p.len() > 0,
                skip_prefixes(s@, p@, 0) == skip_prefixes(s@, p@, lo as int),
            decreases s.len() - lo,
        {
            lo += p.len();
        }
    }
    slice(s, lo, s.len())
}

/// The lines of `s`.
pub fn split_lines(s: &Vec<char>) -> (out: Vec<Vec<char>>)
    ensures
        views(out@) == lines(s@),
{
    let mut out: Vec<Vec<char>> = Vec::new();
    let mut start: usize = 0;
    assert(views(out@) == Seq::<Seq<char>>::empty());
    while start < s.len()
        invariant
            start <= s.len(),
            lines(s@) == views(out@) + lines_from(s@, start as int),
        decreases s.len() - start,
    {
        let mut end: usize = start;
        while end < s.len() && s[end] != '\n'
            invariant
                start <= end <= s.len(),
                line_end(s@, start as int) == line_end(s@, end as int),
            decreases s.len() - end,
        {
            end += 1;
        }
        let stop: usize = if end < s.len() && start < end && s[end - 1] == '\r' {
            end - 1
        } else {
            end
        };
        let line = slice(s, start, stop);
        proof {
            assert(line@ == line_body(s@, start as int, end as int));
            assert(views(out@.push(line)) == views(out@).push(line@));
            assert(lines_from(s@, start as int) == seq![line@] + lines_from(s@, end + 1));
        }
        out.push(line);
        if end == s.len() {
            assert(lines_from(s@, end + 1) == lines_from(s@, end as int));
            start = end;
        } else {
            start = end + 1;
        }
    }
    proof {
        assert(lines_from(s@, start as int) == Seq::<Seq<char>>::empty());
    }
    out
}

/// The parts from position `lo` up to `hi`, joined with `sep` between each two.
pub fn join_range(parts: &Vec<Vec<char>>, lo: usize, hi: usize, sep: &str) -> (out: Vec<char>)
    requires
        lo <= hi <= parts.len(),
    ensures
        out@ == join(views(parts@).subrange(lo as int, hi as int), sep@),
{
    let mut out: Vec<char> = Vec::new();
    let mut i: usize = lo;
    while i < hi
        invariant
            lo <= i <= hi <= parts.len(),
            out@ == join(views(parts@).subrange(lo as int, i as int), sep@),
        decreases hi - i,
    {
        proof {
            let next = views(parts@).subrange(lo as int, i + 1);
            assert(next.drop_last() == views(parts@).subrange(lo as int, i as int));
            assert(next.last() == parts@[i as int]@);
        }
        if i > lo {
            push_str(&mut out, sep);
        }
        push_all(&mut out, &parts[i]);
        i += 1;
    }
    out
}

/// The parts joined with `sep` between each two.
pub fn join_lines(parts: &Vec<Vec<char>>, sep: &str) -> (out: Vec<char>)
    ensures
        out@ == join(views(parts@), sep@),
{
    assert(views(parts@).subrange(0, parts.len() as int) == views(parts@));
    join_range(parts, 0, parts.len(), sep)
}

/// `s` with every occurrence of `pat` replaced by `to`.
pub fn replaced(s: &Vec<char>, pat: &Vec<char>, to: &Vec<char>) -> (out: Vec<char>)
    ensures
        out@ == replace(s@, pat@, to@),
{
    let mut out: Vec<char> = Vec::new();
    let mut i: usize = 0;
    while i < s.len()
        invariant
            i <= s.len(),
            replace(s@, pat@, to@) == out@ + replace_from(s@, pat@, to@, i as int),
        decreases s.len() - i,
    {
        if pat.len() > 0 && occurs_at(s, pat, i) {
            proof {
                assert(out@ + (to@ + replace_from(s@, pat@, to@, i + pat.len())) == (out@ + to@)
                    + replace_from(s@, pat@, to@, i + pat.len()));
            }
            push_all(&mut out, to);
            i += pat.len();
        } else {
            proof {
                assert(out@ + (seq![s@[i as int]] + replace_from(s@, pat@, to@, i + 1))
                    == out@.push(s@[i as int]) + replace_from(s@, pat@, to@, i + 1));
            }
            out.push(s[i]);
            i += 1;
        }
    }
    out
}

/// The character that stands for a digit below sixteen.
pub fn digit_char(d: u8) -> (c: char)
    requires
        d < 16,
    ensures
        c == digit(d as int),
{
    if d == 0 {
        '0'
    } else if d == 1 {
        '1'
    } else if d == 2 {
        '2'
    } else if d == 3 {
        '3'
    } else if d == 4 {
        '4'
    } else if d == 5 {
        '5'
    } else if d == 6 {
        '6'
    } else if d == 7 {
        '7'
    } else if d == 8 {
        '8'
    } else if d == 9 {
        '9'
    } else if d == 10 {
        'a'
    } else if d == 11 {
        'b'
    } else if d == 12 {
        'c'
    } else if d == 13 {
        'd'
    } else if d == 14 {
        'e'
    } else {
        'f'
    }
}

/// Appends the decimal digits of `n` to `out`.
pub fn push_decimal(out: &mut Vec<char>, n: u64)
    ensures
        final(out)@ == old(out)@ + decimal(n as nat),
    decreases n,
{
    if n >= 10 {
        push_decimal(out, n / 10);
    }
    out.push(digit_char((n % 10) as u8));
}

/// Appends the lower-case hexadecimal digits of `n` to `out`.
pub fn push_hexadecimal(out: &mut Vec<char>, n: u64)
    ensures
        final(out)@ == old(out)@ + hexadecimal(n as nat),
    decreases n,
{
    if n >= 16 {
        push_hexadecimal(out, n / 16);
    }
    out.push(digit_char((n % 16) as u8));
}

/// The decimal digits of `n`.
pub fn decimal_chars(n: u64) -> (out: Vec<char>)
    ensures
        out@ == decimal(n as nat),
{
    let mut out: Vec<char> = Vec::new();
    push_decimal(&mut out, n);
    out
}

/// The decimal form of a signed number.
pub fn signed_decimal_chars(n: i64) -> (out: Vec<char>)
    ensures
        out@ == signed_decimal(n as int),
{
    let mut out: Vec<char> = Vec::new();
    if n < 0 {
        out.push('-');
        let magnitude: u64 = if n == i64::MIN {
            9_223_372_036_854_775_808u64
        } else {
            (-n) as u64
        };
        push_decimal(&mut out, magnitude);
    } else {
        push_decimal(&mut out, n as u64);
    }
    out
}

/// The lower-case hexadecimal digits of `n`, padded with zeros to `width` characters.
pub fn hex_chars(n: u32, width: usize) -> (out: Vec<char>)
    ensures
        out@ == hex_padded(n as nat, width as nat),
{
    let mut digits: Vec<char> = Vec::new();
    push_hexadecimal(&mut digits, n as u64);
    let mut out: Vec<char> = Vec::new();
    let mut k: usize = digits.len();
    while k < width
        invariant
            digits.len() <= k,
            k == digits.len() || k <= width,
            out@ == Seq::new((k - digits.len()) as nat, |i: int| '0'),
        decreases width - k,
    {
        out.push('0');
        k += 1;
    }
    assert(digits@ == hexadecimal(n as nat));
    assert(out@ + digits@ =~= hex_padded(n as nat, width as nat));
    push_all(&mut out, &digits);
    out
}

/// Whether `a` stands before `b`, or equals it, in the order of strings.
pub fn precedes(a: &Vec<char>, b: &Vec<char>) -> (r: bool)
    ensures
        r == lex_le(a@, b@),
{
    let mut i: usize = 0;
    assert(a@.subrange(0, a.len() as int) =~= a@);
    assert(b@.subrange(0, b.len() as int) =~= b@);
    while i < a.len() && i < b.len()
        invariant
            i <= a.len(),
            i <= b.len(),
            lex_le(a@, b@) == lex_le(a@.subrange(i as int, a.len() as int), b@.subrange(
                i as int,
                b.len() as int,
            )),
        decreases a.len() - i,
    {
        proof {
            let x = a@.subrange(i as int, a.len() as int);
            let y = b@.subrange(i as int, b.len() as int);
            assert(x[0] == a@[i as int]);
            assert(y[0] == b@[i as int]);
            assert(x.drop_first() =~= a@.subrange(i + 1, a.len() as int));
            assert(y.drop_first() =~= b@.subrange(i + 1, b.len() as int));
        }
        if a[i] != b[i] {
            return a[i] < b[i];
        }
        i += 1;
    }
    proof {
        assert(a@.subrange(i as int, a.len() as int).len() == a.len() - i);
        assert(b@.subrange(i as int, b.len() as int).len() == b.len() - i);
    }
    i == a.len()
}

/// Whether the string at position `p` stands before `item`, or equals it.
fn string_precedes(all: &Vec<String>, p: usize, item: &Vec<char>) -> (r: bool)
    requires
        p < all.len(),
    ensures
        r == lex_le(string_views(all@)[p as int], item@),
{
    let here = chars_of(all[p].as_str());
    precedes(&here, item)
}

/// The strings in ascending order; equal ones keep their order.
pub fn sort_strings(all: &Vec<String>) -> (out: Vec<String>)
    ensures
        string_views(out@) == sorted(string_views(all@)),
{
    let ghost views_all = string_views(all@);
    let mut out: Vec<String> = Vec::new();
    let mut i: usize = 0;
    proof {
        assert(string_views(out@) =~= Seq::<Seq<char>>::empty());
        assert(views_all.subrange(0, 0) =~= Seq::<Seq<char>>::empty());
    }
    while i < all.len()
        invariant
            i <= all.len(),
            views_all == string_views(all@),
            string_views(out@) == sorted(views_all.subrange(0, i as int)),
        decreases all.len() - i,
    {
        proof {
            let next = views_all.subrange(0, i + 1);
            assert(next.drop_last() =~= views_all.subrange(0, i as int));
            assert(next.last() == all@[i as int]@);
        }
        let ghost acc = string_views(out@);
        let item = chars_of(all[i].as_str());
        let mut p: usize = 0;
        while p < out.len() && string_precedes(&out, p, &item)
            invariant
                p <= out.len(),
                acc == string_views(out@),
                sorted_position(acc, item@, 0) == sorted_position(acc, item@, p as int),
            decreases out.len() - p,
        {
            p += 1;
        }
        let copy = all[i].clone();
        out.insert(p, copy);
        assert(string_views(out@) =~= acc.insert(p as int, item@));
        i += 1;
    }
    assert(views_all.subrange(0, all.len() as int) =~= views_all);
    out
}

/// The strings in the opposite order.
pub fn reversed_strings(all: &Vec<String>) -> (out: Vec<String>)
    ensures
        string_views(out@) == string_views(all@).reverse(),
{
    let mut out: Vec<String> = Vec::new();
    let mut i: usize = all.len();
    while i > 0
        invariant
            i <= all.len(),
            out@.len() == all.len() - i,
            forall|k: int| 0 <= k < out@.len() ==> out@[k]@ == all@[all.len() - 1 - k]@,
        decreases i,
    {
        i -= 1;
        let copy = all[i].clone();
        out.push(copy);
    }
    assert(string_views(out@) =~= string_views(all@).reverse());
    out
}

/// Whether the texts stand in ascending order.
pub open spec fn ascending(all: Seq<Seq<char>>) -> bool {
    forall|i: int, j: int| 0 <= i < j < all.len() ==> lex_le(all[i], all[j])
}

/// Of two texts one stands before the other, or they are equal.
pub proof fn lemma_lex_le_total(a: Seq<char>, b: Seq<char>)
    ensures
        lex_le(a, b) || lex_le(b, a),
    decreases a.len(),
{
    if a.len() > 0 && b.len() > 0 && a[0] == b[0] {
        lemma_lex_le_total(a.drop_first(), b.drop_first());
    }
}

/// The order of texts is transitive.
pub proof fn lemma_lex_le_transitive(a: Seq<char>, b: Seq<char>, c: Seq<char>)
    requires
        lex_le(a, b),
        lex_le(b, c),
    ensures
        lex_le(a, c),
    decreases a.len(),
{
    if a.len() > 0 && b.len() > 0 && c.len() > 0 {
        if a[0] == b[0] && b[0] == c[0] {
            lemma_lex_le_transitive(a.drop_first(), b.drop_first(), c.drop_first());
        }
    }
}

/// Where a text goes into sorted texts: after every text that stands before it or equals
/// it, and before one that stands strictly after it.
pub proof fn lemma_sorted_position_bounds(acc: Seq<Seq<char>>, t: Seq<char>, from: int)
    requires
        0 <= from <= acc.len(),
    ensures
        from <= sorted_position(acc, t, from) <= acc.len(),
        forall|k: int| from <= k < sorted_position(acc, t, from) ==> lex_le(acc[k], t),
        sorted_position(acc, t, from) < acc.len() ==> !lex_le(
            acc[sorted_position(acc, t, from)],
            t,
        ),
    decreases acc.len() - from,
{
    if from < acc.len() && lex_le(acc[from], t) {
        lemma_sorted_position_bounds(acc, t, from + 1);
    }
}

/// Sorted texts stand in ascending order, and they are the texts that were sorted.
pub proof fn lemma_sorted(all: Seq<Seq<char>>)
    ensures
        ascending(sorted(all)),
        sorted(all).len() == all.len(),
        forall|t: Seq<char>| sorted(all).contains(t) <==> all.contains(t),
    decreases all.len(),
{
    if all.len() > 0 {
        let head = all.drop_last();
        let last = all.last();
        lemma_sorted(head);
        let rest = sorted(head);
        let p = sorted_position(rest, last, 0);
        lemma_sorted_position_bounds(rest, last, 0);
        let out = sorted(all);
        assert(out == rest.insert(p, last));
        assert forall|i: int, j: int| 0 <= i < j < out.len() implies lex_le(out[i], out[j]) by {
            if j < p {
                assert(out[i] == rest[i] && out[j] == rest[j]);
            } else if j == p {
                assert(out[i] == rest[i]);
            } else if i < p {
                assert(out[i] == rest[i] && out[j] == rest[j - 1]);
            } else if i == p {
                assert(out[j] == rest[j - 1]);
                lemma_lex_le_total(rest[p], last);
                if j - 1 > p {
                    lemma_lex_le_transitive(last, rest[p], rest[j - 1]);
                }
            } else {
                assert(out[i] == rest[i - 1] && out[j] == rest[j - 1]);
            }
        }
        assert forall|t: Seq<char>| all.contains(t) <==> head.contains(t) || t == last by {
            if all.contains(t) {
                let k = choose|k: int| 0 <= k < all.len() && all[k] == t;
                if k < head.len() {
                    assert(head[k] == t);
                }
            }
            if head.contains(t) {
                let k = choose|k: int| 0 <= k < head.len() && head[k] == t;
                assert(all[k] == t);
            }
            if t == last {
                assert(all[all.len() - 1] == t);
            }
        }
        assert forall|t: Seq<char>| out.contains(t) <==> rest.contains(t) || t == last by {
            if out.contains(t) {
                let i = choose|i: int| 0 <= i < out.len() && out[i] == t;
                if i < p {
                    assert(rest[i] == t);
                } else if i > p {
                    assert(rest[i - 1] == t);
                }
            }
            if rest.contains(t) {
                let i = choose|i: int| 0 <= i < rest.len() && rest[i] == t;
                if i < p {
                    assert(out[i] == t);
                } else {
                    assert(out[i + 1] == t);
                }
            }
            if t == last {
                assert(out[p] == t);
            }
        }
    }
}

/// The digit that a character stands for, or zero where it stands for none.
pub open spec fn digit_value(c: char) -> int {
    if c == '1' {
        1
    } else if c == '2' {
        2
    } else if c == '3' {
        3
    } else if c == '4' {
        4
    } else if c == '5' {
        5
    } else if c == '6' {
        6
    } else if c == '7' {
        7
    } else if c == '8' {
        8
    } else if c == '9' {
        9
    } else if c == 'a' {
        10
    } else if c == 'b' {
        11
    } else if c == 'c' {
        12
    } else if c == 'd' {
        13
    } else if c == 'e' {
        14
    } else if c == 'f' {
        15
    } else {
        0
    }
}

/// The number that a text of hexadecimal digits stands for.
pub open spec fn hex_value(s: Seq<char>) -> int
    decreases s.len(),
{
    if s.len() == 0 {
        0
    } else {
        hex_value(s.drop_last()) * 16 + digit_value(s.last())
    }
}

/// The hexadecimal digits of a number stand for that number.
pub proof fn lemma_hexadecimal_value(n: nat)
    ensures
        hex_value(hexadecimal(n)) == n,
    decreases n,
{
    if n < 16 {
        let s = hexadecimal(n);
        assert(s.drop_last() =~= Seq::<char>::empty());
        assert(s.last() == digit(n as int));
        assert(hex_value(Seq::<char>::empty()) == 0);
        assert(digit_value(digit(n as int)) == n);
        assert(hex_value(s) == hex_value(s.drop_last()) * 16 + digit_value(s.last()));
    } else {
        lemma_hexadecimal_value(n / 16);
        let s = hexadecimal(n);
        assert(s.drop_last() =~= hexadecimal(n / 16));
        assert(s.last() == digit((n % 16) as int));
        assert(digit_value(digit((n % 16) as int)) == n % 16);
        assert(hex_value(s) == hex_value(s.drop_last()) * 16 + digit_value(s.last()));
    }
}

/// Zeros before a text of hexadecimal digits do not change the number it stands for.
pub proof fn lemma_padding_value(zeros: nat, s: Seq<char>)
    ensures
        hex_value(Seq::new(zeros, |i: int| '0') + s) == hex_value(s),
    decreases s.len(),
{
    let pad = Seq::new(zeros, |i: int| '0');
    if s.len() == 0 {
        assert(pad + s =~= pad);
        lemma_zeros_value(zeros);
    } else {
        assert((pad + s).drop_last() =~= pad + s.drop_last());
        assert((pad + s).last() == s.last());
        lemma_padding_value(zeros, s.drop_last());
    }
}

/// A text of zeros stands for zero.
pub proof fn lemma_zeros_value(zeros: nat)
    ensures
        hex_value(Seq::new(zeros, |i: int| '0')) == 0,
    decreases zeros,
{
    let pad = Seq::new(zeros, |i: int| '0');
    if zeros > 0 {
        assert(pad.drop_last() =~= Seq::new((zeros - 1) as nat, |i: int| '0'));
        lemma_zeros_value((zeros - 1) as nat);
    }
}

/// The padded hexadecimal digits of a number stand for that number: two numbers with the
/// same digits are the same.
pub proof fn lemma_hex_padded_value(n: nat, width: nat)
    ensures
        hex_value(hex_padded(n, width)) == n,
{
    lemma_hexadecimal_value(n);
    if hexadecimal(n).len() < width {
        lemma_padding_value((width - hexadecimal(n).len()) as nat, hexadecimal(n));
    }
}

/// The length of a first part joined to further parts: that of the part, and where there
/// are further parts that of the separator and of their joining.
pub proof fn lemma_join_first(first: Seq<char>, rest: Seq<Seq<char>>, sep: Seq<char>)
    ensures
        join(seq![first] + rest, sep).len() == first.len() + (if rest.len() > 0 {
            sep.len() + join(rest, sep).len()
        } else {
            0
        }),
    decreases rest.len(),
{
    let all = seq![first] + rest;
    if rest.len() == 0 {
        assert(all =~= seq![first]);
        assert(all[0] == first);
    } else {
        assert(all.drop_last() =~= seq![first] + rest.drop_last());
        assert(all.last() == rest.last());
        lemma_join_first(first, rest.drop_last(), sep);
        if rest.len() == 1 {
            assert(rest[0] == rest.last());
        }
    }
}

/// The joining of the last parts is no longer than the joining of all.
pub proof fn lemma_join_suffix(parts: Seq<Seq<char>>, from: int, sep: Seq<char>)
    requires
        0 <= from <= parts.len(),
    ensures
        join(parts.subrange(from, parts.len() as int), sep).len() <= join(parts, sep).len(),
    decreases parts.len(),
{
    let n = parts.len() as int;
    let tail = parts.subrange(from, n);
    if from == n {
        assert(tail =~= Seq::<Seq<char>>::empty());
    } else if from == 0 {
        assert(tail =~= parts);
    } else {
        assert(tail.drop_last() =~= parts.drop_last().subrange(from, n - 1));
        assert(tail.last() == parts.last());
        lemma_join_suffix(parts.drop_last(), from, sep);
        if tail.len() == 1 {
            assert(tail[0] == parts.last());
        }
    }
}

/// The end of a line lies at or after its start, and within the text.
pub proof fn lemma_line_end(s: Seq<char>, from: int)
    requires
        0 <= from <= s.len(),
    ensures
        from <= line_end(s, from) <= s.len(),
    decreases s.len() - from,
{
    if from < s.len() && s[from] != '\n' {
        lemma_line_end(s, from + 1);
    }
}

/// The lines of a text, joined by line feeds, are no longer than the text.
pub proof fn lemma_lines_fit(s: Seq<char>, from: int)
    requires
        0 <= from <= s.len(),
    ensures
        join(lines_from(s, from), "\n"@).len() <= s.len() - from,
    decreases s.len() - from,
{
    reveal_strlit("\n");
    if from < s.len() {
        let end = line_end(s, from);
        lemma_line_end(s, from);
        let body = line_body(s, from, end);
        let rest = lines_from(s, end + 1);
        assert(body.len() <= end - from);
        lemma_join_first(body, rest, "\n"@);
        if end + 1 <= s.len() {
            lemma_lines_fit(s, end + 1);
        } else {
            assert(rest.len() == 0);
        }
    }
}

/// Removing repetitions leaves every text that occurs, and each only once.
pub proof fn lemma_deduped(all: Seq<Seq<char>>)
    ensures
        forall|i: int, j: int|
            0 <= i < j < deduped(all).len() ==> deduped(all)[i] != deduped(all)[j],
        forall|t: Seq<char>| deduped(all).contains(t) <==> all.contains(t),
    decreases all.len(),
{
    if all.len() > 0 {
        let head = all.drop_last();
        let last = all.last();
        lemma_deduped(head);
        let rest = deduped(head);
        let out = deduped(all);
        assert forall|t: Seq<char>| all.contains(t) <==> head.contains(t) || t == last by {
            if all.contains(t) {
                let i = choose|i: int| 0 <= i < all.len() && all[i] == t;
                if i < head.len() {
                    assert(head[i] == t);
                }
            }
            if head.contains(t) {
                let i = choose|i: int| 0 <= i < head.len() && head[i] == t;
                assert(all[i] == t);
            }
            if t == last {
                assert(all[all.len() - 1] == t);
            }
        }
        if !rest.contains(last) {
            assert forall|t: Seq<char>| out.contains(t) <==> rest.contains(t) || t == last by {
                if out.contains(t) {
                    let i = choose|i: int| 0 <= i < out.len() && out[i] == t;
                    if i < rest.len() {
                        assert(rest[i] == t);
                    }
                }
                if rest.contains(t) {
                    let i = choose|i: int| 0 <= i < rest.len() && rest[i] == t;
                    assert(out[i] == t);
                }
                if t == last {
                    assert(out[out.len() - 1] == t);
                }
            }
            assert forall|i: int, j: int| 0 <= i < j < out.len() implies out[i] != out[j] by {
                if j == out.len() - 1 {
                    assert(rest[i] == out[i]);
                    assert(rest.contains(out[i]));
                }
            }
        }
    }
}

} // verus!
