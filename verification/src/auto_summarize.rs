//! Deciding which transcripts are summarized on their own, and when.
//!
//! Two questions are answered here. Which transcripts are due: those changed today or
//! yesterday, left alone for a while, not archived yet and holding a word of the user, and
//! never more than three in one pass. And whether a pass is due at all: on every opening of
//! the dashboard where that is switched on, or once a day after a set time.

use crate::clock;
use crate::clock::{
    clamped_nanos, clamped_offset, clamped_secs, clock_time_reading, rfc3339_reading, Timestamp,
};
use crate::config::Config;
use crate::paths;
use crate::paths::{extension_of, file_name_of, file_stem_of};
use crate::text;
use crate::text::{lines, matches_at, string_views, trim, trim_char};
use crate::transcript::parser::{all_blank, holds_string};
use crate::transcript::TranscriptData;
use vstd::prelude::*;

verus! {

/// Most transcripts that one pass selects.
pub const MAX_AUTO_SUMMARIZE: usize = 3;

/// A transcript that is due for a summary.
#[derive(Debug, Clone)]
pub struct UnsummarizedTranscript {
    pub path: String,
    pub session_id: String,
    pub cwd: Option<String>,
}

/// What is known of a transcript file when it is considered.
#[derive(Debug, Clone)]
pub struct TranscriptCandidate {
    pub path: String,
    /// When the file was last changed, where that could be found out.
    pub modified: Option<Timestamp>,
    /// What was gathered from the file, where it could be read.
    pub parsed: Option<TranscriptData>,
}

/// Why no answer could be given on whether a pass is due.
#[derive(Debug, Clone, Copy, PartialEq, Eq)]
pub enum TriggerError {
    /// The configured time of day is no `HH:MM`.
    InvalidTime,
}

/// Whether a file changed at `modified` was changed on the day of `now` or the day before,
/// each by its own wall clock.
pub open spec fn is_recent(modified: Timestamp, now: Timestamp) -> bool {
    modified.local_day() == now.local_day() || modified.local_day() == now.local_day() - 1
}

/// Whether a file changed at `modified` counts as still in use at `now`: it was changed
/// less than `inactive_minutes` minutes ago, and not in the future.
pub open spec fn is_active(modified: Timestamp, now: Timestamp, inactive_minutes: int) -> bool {
    modified.instant() <= now.instant() && (now.instant() - modified.instant()) / 1_000_000_000
        < inactive_minutes * 60
}

/// Whether a file passes the rules that are applied before its content is read: it was
/// changed on a recent day, it is idle, and it is not archived under its path.
pub open spec fn passes_before_reading(
    path: Seq<char>,
    modified: Option<Timestamp>,
    archived: Seq<Seq<char>>,
    now: Timestamp,
    inactive_minutes: int,
) -> bool {
    &&& modified matches Some(m) && is_recent(m, now) && !is_active(m, now, inactive_minutes)
    &&& !archived.contains(path)
}

/// Whether a candidate is due: changed on a recent day, idle, not archived, readable and
/// not empty.
pub open spec fn is_eligible(
    c: TranscriptCandidate,
    archived: Seq<Seq<char>>,
    now: Timestamp,
    inactive_minutes: int,
) -> bool {
    &&& passes_before_reading(c.path@, c.modified, archived, now, inactive_minutes)
    &&& c.parsed matches Some(data) && !all_blank(string_views(data.user_messages@))
}

/// The session id of a transcript: the stem of its file name, or `unknown`.
pub open spec fn session_id_of(path: Seq<char>) -> Seq<char> {
    match file_stem_of(path) {
        Some(stem) => stem,
        None => "unknown"@,
    }
}

/// A selected transcript as mathematical values: its path and its session id.
pub open spec fn selection_of(c: TranscriptCandidate) -> (Seq<char>, Seq<char>) {
    (c.path@, session_id_of(c.path@))
}

/// The transcripts selected from the candidates: in their order, those that are due, up
/// to three.
pub open spec fn selected(
    candidates: Seq<TranscriptCandidate>,
    archived: Seq<Seq<char>>,
    now: Timestamp,
    inactive_minutes: int,
) -> Seq<(Seq<char>, Seq<char>)>
    decreases candidates.len(),
{
    if candidates.len() == 0 {
        Seq::empty()
    } else {
        let rest = selected(candidates.drop_last(), archived, now, inactive_minutes);
        if rest.len() < 3 && is_eligible(candidates.last(), archived, now, inactive_minutes) {
            rest.push(selection_of(candidates.last()))
        } else {
            rest
        }
    }
}

/// The selected transcripts as mathematical values.
pub open spec fn selections(v: Seq<UnsummarizedTranscript>) -> Seq<(Seq<char>, Seq<char>)> {
    v.map_values(|u: UnsummarizedTranscript| (u.path@, u.session_id@))
}

/// Whether a file under the projects directory is the transcript of a session: a file
/// with the extension `jsonl` whose name does not begin with `agent-`.
pub open spec fn is_session_file(path: Seq<char>) -> bool {
    extension_of(path) == Some("jsonl"@) && !(file_name_of(path) matches Some(name) && matches_at(
        name,
        "agent-"@,
        0,
    ))
}

/// The paths among `paths` that are transcripts of sessions, in their order.
pub open spec fn session_files(paths: Seq<Seq<char>>) -> Seq<Seq<char>>
    decreases paths.len(),
{
    if paths.len() == 0 {
        Seq::empty()
    } else {
        let rest = session_files(paths.drop_last());
        if is_session_file(paths.last()) {
            rest.push(paths.last())
        } else {
            rest
        }
    }
}

/// The transcript path that a line of front matter names, where it names one: the line
/// begins with `transcript_path:`, and all that follows, without white space and quotes
/// around it, is the path as it was recorded, unless it is `N/A`.
pub open spec fn named_path(line: Seq<char>) -> Option<Seq<char>> {
    if matches_at(line, "transcript_path:"@, 0) {
        let path = trim_char(trim(line.subrange(16, line.len() as int)), '"');
        if path == "N/A"@ {
            None
        } else {
            Some(path)
        }
    } else {
        None
    }
}

/// The transcript paths named in the front matter of an archive, read from line `from`
/// on: the front matter opens at the first line that is `---` and closes at the next.
pub open spec fn front_matter_paths(all: Seq<Seq<char>>, from: int, inside: bool) -> Seq<
    Seq<char>,
>
    decreases all.len() - from,
{
    if from < 0 || from >= all.len() {
        Seq::empty()
    } else if trim(all[from]) == "---"@ {
        if inside {
            Seq::empty()
        } else {
            front_matter_paths(all, from + 1, true)
        }
    } else if inside && named_path(all[from]) is Some {
        seq![named_path(all[from])->0] + front_matter_paths(all, from + 1, inside)
    } else {
        front_matter_paths(all, from + 1, inside)
    }
}

/// The transcript paths that the archive with the given content names.
pub open spec fn archived_paths_in(content: Seq<char>) -> Seq<Seq<char>> {
    front_matter_paths(lines(content), 0, false)
}

/// The transcript paths that the archives with the given contents name, in order, with
/// repetitions.
pub open spec fn all_archived_paths(contents: Seq<Seq<char>>) -> Seq<Seq<char>>
    decreases contents.len(),
{
    if contents.len() == 0 {
        Seq::empty()
    } else {
        all_archived_paths(contents.drop_last()) + archived_paths_in(contents.last())
    }
}

/// Whether a time-based pass is due at `now`: the set time of day has come, and no check
/// was made today at or after it.
pub open spec fn time_trigger_due(now: Timestamp, trigger_secs: int, last_check: Option<Timestamp>) -> bool {
    now.local_second_of_day() >= trigger_secs && !(last_check matches Some(last)
        && last.local_day() == now.local_day() && last.local_second_of_day() >= trigger_secs)
}

/// The last check that the configuration records, where it records one that `chrono`
/// reads: the supported timestamp nearest to the reading.
pub open spec fn recorded_check(text: Option<String>, last: Option<Timestamp>) -> bool {
    match text {
        Some(s) => match rfc3339_reading(s@) {
            Some(v) => last matches Some(t) && t.secs() == clamped_secs(v.0) && t.nanos()
                == clamped_nanos(v.1) && t.offset() == clamped_offset(v.2),
            None => last is None,
        },
        None => last is None,
    }
}

/// Whether a file changed at `modified` was changed on the day of `now` or the day before.
pub fn is_transcript_from_yesterday(modified: &Timestamp, now: &Timestamp) -> (r: bool)
    ensures
        r == is_recent(*modified, *now),
{
    let day = modified.day_number();
    let today = now.day_number();
    modified.valid();
    now.valid();
    day == today || day == today - 1
}

/// Whether a file changed at `modified` counts as still in use at `now`.
pub fn is_transcript_active(modified: &Timestamp, now: &Timestamp, inactive_minutes: u64) -> (r:
    bool)
    ensures
        r == is_active(*modified, *now, inactive_minutes as int),
{
    if now.is_before(modified) {
        return false;
    }
    let elapsed = modified.seconds_until(now);
    modified.valid();
    now.valid();
    (elapsed as i128) < (inactive_minutes as i128) * 60
}

/// Whether a file under the projects directory is the transcript of a session.
pub fn is_session_transcript(path: &str) -> (r: bool)
    ensures
        r == is_session_file(path@),
{
    match paths::extension(path) {
        Some(ext) => {
            let ext = text::chars_of(ext.as_str());
            if !text::same_str(&ext, "jsonl") {
                return false;
            }
        },
        None => {
            return false;
        },
    }
    match paths::file_name(path) {
        Some(name) => {
            let name = text::chars_of(name.as_str());
            !text::starts_with(&name, "agent-")
        },
        None => true,
    }
}

/// The transcripts of sessions among the files found under the projects directory.
pub fn find_all_transcripts(files: &Vec<String>) -> (r: Vec<String>)
    ensures
        string_views(r@) == session_files(string_views(files@)),
{
    let mut out: Vec<String> = Vec::new();
    let mut i: usize = 0;
    proof {
        assert(string_views(out@) =~= Seq::<Seq<char>>::empty());
        assert(string_views(files@).subrange(0, 0) =~= Seq::<Seq<char>>::empty());
    }
    while i < files.len()
        invariant
            i <= files.len(),
            string_views(out@) == session_files(string_views(files@).subrange(0, i as int)),
        decreases files.len() - i,
    {
        proof {
            let next = string_views(files@).subrange(0, i + 1);
            assert(next.drop_last() =~= string_views(files@).subrange(0, i as int));
            assert(next.last() == files@[i as int]@);
        }
        if is_session_transcript(files[i].as_str()) {
            let ghost prior = string_views(out@);
            let copy = files[i].clone();
            out.push(copy);
            assert(string_views(out@) =~= prior.push(files@[i as int]@));
        }
        i += 1;
    }
    assert(string_views(files@).subrange(0, files.len() as int) =~= string_views(files@));
    out
}

/// The transcript path that a line of front matter names, where it names one.
pub fn path_named_by(line: &Vec<char>) -> (r: Option<Vec<char>>)
    ensures
        r is Some <==> named_path(line@) is Some,
        r matches Some(p) ==> named_path(line@) == Some(p@),
{
    proof {
        reveal_strlit("transcript_path:");
    }
    if !text::starts_with(line, "transcript_path:") {
        return None;
    }
    let rest = text::slice(line, 16, line.len());
    let rest = text::trimmed(&rest);
    let path = text::trimmed_char(&rest, '"');
    if text::same_str(&path, "N/A") {
        None
    } else {
        Some(path)
    }
}

/// The transcript paths that the archive with the given content names in its front
/// matter.
pub fn archived_paths_of(content: &str) -> (r: Vec<String>)
    ensures
        string_views(r@) == archived_paths_in(content@),
{
    let chars = text::chars_of(content);
    let all = text::split_lines(&chars);
    let ghost ls = text::views(all@);
    let mut out: Vec<String> = Vec::new();
    let mut inside: bool = false;
    let mut i: usize = 0;
    assert(string_views(out@) =~= Seq::<Seq<char>>::empty());
    while i < all.len()
        invariant
            i <= all.len(),
            ls == text::views(all@),
            ls == lines(content@),
            archived_paths_in(content@) == string_views(out@) + front_matter_paths(
                ls,
                i as int,
                inside,
            ),
        decreases all.len() - i,
    {
        assert(ls[i as int] == all@[i as int]@);
        let stripped = text::trimmed(&all[i]);
        if text::same_str(&stripped, "---") {
            if inside {
                assert(string_views(out@) + Seq::<Seq<char>>::empty() =~= string_views(out@));
                return out;
            }
            inside = true;
        } else if inside {
            match path_named_by(&all[i]) {
                Some(p) => {
                    let ghost prior = string_views(out@);
                    let s = text::string_of(&p);
                    out.push(s);
                    assert(string_views(out@) =~= prior.push(p@));
                    assert(prior + (seq![p@] + front_matter_paths(ls, i + 1, inside))
                        =~= prior.push(p@) + front_matter_paths(ls, i + 1, inside));
                },
                None => {},
            }
        }
        i += 1;
    }
    assert(string_views(out@) + Seq::<Seq<char>>::empty() =~= string_views(out@));
    out
}

/// The transcript paths that the archives with the given contents name, each once, in the
/// order of their first naming.
pub fn get_archived_transcript_paths(contents: &Vec<String>) -> (r: Vec<String>)
    ensures
        string_views(r@) == text::deduped(all_archived_paths(string_views(contents@))),
{
    let ghost cs = string_views(contents@);
    let mut out: Vec<String> = Vec::new();
    let mut i: usize = 0;
    proof {
        assert(string_views(out@) =~= Seq::<Seq<char>>::empty());
        assert(cs.subrange(0, 0) =~= Seq::<Seq<char>>::empty());
    }
    while i < contents.len()
        invariant
            i <= contents.len(),
            cs == string_views(contents@),
            string_views(out@) == text::deduped(all_archived_paths(cs.subrange(0, i as int))),
        decreases contents.len() - i,
    {
        let found = archived_paths_of(contents[i].as_str());
        let ghost here = string_views(found@);
        let ghost base = all_archived_paths(cs.subrange(0, i as int));
        proof {
            let next = cs.subrange(0, i + 1);
            assert(next.drop_last() =~= cs.subrange(0, i as int));
            assert(next.last() == contents@[i as int]@);
            assert(all_archived_paths(next) == base + here);
            assert(base + here.subrange(0, 0) =~= base);
        }
        let mut k: usize = 0;
        while k < found.len()
            invariant
                k <= found.len(),
                here == string_views(found@),
                string_views(out@) == text::deduped(base + here.subrange(0, k as int)),
            decreases found.len() - k,
        {
            let ghost prior = string_views(out@);
            proof {
                let next = base + here.subrange(0, k + 1);
                assert(next.drop_last() =~= base + here.subrange(0, k as int));
                assert(next.last() == found@[k as int]@);
            }
            if !holds_string(&out, found[k].as_str()) {
                let copy = found[k].clone();
                out.push(copy);
                assert(string_views(out@) =~= prior.push(found@[k as int]@));
            }
            k += 1;
        }
        assert(here.subrange(0, found.len() as int) =~= here);
        i += 1;
    }
    assert(cs.subrange(0, contents.len() as int) =~= cs);
    out
}

/// Whether a file passes the rules that are applied before its content is read.
pub fn passes_early_rules(
    path: &str,
    modified: Option<&Timestamp>,
    archived_paths: &Vec<String>,
    now: &Timestamp,
    inactive_minutes: u64,
) -> (r: bool)
    ensures
        r == passes_before_reading(
            path@,
            match modified {
                Some(m) => Some(*m),
                None => None,
            },
            string_views(archived_paths@),
            *now,
            inactive_minutes as int,
        ),
{
    match modified {
        Some(m) => {
            if !is_transcript_from_yesterday(m, now) {
                return false;
            }
            if is_transcript_active(m, now, inactive_minutes) {
                return false;
            }
        },
        None => {
            return false;
        },
    }
    !holds_string(archived_paths, path)
}

/// Whether a candidate is due at `now`.
pub fn is_due(
    candidate: &TranscriptCandidate,
    archived_paths: &Vec<String>,
    now: &Timestamp,
    inactive_minutes: u64,
) -> (r: bool)
    ensures
        r == is_eligible(
            *candidate,
            string_views(archived_paths@),
            *now,
            inactive_minutes as int,
        ),
{
    match &candidate.modified {
        Some(m) => {
            if !is_transcript_from_yesterday(m, now) {
                return false;
            }
            if is_transcript_active(m, now, inactive_minutes) {
                return false;
            }
        },
        None => {
            return false;
        },
    }
    if holds_string(archived_paths, candidate.path.as_str()) {
        return false;
    }
    match &candidate.parsed {
        Some(data) => !data.is_empty(),
        None => false,
    }
}

/// The transcripts that are due for a summary at `now`: in the order of the candidates,
/// those that are due, and never more than three.
pub fn find_unsummarized_transcripts(
    config: &Config,
    candidates: &Vec<TranscriptCandidate>,
    archived_paths: &Vec<String>,
    now: &Timestamp,
) -> (r: Vec<UnsummarizedTranscript>)
    ensures
        selections(r@) == selected(
            candidates@,
            string_views(archived_paths@),
            *now,
            config.summarization.auto_summarize_inactive_minutes as int,
        ),
        r@.len() <= 3,
        forall|i: int| 0 <= i < r@.len() ==> (#[trigger] r@[i]).cwd is None,
{
    let minutes = config.summarization.auto_summarize_inactive_minutes;
    let ghost archived = string_views(archived_paths@);
    let mut out: Vec<UnsummarizedTranscript> = Vec::new();
    let mut i: usize = 0;
    proof {
        assert(selections(out@) =~= Seq::<(Seq<char>, Seq<char>)>::empty());
        assert(candidates@.subrange(0, 0) =~= Seq::<TranscriptCandidate>::empty());
    }
    while i < candidates.len()
        invariant
            i <= candidates.len(),
            archived == string_views(archived_paths@),
            minutes == config.summarization.auto_summarize_inactive_minutes,
            selections(out@) == selected(
                candidates@.subrange(0, i as int),
                archived,
                *now,
                minutes as int,
            ),
            out@.len() <= 3,
            forall|k: int| 0 <= k < out@.len() ==> (#[trigger] out@[k]).cwd is None,
        decreases candidates.len() - i,
    {
        proof {
            let next = candidates@.subrange(0, i + 1);
            assert(next.drop_last() =~= candidates@.subrange(0, i as int));
            assert(next.last() == candidates@[i as int]);
        }
        if out.len() < MAX_AUTO_SUMMARIZE && is_due(&candidates[i], archived_paths, now, minutes) {
            let ghost prior = selections(out@);
            let path = candidates[i].path.clone();
            let session_id = match paths::file_stem(path.as_str()) {
                Some(stem) => stem,
                None => String::from_str("unknown"),
            };
            let unit = UnsummarizedTranscript { path, session_id, cwd: None };
            out.push(unit);
            assert(selections(out@) =~= prior.push(selection_of(candidates@[i as int])));
        }
        i += 1;
    }
    assert(candidates@.subrange(0, candidates.len() as int) =~= candidates@);
    out
}

/// One pass of the filter, taken candidate by candidate, for a caller that reads the
/// content of a file only where the filter asks for it. The pass selects what
/// `find_unsummarized_transcripts` selects from the candidates it was offered.
pub struct EligibilityFilter {
    archived: Vec<String>,
    now: Timestamp,
    inactive_minutes: u64,
    chosen: Vec<UnsummarizedTranscript>,
    seen: Ghost<Seq<TranscriptCandidate>>,
}

impl EligibilityFilter {
    #[verifier::type_invariant]
    spec fn inv(self) -> bool {
        &&& self.now.wf()
        &&& selections(self.chosen@) == selected(
            self.seen@,
            string_views(self.archived@),
            self.now,
            self.inactive_minutes as int,
        )
        &&& self.chosen@.len() <= 3
        &&& forall|i: int| 0 <= i < self.chosen@.len() ==> (#[trigger] self.chosen@[i]).cwd is None
    }

    /// The candidates offered so far, in their order.
    pub closed spec fn offered(self) -> Seq<TranscriptCandidate> {
        self.seen@
    }

    /// The paths that are archived already.
    pub closed spec fn archived(self) -> Seq<Seq<char>> {
        string_views(self.archived@)
    }

    /// The time of the pass.
    pub closed spec fn at(self) -> Timestamp {
        self.now
    }

    /// The inactivity window of the pass, in minutes.
    pub closed spec fn window(self) -> int {
        self.inactive_minutes as int
    }

    /// What the pass has selected so far.
    pub open spec fn selection(self) -> Seq<(Seq<char>, Seq<char>)> {
        selected(self.offered(), self.archived(), self.at(), self.window())
    }

    /// A pass at `now` that was offered nothing yet.
    pub fn new(config: &Config, archived_paths: Vec<String>, now: &Timestamp) -> (r: Self)
        ensures
            r.offered() == Seq::<TranscriptCandidate>::empty(),
            r.archived() == string_views(archived_paths@),
            r.at() == *now,
            r.window() == config.summarization.auto_summarize_inactive_minutes,
    {
        now.valid();
        let chosen: Vec<UnsummarizedTranscript> = Vec::new();
        assert(selections(chosen@) =~= Seq::<(Seq<char>, Seq<char>)>::empty());
        EligibilityFilter {
            archived: archived_paths,
            now: *now,
            inactive_minutes: config.summarization.auto_summarize_inactive_minutes,
            chosen,
            seen: Ghost(Seq::empty()),
        }
    }

    /// Whether the pass has selected all it may, so that nothing offered after this is
    /// selected.
    pub fn is_full(&self) -> (r: bool)
        ensures
            r == (self.selection().len() >= 3),
    {
        proof {
            use_type_invariant(self);
        }
        self.chosen.len() >= MAX_AUTO_SUMMARIZE
    }

    /// Whether the content of a file has to be read before it is offered: the pass is not
    /// full, and the file passes the rules on its date, its idleness and its path. Where
    /// this is false the file is not selected, whatever it holds.
    pub fn wants(&self, path: &str, modified: Option<&Timestamp>) -> (r: bool)
        ensures
            r == (self.selection().len() < 3 && passes_before_reading(
                path@,
                match modified {
                    Some(m) => Some(*m),
                    None => None,
                },
                self.archived(),
                self.at(),
                self.window(),
            )),
    {
        proof {
            use_type_invariant(self);
        }
        self.chosen.len() < MAX_AUTO_SUMMARIZE && passes_early_rules(
            path,
            modified,
            &self.archived,
            &self.now,
            self.inactive_minutes,
        )
    }

    /// The pass after one more candidate was offered.
    pub fn offer(self, candidate: TranscriptCandidate) -> (r: Self)
        ensures
            r.offered() == self.offered().push(candidate),
            r.archived() == self.archived(),
            r.at() == self.at(),
            r.window() == self.window(),
    {
        proof {
            use_type_invariant(&self);
        }
        let ghost before = self.seen@;
        let ghost next = self.seen@.push(candidate);
        let EligibilityFilter { archived, now, inactive_minutes, chosen, seen } = self;
        let mut chosen = chosen;
        proof {
            assert(next.drop_last() =~= before);
            assert(next.last() == candidate);
        }
        if chosen.len() < MAX_AUTO_SUMMARIZE && is_due(&candidate, &archived, &now, inactive_minutes) {
            let ghost prior = selections(chosen@);
            let path = candidate.path.clone();
            let session_id = match paths::file_stem(path.as_str()) {
                Some(stem) => stem,
                None => String::from_str("unknown"),
            };
            chosen.push(UnsummarizedTranscript { path, session_id, cwd: None });
            assert(selections(chosen@) =~= prior.push(selection_of(candidate)));
        }
        EligibilityFilter { archived, now, inactive_minutes, chosen, seen: Ghost(next) }
    }

    /// What the pass has selected: of the candidates offered, in their order, those that
    /// are due, and never more than three.
    pub fn finish(self) -> (r: Vec<UnsummarizedTranscript>)
        ensures
            selections(r@) == self.selection(),
            r@.len() <= 3,
            forall|i: int| 0 <= i < r@.len() ==> (#[trigger] r@[i]).cwd is None,
    {
        proof {
            use_type_invariant(&self);
        }
        self.chosen
    }
}

/// A file whose content the filter does not ask for is not selected, whatever it holds:
/// offering it changes nothing of what is selected.
pub proof fn lemma_unread_is_not_selected(
    offered: Seq<TranscriptCandidate>,
    c: TranscriptCandidate,
    archived: Seq<Seq<char>>,
    now: Timestamp,
    inactive_minutes: int,
)
    requires
        !(selected(offered, archived, now, inactive_minutes).len() < 3 && passes_before_reading(
            c.path@,
            c.modified,
            archived,
            now,
            inactive_minutes,
        )),
    ensures
        selected(offered.push(c), archived, now, inactive_minutes) == selected(
            offered,
            archived,
            now,
            inactive_minutes,
        ),
{
    assert(offered.push(c).drop_last() =~= offered);
    assert(offered.push(c).last() == c);
}

/// Once three are selected, nothing that is offered after them is selected: a pass may
/// end there.
pub proof fn lemma_full_pass_is_over(
    offered: Seq<TranscriptCandidate>,
    more: Seq<TranscriptCandidate>,
    archived: Seq<Seq<char>>,
    now: Timestamp,
    inactive_minutes: int,
)
    requires
        selected(offered, archived, now, inactive_minutes).len() >= 3,
    ensures
        selected(offered + more, archived, now, inactive_minutes) == selected(
            offered,
            archived,
            now,
            inactive_minutes,
        ),
    decreases more.len(),
{
    if more.len() == 0 {
        assert(offered + more =~= offered);
    } else {
        lemma_full_pass_is_over(offered, more.drop_last(), archived, now, inactive_minutes);
        assert((offered + more).drop_last() =~= offered + more.drop_last());
    }
}

/// Whether every opening of the dashboard starts a pass: the master switch and the switch
/// of the dashboard are both on.
pub fn should_trigger_auto_summarize_on_show(config: &Config) -> (r: bool)
    ensures
        r == (config.summarization.auto_summarize_enabled
            && config.summarization.auto_summarize_on_show),
{
    config.summarization.auto_summarize_enabled && config.summarization.auto_summarize_on_show
}

/// Whether a time-based pass is due at `now`, given the set time of day in seconds since
/// midnight and the last check.
pub fn is_time_trigger_due(now: &Timestamp, trigger_secs: u32, last_check: Option<&Timestamp>) -> (r:
    bool)
    ensures
        r == time_trigger_due(
            *now,
            trigger_secs as int,
            match last_check {
                Some(t) => Some(*t),
                None => None,
            },
        ),
{
    if now.second_of_day() < trigger_secs {
        return false;
    }
    match last_check {
        Some(last) => {
            !(last.day_number() == now.day_number() && last.second_of_day() >= trigger_secs)
        },
        None => true,
    }
}

/// Whether a time-based pass is due at `now`. With the master switch off it never is.
/// Else the configured time of day must read as `HH:MM`, and the pass is due once that
/// time has come, unless a check was recorded today at or after it; a recorded check that
/// `chrono` cannot read counts as none.
pub fn should_trigger_auto_summarize_at(config: &Config, now: &Timestamp) -> (r: Result<
    bool,
    TriggerError,
>)
    ensures
        !config.summarization.auto_summarize_enabled ==> r == Ok::<bool, TriggerError>(false),
        config.summarization.auto_summarize_enabled ==> (r is Ok <==> clock_time_reading(
            config.summarization.auto_summarize_time@,
        ) is Some),
        config.summarization.auto_summarize_enabled ==> (r matches Ok(due) ==> exists|
            last: Option<Timestamp>,
        |
            recorded_check(config.summarization.last_auto_summarize_check, last) && due
                == time_trigger_due(
                *now,
                clock_time_reading(config.summarization.auto_summarize_time@)->0,
                last,
            )),
        r matches Err(e) ==> e == TriggerError::InvalidTime,
{
    if !config.summarization.auto_summarize_enabled {
        return Ok(false);
    }
    let trigger_secs = match clock::parse_clock_time(
        config.summarization.auto_summarize_time.as_str(),
    ) {
        Ok(v) => v,
        Err(_) => {
            return Err(TriggerError::InvalidTime);
        },
    };
    let last: Option<Timestamp> = match &config.summarization.last_auto_summarize_check {
        Some(s) => Timestamp::parse_rfc3339(s.as_str()),
        None => None,
    };
    let due = match &last {
        Some(t) => is_time_trigger_due(now, trigger_secs, Some(t)),
        None => is_time_trigger_due(now, trigger_secs, None),
    };
    proof {
        assert(recorded_check(config.summarization.last_auto_summarize_check, last));
    }
    Ok(due)
}

/// Whether a time-based pass is due now.
pub fn should_trigger_auto_summarize(config: &Config) -> (r: Result<bool, TriggerError>)
    ensures
        !config.summarization.auto_summarize_enabled ==> r == Ok::<bool, TriggerError>(false),
        config.summarization.auto_summarize_enabled ==> (r is Ok <==> clock_time_reading(
            config.summarization.auto_summarize_time@,
        ) is Some),
        config.summarization.auto_summarize_enabled ==> (r matches Ok(due) ==> exists|
            now: Timestamp,
            last: Option<Timestamp>,
        |
            now.wf() && recorded_check(config.summarization.last_auto_summarize_check, last)
                && due == time_trigger_due(
                now,
                clock_time_reading(config.summarization.auto_summarize_time@)->0,
                last,
            )),
        r matches Err(e) ==> e == TriggerError::InvalidTime,
{
    let now = Timestamp::now();
    let r = should_trigger_auto_summarize_at(config, &now);
    proof {
        if config.summarization.auto_summarize_enabled && r is Ok {
            let last = choose|last: Option<Timestamp>|
                recorded_check(config.summarization.last_auto_summarize_check, last) && r->Ok_0
                    == time_trigger_due(
                    now,
                    clock_time_reading(config.summarization.auto_summarize_time@)->0,
                    last,
                );
            assert(now.wf() && recorded_check(
                config.summarization.last_auto_summarize_check,
                last,
            ) && r->Ok_0 == time_trigger_due(
                now,
                clock_time_reading(config.summarization.auto_summarize_time@)->0,
                last,
            ));
        }
    }
    r
}

/// A pass never selects more than three transcripts, however many are due.
pub proof fn lemma_selection_is_capped(
    candidates: Seq<TranscriptCandidate>,
    archived: Seq<Seq<char>>,
    now: Timestamp,
    inactive_minutes: int,
)
    ensures
        selected(candidates, archived, now, inactive_minutes).len() <= 3,
        selected(candidates, archived, now, inactive_minutes).len() <= candidates.len(),
    decreases candidates.len(),
{
    if candidates.len() > 0 {
        lemma_selection_is_capped(candidates.drop_last(), archived, now, inactive_minutes);
    }
}

/// Whether the selection is that of some candidate that is due.
pub open spec fn is_due_selection(
    candidates: Seq<TranscriptCandidate>,
    archived: Seq<Seq<char>>,
    now: Timestamp,
    inactive_minutes: int,
    s: (Seq<char>, Seq<char>),
) -> bool {
    exists|i: int|
        0 <= i < candidates.len() && is_eligible(
            #[trigger] candidates[i],
            archived,
            now,
            inactive_minutes,
        ) && selection_of(candidates[i]) == s
}

/// Every selected transcript is one of the candidates that are due: one that is active,
/// changed on no recent day, archived already, unreadable or empty is never selected.
pub proof fn lemma_selection_is_due(
    candidates: Seq<TranscriptCandidate>,
    archived: Seq<Seq<char>>,
    now: Timestamp,
    inactive_minutes: int,
)
    ensures
        forall|k: int|
            0 <= k < selected(candidates, archived, now, inactive_minutes).len()
                ==> is_due_selection(
                candidates,
                archived,
                now,
                inactive_minutes,
                #[trigger] selected(candidates, archived, now, inactive_minutes)[k],
            ),
    decreases candidates.len(),
{
    if candidates.len() > 0 {
        let head = candidates.drop_last();
        lemma_selection_is_due(head, archived, now, inactive_minutes);
        let rest = selected(head, archived, now, inactive_minutes);
        let all = selected(candidates, archived, now, inactive_minutes);
        assert forall|k: int| 0 <= k < all.len() implies is_due_selection(
            candidates,
            archived,
            now,
            inactive_minutes,
            #[trigger] all[k],
        ) by {
            if k < rest.len() {
                assert(is_due_selection(head, archived, now, inactive_minutes, rest[k]));
                let i = choose|i: int|
                    0 <= i < head.len() && is_eligible(
                        #[trigger] head[i],
                        archived,
                        now,
                        inactive_minutes,
                    ) && selection_of(head[i]) == rest[k];
                assert(candidates[i] == head[i]);
            } else {
                let i = candidates.len() - 1;
                assert(is_eligible(candidates[i], archived, now, inactive_minutes));
            }
        }
    }
}

/// The inactivity window in whole seconds: a file changed `elapsed` seconds before `now`
/// is active exactly when `elapsed` is below the window.
pub proof fn lemma_activity_window(modified: Timestamp, now: Timestamp, inactive_minutes: int, elapsed: int)
    requires
        modified.wf(),
        now.wf(),
        elapsed >= 0,
        now.instant() - modified.instant() == elapsed * 1_000_000_000,
    ensures
        is_active(modified, now, inactive_minutes) <==> elapsed < inactive_minutes * 60,
{
    assert((elapsed * 1_000_000_000) / 1_000_000_000 == elapsed) by (nonlinear_arith);
}

} // verus!
