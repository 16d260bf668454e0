//! The archive of one session.

use crate::archive::manager::{ArchiveManager, FileWrite};
use crate::archive::templates::{daily_init_markdown, session_archive_markdown, Templates};
use crate::paths::joined_path;
use crate::text;
use crate::text::string_views;
use crate::transcript::parser::opt_view;
use crate::transcript::TranscriptData;
use vstd::prelude::*;

verus! {

/// What the code changes say where no file was modified.
pub const NO_FILES: &'static str = "_No files modified._";

/// A summarized session, ready for the archive.
#[derive(Debug, Clone)]
pub struct SessionArchive {
    pub title: String,
    pub date: String,
    pub session_id: String,
    pub cwd: String,
    /// The transcript that the session was read from, where it is known.
    pub transcript_path: Option<String>,
    pub git_branch: Option<String>,
    pub duration: Option<String>,
    pub tool_calls: usize,
    pub summary: String,
    pub decisions: String,
    pub code_changes: String,
    pub learnings: String,
    pub skill_hints: String,
}

/// The list of the first `upto` modified files, one to a line.
pub open spec fn change_list(files: Seq<Seq<char>>, upto: int) -> Seq<char>
    decreases upto,
{
    if upto <= 0 || upto > files.len() {
        Seq::empty()
    } else if upto == 1 {
        "- `"@ + files[0] + "`"@
    } else {
        change_list(files, upto - 1) + "\n"@ + "- `"@ + files[upto - 1] + "`"@
    }
}

/// The code changes of a session: the list of the modified files, or a word that there
/// are none.
pub open spec fn code_changes_of(files: Seq<Seq<char>>) -> Seq<char> {
    if files.len() > 0 {
        change_list(files, files.len() as int)
    } else {
        NO_FILES@
    }
}

impl SessionArchive {
    /// The archive as markdown.
    pub open spec fn markdown(&self) -> Seq<char> {
        session_archive_markdown(
            self.title@,
            self.date@,
            self.session_id@,
            self.cwd@,
            opt_view(self.transcript_path),
            opt_view(self.git_branch),
            opt_view(self.duration),
            self.tool_calls as nat,
            self.summary@,
            self.decisions@,
            self.code_changes@,
            self.learnings@,
            self.skill_hints@,
        )
    }

    /// An archive with the given title, date, session and directory, and nothing else
    /// yet.
    pub fn new(title: String, date: String, session_id: String, cwd: String) -> (r: Self)
        ensures
            r.title == title,
            r.date == date,
            r.session_id == session_id,
            r.cwd == cwd,
            r.transcript_path is None,
            r.git_branch is None,
            r.duration is None,
            r.tool_calls == 0,
            r.summary@.len() == 0,
            r.decisions@.len() == 0,
            r.code_changes@.len() == 0,
            r.learnings@.len() == 0,
            r.skill_hints@.len() == 0,
    {
        Self {
            title,
            date,
            session_id,
            cwd,
            transcript_path: None,
            git_branch: None,
            duration: None,
            tool_calls: 0,
            summary: String::new(),
            decisions: String::new(),
            code_changes: String::new(),
            learnings: String::new(),
            skill_hints: String::new(),
        }
    }

    /// The archive with the number of tool calls and the modified files of a transcript.
    pub fn with_transcript_data(self, data: &TranscriptData) -> (r: Self)
        ensures
            r.tool_calls == data.tool_calls@.len(),
            r.code_changes@ == code_changes_of(string_views(data.files_modified@)),
            r.title == self.title,
            r.date == self.date,
            r.session_id == self.session_id,
            r.cwd == self.cwd,
            r.transcript_path == self.transcript_path,
            r.git_branch == self.git_branch,
            r.duration == self.duration,
            r.summary == self.summary,
            r.decisions == self.decisions,
            r.learnings == self.learnings,
            r.skill_hints == self.skill_hints,
    {
        let ghost files = string_views(data.files_modified@);
        let code_changes = if data.files_modified.len() > 0 {
            let mut out: Vec<char> = Vec::new();
            let mut i: usize = 0;
            while i < data.files_modified.len()
                invariant
                    i <= data.files_modified.len(),
                    files == string_views(data.files_modified@),
                    out@ == change_list(files, i as int),
                decreases data.files_modified.len() - i,
            {
                let ghost before = out@;
                if i > 0 {
                    text::push_str(&mut out, "\n");
                }
                text::push_str(&mut out, "- `");
                text::push_str(&mut out, data.files_modified[i].as_str());
                text::push_str(&mut out, "`");
                proof {
                    if i == 0 {
                        assert(out@ =~= "- `"@ + files[0] + "`"@);
                    } else {
                        assert(out@ =~= before + "\n"@ + "- `"@ + files[i as int] + "`"@);
                    }
                }
                i += 1;
            }
            text::string_of(&out)
        } else {
            String::from_str(NO_FILES)
        };
        let mut r = self;
        r.tool_calls = data.tool_calls.len();
        r.code_changes = code_changes;
        r
    }

    /// The archive with the parts of a summary.
    pub fn with_summary(
        self,
        summary: String,
        decisions: String,
        learnings: String,
        skill_hints: String,
    ) -> (r: Self)
        ensures
            r.summary == summary,
            r.decisions == decisions,
            r.learnings == learnings,
            r.skill_hints == skill_hints,
            r.title == self.title,
            r.date == self.date,
            r.session_id == self.session_id,
            r.cwd == self.cwd,
            r.transcript_path == self.transcript_path,
            r.git_branch == self.git_branch,
            r.duration == self.duration,
            r.tool_calls == self.tool_calls,
            r.code_changes == self.code_changes,
    {
        let mut r = self;
        r.summary = summary;
        r.decisions = decisions;
        r.learnings = learnings;
        r.skill_hints = skill_hints;
        r
    }

    /// The archive as markdown.
    pub fn to_markdown(&self) -> (r: String)
        ensures
            r@ == self.markdown(),
    {
        Templates::session_archive(
            self.title.as_str(),
            self.date.as_str(),
            self.session_id.as_str(),
            self.cwd.as_str(),
            match &self.transcript_path {
                Some(v) => Some(v.as_str()),
                None => None,
            },
            match &self.git_branch {
                Some(v) => Some(v.as_str()),
                None => None,
            },
            match &self.duration {
                Some(v) => Some(v.as_str()),
                None => None,
            },
            self.tool_calls,
            self.summary.as_str(),
            self.decisions.as_str(),
            self.code_changes.as_str(),
            self.learnings.as_str(),
            self.skill_hints.as_str(),
        )
    }

    /// The writing that saves the archive: its markdown, into the file named by its title
    /// in the directory of its date.
    pub fn save(&self, manager: &ArchiveManager) -> (r: FileWrite)
        ensures
            r.dir@ == joined_path(manager.root(), self.date@),
            r.day_file@ == joined_path(joined_path(manager.root(), self.date@), "daily.md"@),
            r.day_content@ == daily_init_markdown(self.date@),
            r.path@ == joined_path(joined_path(manager.root(), self.date@), self.title@ + ".md"@),
            r.content@ == self.markdown(),
    {
        let content = self.to_markdown();
        manager.write_session(self.date.as_str(), self.title.as_str(), content.as_str())
    }
}

} // verus!
