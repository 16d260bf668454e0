//! The summary of one day.

use crate::archive::manager::{session_names, ArchiveManager, DirItem, FileWrite};
use crate::archive::templates::{daily_init_markdown, daily_summary_markdown, Templates};
use crate::paths::joined_path;
use crate::text::{sorted, string_views};
use crate::transcript::parser::holds_string;
use vstd::prelude::*;

verus! {

/// What the overview says before a summary was made.
pub const NO_OVERVIEW: &'static str = "_No overview yet._";

/// The summary of a day.
#[derive(Debug, Clone)]
pub struct DailySummary {
    pub date: String,
    pub sessions: Vec<String>,
    pub overview: String,
    pub session_details: String,
    pub insights: String,
    pub skills: String,
    pub commands: String,
    pub reflections: String,
    pub tomorrow_focus: String,
}

impl DailySummary {
    /// The summary as markdown.
    pub open spec fn markdown(&self) -> Seq<char> {
        daily_summary_markdown(
            self.date@,
            string_views(self.sessions@),
            self.overview@,
            self.session_details@,
            self.insights@,
            self.skills@,
            self.commands@,
            self.reflections@,
            self.tomorrow_focus@,
        )
    }

    /// Whether the summary is the empty one of its date, but for its sessions.
    pub open spec fn is_blank(&self) -> bool {
        &&& self.overview@ == NO_OVERVIEW@
        &&& self.session_details@.len() == 0
        &&& self.insights@.len() == 0
        &&& self.skills@.len() == 0
        &&& self.commands@.len() == 0
        &&& self.reflections@.len() == 0
        &&& self.tomorrow_focus@.len() == 0
    }

    /// The empty summary of a date: no sessions, no overview yet.
    pub fn new(date: String) -> (r: Self)
        ensures
            r.date == date,
            r.sessions@.len() == 0,
            r.is_blank(),
    {
        Self {
            date,
            sessions: Vec::new(),
            overview: String::from_str(NO_OVERVIEW),
            session_details: String::new(),
            insights: String::new(),
            skills: String::new(),
            commands: String::new(),
            reflections: String::new(),
            tomorrow_focus: String::new(),
        }
    }

    /// Adds a session to the summary, unless it is among its sessions already.
    pub fn add_session(&mut self, session_name: &str)
        ensures
            string_views(final(self).sessions@) == (if string_views(old(self).sessions@).contains(
                session_name@,
            ) {
                string_views(old(self).sessions@)
            } else {
                string_views(old(self).sessions@).push(session_name@)
            }),
            final(self).date == old(self).date,
            final(self).overview == old(self).overview,
            final(self).session_details == old(self).session_details,
            final(self).insights == old(self).insights,
            final(self).skills == old(self).skills,
            final(self).commands == old(self).commands,
            final(self).reflections == old(self).reflections,
            final(self).tomorrow_focus == old(self).tomorrow_focus,
    {
        if !holds_string(&self.sessions, session_name) {
            self.sessions.push(String::from_str(session_name));
            assert(string_views(self.sessions@) =~= string_views(old(self).sessions@).push(
                session_name@,
            ));
        }
    }

    /// The summary with the parts of what the summarizer found.
    pub fn with_content(
        self,
        overview: String,
        session_details: String,
        insights: String,
        skills: String,
        commands: String,
        reflections: String,
        tomorrow_focus: String,
    ) -> (r: Self)
        ensures
            r.date == self.date,
            r.sessions == self.sessions,
            r.overview == overview,
            r.session_details == session_details,
            r.insights == insights,
            r.skills == skills,
            r.commands == commands,
            r.reflections == reflections,
            r.tomorrow_focus == tomorrow_focus,
    {
        let mut r = self;
        r.overview = overview;
        r.session_details = session_details;
        r.insights = insights;
        r.skills = skills;
        r.commands = commands;
        r.reflections = reflections;
        r.tomorrow_focus = tomorrow_focus;
        r
    }

    /// The summary as markdown.
    pub fn to_markdown(&self) -> (r: String)
        ensures
            r@ == self.markdown(),
    {
        Templates::daily_summary(
            self.date.as_str(),
            &self.sessions,
            self.overview.as_str(),
            self.session_details.as_str(),
            self.insights.as_str(),
            self.skills.as_str(),
            self.commands.as_str(),
            self.reflections.as_str(),
            self.tomorrow_focus.as_str(),
        )
    }

    /// The writing that saves the summary: its markdown, into the file of the day in the
    /// directory of its date.
    pub fn save(&self, manager: &ArchiveManager) -> (r: FileWrite)
        ensures
            r.dir@ == joined_path(manager.root(), self.date@),
            r.day_file@ == joined_path(joined_path(manager.root(), self.date@), "daily.md"@),
            r.day_content@ == daily_init_markdown(self.date@),
            r.path@ == joined_path(joined_path(manager.root(), self.date@), "daily.md"@),
            r.content@ == self.markdown(),
    {
        let content = self.to_markdown();
        manager.write_daily_summary(self.date.as_str(), content.as_str())
    }

    /// The summary of a date as far as the directory of the date tells: empty, with the
    /// sessions found there. A summary that was written before is not read back.
    pub fn load_or_create(manager: &ArchiveManager, date: &str, items: &Vec<DirItem>) -> (r: Self)
        ensures
            r.date@ == date@,
            string_views(r.sessions@) == sorted(session_names(items@)),
            r.is_blank(),
    {
        let sessions = manager.list_sessions(items);
        let mut summary = Self::new(String::from_str(date));
        summary.sessions = sessions;
        summary
    }
}

} // verus!
