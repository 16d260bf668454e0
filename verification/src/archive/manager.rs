//! Where the files of the archive lie, and which of the files found are sessions.

use crate::archive::templates::{daily_init_markdown, Templates};
use crate::config::settings::expanded_path;
use crate::config::Config;
use crate::paths;
use crate::paths::{file_name_of, file_stem_of, joined_path};
use crate::text;
use crate::text::{sorted, string_views};
use vstd::prelude::*;

verus! {

/// A file to be written, with the directory that has to be there first.
#[derive(Debug, Clone)]
pub struct FileWrite {
    /// The directory of the date. Where it is missing it is made, and the file of the day
    /// is started in it.
    pub dir: String,
    /// The file of the day in that directory.
    pub day_file: String,
    /// What the file of the day starts with in a directory that was just made.
    pub day_content: String,
    /// The file to write.
    pub path: String,
    /// What to write into it.
    pub content: String,
}

/// What was found in a directory.
#[derive(Debug, Clone)]
pub struct DirItem {
    pub path: String,
    pub is_file: bool,
    pub is_dir: bool,
}

/// The manager of the directories and files of the archive.
pub struct ArchiveManager {
    config: Config,
    root: String,
}

/// The name of the session that an item of a date's directory holds: the stem of a file
/// that is not the file of the day.
pub open spec fn session_name_of(item: DirItem) -> Option<Seq<char>> {
    if item.is_file {
        match file_stem_of(item.path@) {
            Some(stem) => if stem == "daily"@ {
                None
            } else {
                Some(stem)
            },
            None => None,
        }
    } else {
        None
    }
}

/// The names of the sessions among the items, in their order.
pub open spec fn session_names(items: Seq<DirItem>) -> Seq<Seq<char>>
    decreases items.len(),
{
    if items.len() == 0 {
        Seq::empty()
    } else {
        let rest = session_names(items.drop_last());
        match session_name_of(items.last()) {
            Some(name) => rest.push(name),
            None => rest,
        }
    }
}

/// Whether a name looks like a date: ten characters with a hyphen as the fifth.
pub open spec fn looks_like_date(name: Seq<char>) -> bool {
    name.len() == 10 && name[4] == '-'
}

/// The date that an item of the storage directory stands for: the name of a directory
/// that looks like a date.
pub open spec fn date_name_of(item: DirItem) -> Option<Seq<char>> {
    if item.is_dir {
        match file_name_of(item.path@) {
            Some(name) => if looks_like_date(name) {
                Some(name)
            } else {
                None
            },
            None => None,
        }
    } else {
        None
    }
}

/// The dates among the items, in their order.
pub open spec fn date_names(items: Seq<DirItem>) -> Seq<Seq<char>>
    decreases items.len(),
{
    if items.len() == 0 {
        Seq::empty()
    } else {
        let rest = date_names(items.drop_last());
        match date_name_of(items.last()) {
            Some(name) => rest.push(name),
            None => rest,
        }
    }
}

/// The files of the first `upto` sessions in a directory.
pub open spec fn session_paths(dir: Seq<char>, names: Seq<Seq<char>>, upto: int) -> Seq<Seq<char>>
    decreases upto,
{
    if upto <= 0 || upto > names.len() {
        Seq::empty()
    } else {
        session_paths(dir, names, upto - 1).push(joined_path(dir, names[upto - 1] + ".md"@))
    }
}

impl ArchiveManager {
    /// The configuration the manager works with.
    pub closed spec fn config(&self) -> Config {
        self.config
    }

    /// The storage directory.
    pub closed spec fn root(&self) -> Seq<char> {
        self.root@
    }

    /// A manager for the storage directory of the configuration, with a leading `~`
    /// replaced by the home directory of the current user.
    pub fn new(config: Config) -> (r: Self)
        ensures
            r.config() == config,
            exists|home: Option<Seq<char>>| r.root() == expanded_path(config.storage.path@, home),
    {
        let root = config.storage_path();
        Self { config, root }
    }

    /// A manager for the given storage directory.
    pub fn with_root(config: Config, root: &str) -> (r: Self)
        ensures
            r.config() == config,
            r.root() == root@,
    {
        Self { config, root: String::from_str(root) }
    }

    /// The storage directory.
    pub fn storage_dir(&self) -> (r: &str)
        ensures
            r@ == self.root(),
    {
        self.root.as_str()
    }

    /// The directory of a date.
    pub fn date_dir(&self, date: &str) -> (r: String)
        ensures
            r@ == joined_path(self.root(), date@),
    {
        paths::join(self.root.as_str(), date)
    }

    /// Where the archive of a session lies.
    pub fn session_archive_path(&self, date: &str, task_name: &str) -> (r: String)
        ensures
            r@ == joined_path(joined_path(self.root(), date@), task_name@ + ".md"@),
    {
        let dir = self.date_dir(date);
        let mut name = text::chars_of(task_name);
        text::push_str(&mut name, ".md");
        let name = text::string_of(&name);
        paths::join(dir.as_str(), name.as_str())
    }

    /// Where the summary of a day lies.
    pub fn daily_summary_path(&self, date: &str) -> (r: String)
        ensures
            r@ == joined_path(joined_path(self.root(), date@), "daily.md"@),
    {
        let dir = self.date_dir(date);
        paths::join(dir.as_str(), "daily.md")
    }

    /// The names of the sessions archived under a date, in ascending order, given what
    /// was found in the directory of the date.
    pub fn list_sessions(&self, items: &Vec<DirItem>) -> (r: Vec<String>)
        ensures
            string_views(r@) == sorted(session_names(items@)),
    {
        let mut found: Vec<String> = Vec::new();
        let mut i: usize = 0;
        proof {
            assert(string_views(found@) =~= Seq::<Seq<char>>::empty());
            assert(items@.subrange(0, 0) =~= Seq::<DirItem>::empty());
        }
        while i < items.len()
            invariant
                i <= items.len(),
                string_views(found@) == session_names(items@.subrange(0, i as int)),
            decreases items.len() - i,
        {
            proof {
                let next = items@.subrange(0, i + 1);
                assert(next.drop_last() =~= items@.subrange(0, i as int));
                assert(next.last() == items@[i as int]);
            }
            if items[i].is_file {
                match paths::file_stem(items[i].path.as_str()) {
                    Some(stem) => {
                        let chars = text::chars_of(stem.as_str());
                        if !text::same_str(&chars, "daily") {
                            let ghost prior = string_views(found@);
                            found.push(stem);
                            assert(string_views(found@) =~= prior.push(stem@));
                        }
                    },
                    None => {},
                }
            }
            i += 1;
        }
        assert(items@.subrange(0, items.len() as int) =~= items@);
        text::sort_strings(&found)
    }

    /// The dates that the archive holds, the latest first, given what was found in the
    /// storage directory.
    pub fn list_dates(&self, items: &Vec<DirItem>) -> (r: Vec<String>)
        ensures
            string_views(r@) == sorted(date_names(items@)).reverse(),
    {
        let mut found: Vec<String> = Vec::new();
        let mut i: usize = 0;
        proof {
            assert(string_views(found@) =~= Seq::<Seq<char>>::empty());
            assert(items@.subrange(0, 0) =~= Seq::<DirItem>::empty());
        }
        while i < items.len()
            invariant
                i <= items.len(),
                string_views(found@) == date_names(items@.subrange(0, i as int)),
            decreases items.len() - i,
        {
            proof {
                let next = items@.subrange(0, i + 1);
                assert(next.drop_last() =~= items@.subrange(0, i as int));
                assert(next.last() == items@[i as int]);
            }
            if items[i].is_dir {
                match paths::file_name(items[i].path.as_str()) {
                    Some(name) => {
                        let chars = text::chars_of(name.as_str());
                        if chars.len() == 10 && chars[4] == '-' {
                            let ghost prior = string_views(found@);
                            found.push(name);
                            assert(string_views(found@) =~= prior.push(name@));
                        }
                    },
                    None => {},
                }
            }
            i += 1;
        }
        assert(items@.subrange(0, items.len() as int) =~= items@);
        let ascending = text::sort_strings(&found);
        text::reversed_strings(&ascending)
    }

    /// Whether a date has sessions that were not digested yet, given what was found in
    /// the directory of the date.
    pub fn has_sessions(&self, items: &Vec<DirItem>) -> (r: bool)
        ensures
            r == (session_names(items@).len() > 0),
    {
        let names = self.list_sessions(items);
        proof {
            text::lemma_sorted(session_names(items@));
        }
        names.len() > 0
    }

    /// The files of the sessions of a date, which a digest removes, given what was found
    /// in the directory of the date.
    pub fn delete_sessions(&self, date: &str, items: &Vec<DirItem>) -> (r: Vec<String>)
        ensures
            string_views(r@) == session_paths(
                joined_path(self.root(), date@),
                sorted(session_names(items@)),
                sorted(session_names(items@)).len() as int,
            ),
    {
        let dir = self.date_dir(date);
        let names = self.list_sessions(items);
        let ghost ns = string_views(names@);
        let mut out: Vec<String> = Vec::new();
        let mut i: usize = 0;
        assert(string_views(out@) =~= Seq::<Seq<char>>::empty());
        while i < names.len()
            invariant
                i <= names.len(),
                ns == string_views(names@),
                dir@ == joined_path(self.root(), date@),
                string_views(out@) == session_paths(dir@, ns, i as int),
            decreases names.len() - i,
        {
            let ghost prior = string_views(out@);
            let mut name = text::chars_of(names[i].as_str());
            text::push_str(&mut name, ".md");
            let name = text::string_of(&name);
            let path = paths::join(dir.as_str(), name.as_str());
            out.push(path);
            assert(string_views(out@) =~= prior.push(joined_path(dir@, ns[i as int] + ".md"@)));
            i += 1;
        }
        out
    }

    /// The writing of a file into the directory of a date.
    fn write_into(&self, date: &str, path: String, content: &str) -> (r: FileWrite)
        ensures
            r.dir@ == joined_path(self.root(), date@),
            r.day_file@ == joined_path(joined_path(self.root(), date@), "daily.md"@),
            r.day_content@ == daily_init_markdown(date@),
            r.path@ == path@,
            r.content@ == content@,
    {
        FileWrite {
            dir: self.date_dir(date),
            day_file: self.daily_summary_path(date),
            day_content: Templates::daily_init(date),
            path,
            content: String::from_str(content),
        }
    }

    /// The writing of the archive of a session.
    pub fn write_session(&self, date: &str, task_name: &str, content: &str) -> (r: FileWrite)
        ensures
            r.dir@ == joined_path(self.root(), date@),
            r.day_file@ == joined_path(joined_path(self.root(), date@), "daily.md"@),
            r.day_content@ == daily_init_markdown(date@),
            r.path@ == joined_path(joined_path(self.root(), date@), task_name@ + ".md"@),
            r.content@ == content@,
    {
        let path = self.session_archive_path(date, task_name);
        self.write_into(date, path, content)
    }

    /// The writing of the summary of a day.
    pub fn write_daily_summary(&self, date: &str, content: &str) -> (r: FileWrite)
        ensures
            r.dir@ == joined_path(self.root(), date@),
            r.day_file@ == joined_path(joined_path(self.root(), date@), "daily.md"@),
            r.day_content@ == daily_init_markdown(date@),
            r.path@ == joined_path(joined_path(self.root(), date@), "daily.md"@),
            r.content@ == content@,
    {
        let path = self.daily_summary_path(date);
        self.write_into(date, path, content)
    }
}

} // verus!
