//! The configuration value and its defaults.

use crate::paths;
use crate::paths::joined_path;
use crate::text;
use crate::text::{matches_at, trim_start_matches};
use vstd::prelude::*;

verus! {

#[derive(Debug, Clone)]
pub struct Config {
    pub storage: StorageConfig,
    pub archive: ArchiveConfig,
    pub summarization: SummarizationConfig,
    pub hooks: HooksConfig,
    pub output: OutputConfig,
    /// Custom prompt templates; an absent one stands for the built-in text.
    pub prompt_templates: PromptTemplatesConfig,
}

#[derive(Debug, Clone)]
pub struct StorageConfig {
    pub path: String,
}

#[derive(Debug, Clone)]
pub struct ArchiveConfig {
    pub author: Option<String>,
    pub tags: Vec<String>,
    pub include_cwd: bool,
    pub include_git_info: bool,
}

#[derive(Debug, Clone)]
pub struct SummarizationConfig {
    pub model: String,
    pub max_tokens: u32,
    pub enable_daily_summary: bool,
    pub enable_extraction_hints: bool,
    /// Time of day, as `HH:MM`, after which the previous day's sessions are digested.
    pub digest_time: String,
    /// Whether the previous day's sessions are digested when a session starts.
    pub auto_digest_enabled: bool,
    /// Language of the summaries: `en` or `zh`.
    pub summary_language: String,
    /// Master switch of automatic summarization.
    pub auto_summarize_enabled: bool,
    /// Time of day, as `HH:MM`, after which automatic summarization is due.
    pub auto_summarize_time: String,
    /// When automatic summarization was last considered, as RFC 3339 text.
    pub last_auto_summarize_check: Option<String>,
    /// Whether automatic summarization runs on every opening of the dashboard.
    pub auto_summarize_on_show: bool,
    /// Minutes without a change after which a transcript counts as finished.
    pub auto_summarize_inactive_minutes: u64,
}

#[derive(Debug, Clone)]
pub struct HooksConfig {
    pub enable_session_start: bool,
    pub enable_session_end: bool,
    pub background_timeout: u64,
}

#[derive(Debug, Clone)]
pub struct OutputConfig {
    pub terminal_format: String,
    pub date_format: String,
    pub time_format: String,
}

/// Custom prompt templates; an absent one stands for the built-in text.
#[derive(Debug, Clone)]
pub struct PromptTemplatesConfig {
    pub session_summary: Option<String>,
    pub daily_summary: Option<String>,
    pub skill_extract: Option<String>,
    pub command_extract: Option<String>,
}

/// The language of summaries where the stored settings name none.
pub fn default_summary_language() -> (r: String)
    ensures
        r@ == "en"@,
{
    String::from_str("en")
}

/// The digest time where the stored settings name none.
pub fn default_digest_time() -> (r: String)
    ensures
        r@ == "06:00"@,
{
    String::from_str("06:00")
}

/// Whether sessions are digested automatically where the stored settings do not say.
pub fn default_auto_digest() -> (r: bool)
    ensures
        r,
{
    true
}

/// Whether automatic summarization is on where the stored settings do not say.
pub fn default_auto_summarize_enabled() -> (r: bool)
    ensures
        !r,
{
    false
}

/// The time of automatic summarization where the stored settings name none.
pub fn default_auto_summarize_time() -> (r: String)
    ensures
        r@ == "06:00"@,
{
    String::from_str("06:00")
}

/// Whether the dashboard triggers summarization where the stored settings do not say.
pub fn default_auto_summarize_on_show() -> (r: bool)
    ensures
        !r,
{
    false
}

/// The inactivity window, in minutes, where the stored settings name none.
pub fn default_auto_summarize_inactive_minutes() -> (r: u64)
    ensures
        r == 30,
{
    30
}

/// The storage directory of a fresh configuration: `daily` in the settings directory of
/// the assistant, which is named by a dot and the assistant's name and lies in the home
/// directory, or in `.` where there is none.
pub open spec fn default_storage_path(home: Option<Seq<char>>, assistant: Seq<char>) -> Seq<char> {
    let base = match home {
        Some(h) => h,
        None => "."@,
    };
    joined_path(joined_path(base, "."@ + assistant), "daily"@)
}

/// The storage directory with a leading `~` replaced by the home directory, where there is
/// one.
pub open spec fn expanded_path(path: Seq<char>, home: Option<Seq<char>>) -> Seq<char> {
    match home {
        Some(h) => if matches_at(path, "~"@, 0) {
            joined_path(h, trim_start_matches(path, "~/"@))
        } else {
            path
        },
        None => path,
    }
}

impl Default for PromptTemplatesConfig {
    fn default() -> (r: Self)
        ensures
            r.session_summary is None,
            r.daily_summary is None,
            r.skill_extract is None,
            r.command_extract is None,
    {
        PromptTemplatesConfig {
            session_summary: None,
            daily_summary: None,
            skill_extract: None,
            command_extract: None,
        }
    }
}

impl Config {
    /// Whether this is the configuration that a first run starts from, given the home
    /// directory and the name of the assistant whose sessions are archived.
    pub open spec fn is_fresh(&self, home: Option<Seq<char>>, assistant: Seq<char>) -> bool {
        &&& self.storage.path@ == default_storage_path(home, assistant)
        &&& self.archive.author is None
        &&& self.archive.tags@.len() == 2
        &&& self.archive.tags@[0]@ == assistant + "-code"@
        &&& self.archive.tags@[1]@ == "daily-archive"@
        &&& self.archive.include_cwd
        &&& self.archive.include_git_info
        &&& self.summarization.model@ == "sonnet"@
        &&& self.summarization.max_tokens == 4096
        &&& self.summarization.enable_daily_summary
        &&& self.summarization.enable_extraction_hints
        &&& self.summarization.digest_time@ == "06:00"@
        &&& self.summarization.auto_digest_enabled
        &&& self.summarization.summary_language@ == "en"@
        &&& self.summarization.auto_summarize_enabled
        &&& self.summarization.auto_summarize_time@ == "06:00"@
        &&& self.summarization.last_auto_summarize_check is None
        &&& !self.summarization.auto_summarize_on_show
        &&& self.summarization.auto_summarize_inactive_minutes == 30
        &&& self.hooks.enable_session_start
        &&& self.hooks.enable_session_end
        &&& self.hooks.background_timeout == 300
        &&& self.output.terminal_format@ == "colored"@
        &&& self.output.date_format@ == "%Y-%m-%d"@
        &&& self.output.time_format@ == "%H:%M:%S"@
        &&& self.prompt_templates.session_summary is None
        &&& self.prompt_templates.daily_summary is None
        &&& self.prompt_templates.skill_extract is None
        &&& self.prompt_templates.command_extract is None
    }

    /// The configuration that a first run starts from, given the home directory and the
    /// name of the assistant whose sessions are archived.
    pub fn fresh(home: Option<&str>, assistant: &str) -> (r: Config)
        ensures
            r.is_fresh(
                match home {
                    Some(h) => Some(h@),
                    None => None,
                },
                assistant@,
            ),
    {
        let mut dir: Vec<char> = Vec::new();
        text::push_str(&mut dir, ".");
        text::push_str(&mut dir, assistant);
        let dir = text::string_of(&dir);
        let base = match home {
            Some(h) => paths::join(h, dir.as_str()),
            None => paths::join(".", dir.as_str()),
        };
        let path = paths::join(base.as_str(), "daily");
        let mut tag: Vec<char> = Vec::new();
        text::push_str(&mut tag, assistant);
        text::push_str(&mut tag, "-code");
        let mut tags: Vec<String> = Vec::new();
        tags.push(text::string_of(&tag));
        tags.push(String::from_str("daily-archive"));
        Config {
            storage: StorageConfig { path },
            archive: ArchiveConfig {
                author: None,
                tags,
                include_cwd: true,
                include_git_info: true,
            },
            summarization: SummarizationConfig {
                model: String::from_str("sonnet"),
                max_tokens: 4096,
                enable_daily_summary: true,
                enable_extraction_hints: true,
                digest_time: String::from_str("06:00"),
                auto_digest_enabled: true,
                summary_language: String::from_str("en"),
                auto_summarize_enabled: true,
                auto_summarize_time: String::from_str("06:00"),
                last_auto_summarize_check: None,
                auto_summarize_on_show: false,
                auto_summarize_inactive_minutes: 30,
            },
            hooks: HooksConfig {
                enable_session_start: true,
                enable_session_end: true,
                background_timeout: 300,
            },
            output: OutputConfig {
                terminal_format: String::from_str("colored"),
                date_format: String::from_str("%Y-%m-%d"),
                time_format: String::from_str("%H:%M:%S"),
            },
            prompt_templates: PromptTemplatesConfig::default(),
        }
    }

    /// The storage directory, with a leading `~` replaced by the given home directory.
    pub fn storage_path_in(&self, home: Option<&str>) -> (r: String)
        ensures
            r@ == expanded_path(
                self.storage.path@,
                match home {
                    Some(h) => Some(h@),
                    None => None,
                },
            ),
    {
        let chars = text::chars_of(self.storage.path.as_str());
        match home {
            Some(h) => {
                if text::starts_with(&chars, "~") {
                    let rest = text::trimmed_start_matches(&chars, "~/");
                    let rest = text::string_of(&rest);
                    paths::join(h, rest.as_str())
                } else {
                    self.storage.path.clone()
                }
            },
            None => self.storage.path.clone(),
        }
    }

    /// The storage directory, with a leading `~` replaced by the home directory of the
    /// current user.
    pub fn storage_path(&self) -> (r: String)
        ensures
            exists|home: Option<Seq<char>>| r@ == expanded_path(self.storage.path@, home),
    {
        let home = paths::home_dir();
        match &home {
            Some(p) => {
                let r = self.storage_path_in(Some(p.as_str()));
                assert(r@ == expanded_path(self.storage.path@, Some(p@)));
                r
            },
            None => {
                let r = self.storage_path_in(None);
                assert(r@ == expanded_path(self.storage.path@, None));
                r
            },
        }
    }

    /// The archive directory of a date, under the given home directory.
    pub fn date_dir_in(&self, date: &str, home: Option<&str>) -> (r: String)
        ensures
            r@ == joined_path(
                expanded_path(
                    self.storage.path@,
                    match home {
                        Some(h) => Some(h@),
                        None => None,
                    },
                ),
                date@,
            ),
    {
        let root = self.storage_path_in(home);
        paths::join(root.as_str(), date)
    }

    /// The archive directory of a date.
    pub fn date_dir(&self, date: &str) -> (r: String)
        ensures
            exists|home: Option<Seq<char>>|
                r@ == joined_path(expanded_path(self.storage.path@, home), date@),
    {
        let root = self.storage_path();
        let ghost h = choose|home: Option<Seq<char>>|
            root@ == expanded_path(self.storage.path@, home);
        let r = paths::join(root.as_str(), date);
        assert(r@ == joined_path(expanded_path(self.storage.path@, h), date@));
        r
    }

    /// The archive directory of the day that `now` falls on.
    pub fn today_dir_at(&self, now: &crate::clock::Timestamp, home: Option<&str>) -> (r: String)
        ensures
            r@ == joined_path(
                expanded_path(
                    self.storage.path@,
                    match home {
                        Some(h) => Some(h@),
                        None => None,
                    },
                ),
                crate::clock::formatted_time(now.secs(), now.nanos(), now.offset(), "%Y-%m-%d"@),
            ),
    {
        let today = now.format("%Y-%m-%d");
        self.date_dir_in(today.as_str(), home)
    }

    /// The archive directory of the current day.
    pub fn today_dir(&self) -> (r: String)
        ensures
            exists|now: crate::clock::Timestamp, home: Option<Seq<char>>|
                now.wf() && r@ == joined_path(
                    expanded_path(self.storage.path@, home),
                    crate::clock::formatted_time(
                        now.secs(),
                        now.nanos(),
                        now.offset(),
                        "%Y-%m-%d"@,
                    ),
                ),
    {
        let now = crate::clock::Timestamp::now();
        let today = now.format("%Y-%m-%d");
        let r = self.date_dir(today.as_str());
        proof {
            let home = choose|home: Option<Seq<char>>|
                r@ == joined_path(expanded_path(self.storage.path@, home), today@);
            assert(now.wf() && r@ == joined_path(
                expanded_path(self.storage.path@, home),
                crate::clock::formatted_time(now.secs(), now.nanos(), now.offset(), "%Y-%m-%d"@),
            ));
        }
        r
    }
}

} // verus!
