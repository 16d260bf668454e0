use daily::clock::Timestamp;
use daily::config::settings::{
    default_auto_digest, default_auto_summarize_enabled, default_auto_summarize_inactive_minutes,
    default_auto_summarize_on_show, default_auto_summarize_time, default_digest_time,
    default_summary_language,
};
use daily::config::{Config, PromptTemplatesConfig};

#[test]
fn test_today_dir() {
    let config = Config::fresh(Some("/home/user"), "agent");
    let today = chrono::Local::now().format("%Y-%m-%d").to_string();
    assert!(config.today_dir().contains(&today));
}

#[test]
fn fresh_config_has_the_defaults() {
    let config = Config::fresh(Some("/home/user"), "agent");
    assert_eq!(config.storage.path, "/home/user/.agent/daily");
    assert_eq!(config.summarization.model, "sonnet");
    assert_eq!(config.archive.tags, vec!["agent-code", "daily-archive"]);
    assert_eq!(config.archive.author, None);
    assert!(config.archive.include_cwd && config.archive.include_git_info);
    assert_eq!(config.summarization.max_tokens, 4096);
    assert_eq!(config.summarization.digest_time, "06:00");
    assert!(config.summarization.auto_summarize_enabled);
    assert!(!config.summarization.auto_summarize_on_show);
    assert_eq!(config.summarization.auto_summarize_inactive_minutes, 30);
    assert_eq!(config.summarization.last_auto_summarize_check, None);
    assert_eq!(config.hooks.background_timeout, 300);
    assert_eq!(config.output.date_format, "%Y-%m-%d");
    assert_eq!(config.output.time_format, "%H:%M:%S");
    assert_eq!(config.output.terminal_format, "colored");
    assert!(config.prompt_templates.session_summary.is_none());
    let homeless = Config::fresh(None, "agent");
    assert_eq!(homeless.storage.path, "./.agent/daily");
}

#[test]
fn defaults_of_single_settings() {
    assert_eq!(default_summary_language(), "en");
    assert_eq!(default_digest_time(), "06:00");
    assert!(default_auto_digest());
    assert!(!default_auto_summarize_enabled());
    assert_eq!(default_auto_summarize_time(), "06:00");
    assert!(!default_auto_summarize_on_show());
    assert_eq!(default_auto_summarize_inactive_minutes(), 30);
    let templates = PromptTemplatesConfig::default();
    assert!(templates.daily_summary.is_none() && templates.command_extract.is_none());
}

#[test]
fn storage_path_expands_the_home() {
    let mut config = Config::fresh(Some("/home/user"), "agent");
    assert_eq!(config.storage_path_in(Some("/h")), "/home/user/.agent/daily");
    assert_eq!(config.storage_path(), "/home/user/.agent/daily");
    config.storage.path = "~/notes/daily".to_string();
    assert_eq!(config.storage_path_in(Some("/h")), "/h/notes/daily");
    assert_eq!(config.storage_path_in(None), "~/notes/daily");
    config.storage.path = "~".to_string();
    assert_eq!(config.storage_path_in(Some("/h")), "/h/~");
    assert_eq!(config.date_dir_in("2026-01-16", Some("/h")), "/h/~/2026-01-16");
}

#[test]
fn date_dirs() {
    let config = Config::fresh(Some("/home/user"), "agent");
    assert_eq!(config.date_dir("2026-01-16"), "/home/user/.agent/daily/2026-01-16");
    let now = Timestamp::new(1_700_000_000, 0, 0).unwrap();
    assert_eq!(
        config.today_dir_at(&now, None),
        "/home/user/.agent/daily/2023-11-14"
    );
}
