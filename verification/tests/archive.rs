use daily::archive::{ArchiveManager, DailySummary, DirItem, SessionArchive, Templates};
use daily::auto_summarize::archived_paths_of;
use daily::config::Config;
use daily::transcript::{TranscriptData, TranscriptEntry, TranscriptParser};

fn test_manager() -> ArchiveManager {
    ArchiveManager::with_root(Config::fresh(Some("/home/user"), "agent"), "/data/daily")
}

fn file(path: &str) -> DirItem {
    DirItem {
        path: path.to_string(),
        is_file: true,
        is_dir: false,
    }
}

fn dir(path: &str) -> DirItem {
    DirItem {
        path: path.to_string(),
        is_file: false,
        is_dir: true,
    }
}

#[test]
fn test_daily_summary_new() {
    let summary = DailySummary::new("2026-01-16".to_string());
    assert_eq!(summary.date, "2026-01-16");
    assert!(summary.sessions.is_empty());
}

#[test]
fn test_daily_summary_add_session() {
    let mut summary = DailySummary::new("2026-01-16".to_string());
    summary.add_session("test-session");
    summary.add_session("test-session"); // Duplicate should not be added
    assert_eq!(summary.sessions.len(), 1);
}

#[test]
fn test_daily_summary_to_markdown() {
    let mut summary = DailySummary::new("2026-01-16".to_string());
    summary.add_session("test-session");

    let md = summary.to_markdown();
    assert!(md.contains("date: 2026-01-16"));
    assert!(md.contains("total_sessions: 1"));
}

#[test]
fn test_session_archive_new() {
    let archive = SessionArchive::new(
        "test-session".to_string(),
        "2026-01-16".to_string(),
        "abc123".to_string(),
        "/home/user/project".to_string(),
    );

    assert_eq!(archive.title, "test-session");
    assert_eq!(archive.tool_calls, 0);
}

#[test]
fn test_session_archive_to_markdown() {
    let archive = SessionArchive::new(
        "test-session".to_string(),
        "2026-01-16".to_string(),
        "abc123".to_string(),
        "/home/user/project".to_string(),
    );

    let md = archive.to_markdown();
    assert!(md.contains("title: \"test-session\""));
    assert!(md.contains("# test-session"));
}

#[test]
fn test_list_sessions_empty() {
    let manager = test_manager();
    let sessions = manager.list_sessions(&Vec::new());
    assert!(sessions.is_empty());
}

#[test]
fn daily_summary_new_is_blank() {
    let summary = DailySummary::new("2026-01-16".to_string());
    assert_eq!(summary.overview, "_No overview yet._");
    assert_eq!(summary.session_details, "");
    assert_eq!(summary.tomorrow_focus, "");
}

#[test]
fn daily_summary_keeps_the_order_of_sessions() {
    let mut summary = DailySummary::new("2026-01-16".to_string());
    summary.add_session("b");
    summary.add_session("a");
    summary.add_session("b");
    assert_eq!(summary.sessions, vec!["b", "a"]);
}

#[test]
fn daily_summary_markdown_is_exact() {
    let mut summary = DailySummary::new("2026-01-16".to_string()).with_content(
        "O".into(),
        "D".into(),
        "I".into(),
        "S".into(),
        "C".into(),
        "R".into(),
        "T".into(),
    );
    summary.add_session("09_30-fix");
    summary.add_session("10_00-add");
    let expected = "---\ndate: 2026-01-16\ntotal_sessions: 2\nsessions:\n  - \"09_30-fix\"\n  - \"10_00-add\"\ntags: [daily-summary]\n---\n\n# Daily Summary - 2026-01-16\n\n## Overview\n\nO\n\n## Sessions\n\nD\n\n## Key Insights\n\nI\n\n## Skills\n\nS\n\n## Commands\n\nC\n\n## Reflections\n\nR\n\n## Tomorrow's Focus\n\nT\n\n";
    assert_eq!(summary.to_markdown(), expected);
}

#[test]
fn daily_init_says_that_nothing_was_recorded() {
    let expected = "---\ndate: 2026-01-16\ntotal_sessions: 0\nsessions:\ntags: [daily-summary]\n---\n\n# Daily Summary - 2026-01-16\n\n## Overview\n\nNo sessions recorded yet.\n\n";
    assert_eq!(Templates::daily_init("2026-01-16"), expected);
}

#[test]
fn session_archive_markdown_is_exact() {
    let mut archive = SessionArchive::new(
        "14_55-fix".to_string(),
        "2026-01-16".to_string(),
        "abc123".to_string(),
        "/home/user/project".to_string(),
    )
    .with_summary("S".into(), "D".into(), "L".into(), "H".into());
    archive.git_branch = Some("main".to_string());
    archive.transcript_path = Some("/t/abc123.jsonl".to_string());
    archive.tool_calls = 12;
    archive.code_changes = "X".to_string();
    let expected = "---\ntitle: \"14_55-fix\"\ndate: 2026-01-16\nsession_id: abc123\ncwd: /home/user/project\ntranscript_path: /t/abc123.jsonl\ngit_branch: main\nduration: N/A\ntool_calls: 12\n---\n\n# 14_55-fix\n\n## Summary\n\nS\n\n## Decisions\n\nD\n\n## Code Changes\n\nX\n\n## Learnings\n\nL\n\n## Skill Hints\n\nH\n\n";
    assert_eq!(archive.to_markdown(), expected);
}

fn data_with_files(files: Vec<&str>) -> TranscriptData {
    let entries: Vec<TranscriptEntry> = files
        .into_iter()
        .map(|f| TranscriptEntry {
            entry_type: None,
            role: None,
            content: None,
            timestamp: None,
            tool_name: Some("Write".to_string()),
            tool_file_path: Some(f.to_string()),
            summary: None,
            message_content: None,
        })
        .collect();
    TranscriptParser::parse(entries)
}

#[test]
fn session_archive_takes_tool_calls_and_files_of_the_transcript() {
    let archive = SessionArchive::new("t".into(), "d".into(), "s".into(), "c".into());
    let with = archive
        .clone()
        .with_transcript_data(&data_with_files(vec!["a.rs", "b.rs", "a.rs"]));
    assert_eq!(with.tool_calls, 3);
    assert_eq!(with.code_changes, "- `a.rs`\n- `b.rs`");
    let without = archive.with_transcript_data(&data_with_files(vec![]));
    assert_eq!(without.tool_calls, 0);
    assert_eq!(without.code_changes, "_No files modified._");
}

#[test]
fn paths_of_the_archive() {
    let manager = test_manager();
    assert_eq!(manager.storage_dir(), "/data/daily");
    assert_eq!(manager.date_dir("2026-01-16"), "/data/daily/2026-01-16");
    assert_eq!(
        manager.session_archive_path("2026-01-16", "14_55-fix"),
        "/data/daily/2026-01-16/14_55-fix.md"
    );
    assert_eq!(
        manager.daily_summary_path("2026-01-16"),
        "/data/daily/2026-01-16/daily.md"
    );
}

#[test]
fn sessions_are_files_other_than_the_file_of_the_day_in_order() {
    let manager = test_manager();
    let items = vec![
        file("/d/2026-01-16/b.md"),
        file("/d/2026-01-16/daily.md"),
        dir("/d/2026-01-16/sub"),
        file("/d/2026-01-16/a.md"),
        file("/d/2026-01-16/B.md"),
    ];
    assert_eq!(manager.list_sessions(&items), vec!["B", "a", "b"]);
    assert!(manager.has_sessions(&items));
    assert!(!manager.has_sessions(&vec![file("/d/x/daily.md")]));
    assert!(!manager.has_sessions(&Vec::new()));
    assert_eq!(
        manager.delete_sessions("2026-01-16", &items),
        vec![
            "/data/daily/2026-01-16/B.md",
            "/data/daily/2026-01-16/a.md",
            "/data/daily/2026-01-16/b.md"
        ]
    );
}

#[test]
fn dates_are_directories_that_look_like_dates_latest_first() {
    let manager = test_manager();
    let items = vec![
        dir("/d/2026-01-15"),
        dir("/d/jobs"),
        file("/d/2026-01-17"),
        dir("/d/2026-01-16"),
        dir("/d/2025x12-31"),
        dir("/d/2025-12-31"),
    ];
    assert_eq!(
        manager.list_dates(&items),
        vec!["2026-01-16", "2026-01-15", "2025-12-31"]
    );
}

#[test]
fn saving_names_the_file_and_the_day_file() {
    let manager = test_manager();
    let summary = DailySummary::new("2026-01-16".to_string());
    let write = summary.save(&manager);
    assert_eq!(write.dir, "/data/daily/2026-01-16");
    assert_eq!(write.path, "/data/daily/2026-01-16/daily.md");
    assert_eq!(write.day_file, "/data/daily/2026-01-16/daily.md");
    assert_eq!(write.day_content, Templates::daily_init("2026-01-16"));
    assert_eq!(write.content, summary.to_markdown());

    let archive = SessionArchive::new("t1".into(), "2026-01-16".into(), "s".into(), "c".into());
    let write = archive.save(&manager);
    assert_eq!(write.path, "/data/daily/2026-01-16/t1.md");
    assert_eq!(write.content, archive.to_markdown());
}

#[test]
fn load_or_create_takes_the_sessions_found() {
    let manager = test_manager();
    let items = vec![file("/d/x/z.md"), file("/d/x/daily.md"), file("/d/x/y.md")];
    let summary = DailySummary::load_or_create(&manager, "2026-01-16", &items);
    assert_eq!(summary.date, "2026-01-16");
    assert_eq!(summary.sessions, vec!["y", "z"]);
    assert_eq!(summary.overview, "_No overview yet._");
}

#[test]
fn the_recorded_transcript_path_is_read_back_whole() {
    for path in ["/p/x/abc.jsonl", "/p/a:b.jsonl", "C:\\Users\\u\\t.jsonl", "/p/with space/t.jsonl"] {
        let mut archive =
            SessionArchive::new("t".into(), "2026-01-16".into(), "s".into(), "/w".into());
        archive.transcript_path = Some(path.to_string());
        assert_eq!(archived_paths_of(&archive.to_markdown()), vec![path]);
    }
    let unknown = SessionArchive::new("t".into(), "2026-01-16".into(), "s".into(), "/w".into());
    assert!(archived_paths_of(&unknown.to_markdown()).is_empty());
}
