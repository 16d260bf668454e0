use daily::clock::Timestamp;
use daily::jobs::JobManager;
use daily::server::dto::{ApiResponse, JobDto, SessionMetadata};
use daily::server::handlers::{
    extract_session_metadata, extract_session_preview, has_digest, parse_daily_summary,
};
use daily::server::static_files::{asset_path, content_type, is_inside, serves_index_instead};

fn at(secs: i64) -> Timestamp {
    Timestamp::new(secs, 0, 0).unwrap()
}

#[test]
fn answers_carry_data_or_an_error() {
    let ok = ApiResponse::success(5);
    assert!(ok.success);
    assert_eq!(ok.data, Some(5));
    assert_eq!(ok.error, None);
    let failed: ApiResponse<i32> = ApiResponse::error("nope");
    assert!(!failed.success);
    assert_eq!(failed.data, None);
    assert_eq!(failed.error, Some("nope".to_string()));
}

#[test]
fn jobs_as_the_dashboard_shows_them() {
    let mut m = JobManager::in_storage("/s");
    let info = m.register_at("id-1", 77, "task", "/t", &at(1_700_000_000));
    let running = JobDto::from_job_at(&info, &at(1_700_000_065));
    assert_eq!(running.id, "id-1");
    assert_eq!(running.pid, 77);
    assert_eq!(running.task_name, "task");
    assert_eq!(running.status, "Running");
    assert_eq!(running.status_type, "running");
    assert_eq!(running.started_at, "2023-11-14 22:13:20");
    assert_eq!(running.finished_at, None);
    assert_eq!(running.elapsed, "1m 5s");

    m.mark_failed_at("id-1", "boom", &at(1_700_000_010)).unwrap();
    let failed = JobDto::from_job_at(&m.load_job("id-1").unwrap(), &at(1_700_009_999));
    assert_eq!(failed.status, "Failed: boom");
    assert_eq!(failed.status_type, "failed");
    assert_eq!(failed.finished_at, Some("2023-11-14 22:13:30".to_string()));
    assert_eq!(failed.elapsed, "10s");
    assert_eq!(JobDto::from_job(&m.load_job("id-1").unwrap()).elapsed, "10s");

    m.register_at("id-2", 78, "task", "/t", &at(1_700_000_000));
    m.mark_completed_at("id-2", &at(1_700_003_600)).unwrap();
    let done = JobDto::from_job_at(&m.load_job("id-2").unwrap(), &at(1_700_009_999));
    assert_eq!(done.status, "Completed");
    assert_eq!(done.status_type, "completed");
    assert_eq!(done.elapsed, "1h 0m");
}

#[test]
fn daily_summary_is_read_back() {
    let content = "---\ndate: 2026-01-16\ntotal_sessions: 2\nsessions:\n  - \"09_30-fix\"\n  - 10_00-add\ntags: [daily-summary]\n---\n\n# Daily Summary - 2026-01-16\n\n## Overview\n\nO\n\n## Sessions\n\nD\n\n## Key Insights\n\nI\n\n## Skills\n\n\n\n## Commands\n\nNo sessions recorded yet.\n\n## Reflections\n\nR\n\n## Tomorrow's Focus\n\nT\n\n";
    let dto = parse_daily_summary("2026-01-16", content, "/d/daily.md");
    assert_eq!(dto.date, "2026-01-16");
    assert_eq!(dto.file_path, "/d/daily.md");
    assert_eq!(dto.raw_content, content);
    assert_eq!(dto.overview, "O");
    assert_eq!(dto.sessions, vec!["09_30-fix", "10_00-add"]);
    assert_eq!(dto.session_count, 2);
    assert_eq!(dto.insights, Some("I".to_string()));
    assert_eq!(dto.skills, None);
    assert_eq!(dto.commands, None);
    assert_eq!(dto.reflections, Some("R".to_string()));
    assert_eq!(dto.tomorrow_focus, Some("T".to_string()));

    let empty = parse_daily_summary("d", "", "p");
    assert_eq!(empty.overview, "");
    assert!(empty.sessions.is_empty());
    assert_eq!(empty.insights, None);

    let no_tags = parse_daily_summary("d", "sessions:\n- a\n- \"b\"\nnot listed\n", "p");
    assert_eq!(no_tags.sessions, vec!["a", "b"]);
}

#[test]
fn digested_days() {
    assert!(has_digest("## Overview\n\nDone things."));
    assert!(!has_digest("## Overview\n\nNo sessions recorded yet.\n"));
    assert!(!has_digest("nothing"));
}

#[test]
fn session_previews() {
    let content = "---\ntitle: \"My Title\"\n---\n\n# Heading\n\n## Summary\n\nShort summary.\n\n## Decisions\n\nx";
    assert_eq!(
        extract_session_preview(content),
        ("My Title".to_string(), "Short summary.".to_string())
    );
    assert_eq!(
        extract_session_preview("# Only Heading\ntext"),
        ("Only Heading".to_string(), String::new())
    );
    assert_eq!(
        extract_session_preview("plain"),
        ("Untitled".to_string(), String::new())
    );
    let long = format!("## Summary\n{}", "s".repeat(400));
    let (_, preview) = extract_session_preview(&long);
    assert_eq!(preview, format!("{}...", "s".repeat(200)));
    let medium = format!("## Summary\n{}\n## Next", "m".repeat(150));
    assert_eq!(extract_session_preview(&medium).1, "m".repeat(150));
    let wide = format!("## Summary\n{}", "é".repeat(400));
    assert_eq!(extract_session_preview(&wide).1, format!("{}...", "é".repeat(200)));
}

#[test]
fn session_metadata() {
    let content = "---\ntitle: \"T\"\ndate: 2026-01-16\nsession_id: abc\ncwd: /w\ngit_branch: main\nduration: N/A\nunknown: x\ntitle: \"Later\"\n---\nbody\ncwd: /not";
    let m = extract_session_metadata(content);
    assert_eq!(m.title, "Later");
    assert_eq!(m.date, "2026-01-16");
    assert_eq!(m.session_id, Some("abc".to_string()));
    assert_eq!(m.cwd, Some("/w".to_string()));
    assert_eq!(m.git_branch, Some("main".to_string()));
    assert_eq!(m.duration, Some("N/A".to_string()));

    let none = extract_session_metadata("no front matter");
    assert_eq!(none.title, "");
    assert_eq!(none.session_id, None);
    let open = extract_session_metadata("---\ntitle: x\n");
    assert_eq!(open.title, "");
    let spaced = extract_session_metadata("---\n  cwd  :  \" /a:b \" \n---");
    assert_eq!(spaced.cwd, Some(" /a:b ".to_string()));
    let d = SessionMetadata::default();
    assert_eq!((d.title.as_str(), d.date.as_str()), ("", ""));
    assert!(d.cwd.is_none() && d.git_branch.is_none() && d.duration.is_none());
}

#[test]
fn assets() {
    assert_eq!(asset_path("/"), "index.html");
    assert_eq!(asset_path(""), "index.html");
    assert_eq!(asset_path("/assets/app.js"), "assets/app.js");
    assert_eq!(asset_path("//x"), "x");
    assert!(serves_index_instead("/dates/2026-01-16"));
    assert!(!serves_index_instead("/api/unknown"));
    assert!(serves_index_instead("/apix"));
    assert!(is_inside("index.html"));
    assert!(is_inside("assets/app.js"));
    assert!(!is_inside("../secret"));
    assert!(!is_inside("assets/../../secret"));
    assert!(!is_inside("/etc/passwd"));
    assert!(!is_inside("assets\\..\\secret"));
    assert!(!is_inside(".."));
    assert_eq!(content_type("index.html"), "text/html");
    assert_eq!(content_type("assets/app.js"), "text/javascript");
    assert_eq!(content_type("data.bin-unknown"), "application/octet-stream");
    assert_eq!(content_type("noextension"), "application/octet-stream");
}
