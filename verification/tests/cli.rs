use daily::auto_summarize::UnsummarizedTranscript;
use daily::cli::args::{Cli, Commands, HookType, JobsAction, DEFAULT_KEEP_DAYS};
use daily::cli::commands::config::{author_display, author_of, model_at, model_index, set_storage, tags_display};
use daily::cli::commands::digest::{date_of, parse_relative_date, target_date};
use daily::cli::commands::extract::{extract_name_from_content, extract_name_from_yaml};
use daily::cli::commands::init::{
    archive_dir_in, classify_answer, expand_path, format_path_display, gather_match,
    is_skipped_dir, is_valid_clock_time, search_is_over,
    matches_keyword, search_directories_recursive, DirChoice,
};
use daily::cli::commands::install::{fill, run as install_plan};
use daily::cli::commands::jobs::{
    follow_log, follow_start, kill_report, task_display, FollowAction, FollowEvent, FollowState,
    KillReport,
};
use daily::cli::commands::show::{
    plan_auto_summarize, port_candidates, record_check, should_start_pass_at, spawn_outcome,
    spawned_count, trigger_auto_summarize, SpawnOutcome,
};
use daily::cli::commands::summarize::{project_dir, task_name_at, working_dir};
use daily::cli::commands::uninstall::{
    is_daily_hook_entry, is_yes, parse_scope, remove_daily_hooks, InvalidScope, Scope,
};
use daily::cli::commands::update::{
    artifact_name, detect_platform, download_url, fetch_error, get_latest_version, is_up_to_date,
    latest_release_url, normalize_version, UpdateError,
};
use daily::cli::commands::view::{format_date_label, overview_excerpt, summary_first_line, DateLabel};
use daily::clock::Timestamp;
use daily::config::Config;
use daily::hooks::input::has_input;
use daily::hooks::session_end::{generate_task_name, generate_task_name_at, handle, handle_at, summarize_command};
use daily::hooks::HookInput;

fn now() -> Timestamp {
    Timestamp::new(1_700_000_000, 0, 0).unwrap()
}

fn config() -> Config {
    Config::fresh(Some("/home/user"), "agent")
}

#[test]
fn test_extract_name_from_yaml() {
    let content = "---\nname: my-skill\ndescription: test\n---";
    assert_eq!(extract_name_from_yaml(content, "default"), "my-skill");
}

#[test]
fn test_extract_name_from_content() {
    let content = "---\ndescription: test\n---\n\n# My Command Name\n\nInstructions here.";
    assert_eq!(extract_name_from_content(content, "default"), "my-command-name");
}

#[test]
fn test_generate_task_name() {
    let name = generate_task_name("/home/user/my-project");
    assert!(name.starts_with("my-project-"));
}

#[test]
fn test_generate_task_name_empty() {
    let name = generate_task_name("/");
    // Root directory has no file_name, should use default
    assert!(name.contains("-"));
}

#[test]
fn names_from_yaml_edge_cases() {
    assert_eq!(extract_name_from_yaml("name: \"quoted\"", "d"), "quoted");
    assert_eq!(extract_name_from_yaml("name: 'single'", "d"), "single");
    assert_eq!(extract_name_from_yaml("name:\nname: second", "d"), "second");
    assert_eq!(extract_name_from_yaml("  name: indented", "d"), "d");
    assert_eq!(extract_name_from_yaml("", "d"), "d");
    assert_eq!(extract_name_from_yaml("name:name:x", "d"), "x");
}

#[test]
fn names_from_content_edge_cases() {
    assert_eq!(extract_name_from_content("# A  B!", "d"), "a--b");
    assert_eq!(extract_name_from_content("## Not this\n# This One", "d"), "this-one");
    assert_eq!(extract_name_from_content("# \n# Real", "d"), "real");
    assert_eq!(extract_name_from_content("no heading", "d"), "d");
    assert_eq!(extract_name_from_content("# ÄB c", "d"), "äb-c");
}

#[test]
fn task_names_of_sessions() {
    assert_eq!(generate_task_name_at("/home/user/my-project", &now()), "my-project-221320");
    assert_eq!(generate_task_name_at("/", &now()), "unnamed-session-221320");
    assert_eq!(task_name_at(Some("given"), &now()), "given");
    assert_eq!(task_name_at(None, &now()), "session-221320");
}

#[test]
fn working_directory_of_a_run() {
    assert_eq!(project_dir("/p/proj/sess.jsonl"), Some("/p".to_string()));
    assert_eq!(project_dir("sess.jsonl"), None);
    assert_eq!(working_dir("/p/proj/sess.jsonl", Some("/cur")), "/p");
    assert_eq!(working_dir("sess.jsonl", Some("/cur")), "/cur");
    assert_eq!(working_dir("sess.jsonl", None), ".");
}

#[test]
fn summarize_arguments() {
    assert_eq!(
        summarize_command("/t.jsonl", "task", None, "id"),
        vec!["summarize", "--transcript", "/t.jsonl", "--task-name", "task", "--job-id", "id", "--foreground"]
    );
    assert_eq!(
        summarize_command("/t.jsonl", "task", Some("/w"), "id"),
        vec![
            "summarize", "--transcript", "/t.jsonl", "--task-name", "task", "--cwd", "/w",
            "--job-id", "id", "--foreground"
        ]
    );
}

#[test]
fn session_end_hook_plans_a_job() {
    let input = HookInput {
        session_id: "abc".into(),
        transcript_path: "/p/x/abc.jsonl".into(),
        cwd: "/home/user/my-project".into(),
        hook_event_name: "SessionEnd".into(),
        reason: Some("logout".into()),
        permission_mode: None,
    };
    let plan = handle_at(&config(), &input, &now(), 0x2a).unwrap();
    assert_eq!(plan.program, "daily");
    assert_eq!(plan.task_name, "my-project-221320");
    assert_eq!(plan.job_id, "20231114-221320-my-project-221320-00002a");
    assert_eq!(plan.transcript_path, "/p/x/abc.jsonl");
    assert!(plan.own_process_group);
    assert_eq!(
        plan.args,
        vec![
            "summarize", "--transcript", "/p/x/abc.jsonl", "--task-name", "my-project-221320",
            "--job-id", "20231114-221320-my-project-221320-00002a", "--foreground"
        ]
    );
    assert!(handle(&config(), &input).is_some());
    let mut off = config();
    off.hooks.enable_session_end = false;
    assert!(handle_at(&off, &input, &now(), 1).is_none());
    assert!(handle(&off, &input).is_none());
}

#[test]
fn hook_input_of_white_space_is_none() {
    assert!(!has_input(""));
    assert!(!has_input(" \n\t"));
    assert!(has_input(" {} "));
}

#[test]
fn auto_summarize_plans() {
    let unit = UnsummarizedTranscript {
        path: "/p/x/abc.jsonl".into(),
        session_id: "abc".into(),
        cwd: None,
    };
    let plan = plan_auto_summarize(&unit, "JOB");
    assert_eq!(plan.task_name, "auto-abc");
    assert_eq!(plan.job_id, "JOB");
    assert!(plan.own_process_group);
    assert_eq!(
        plan.args,
        vec![
            "summarize", "--transcript", "/p/x/abc.jsonl", "--task-name", "auto-abc", "--cwd", ".",
            "--job-id", "JOB", "--foreground"
        ]
    );
    let mut placed = unit.clone();
    placed.cwd = Some("/w".into());
    assert_eq!(plan_auto_summarize(&placed, "JOB").args[6], "/w");

    let plans = trigger_auto_summarize(&vec![unit.clone(), placed]);
    assert_eq!(plans.len(), 2);
    assert!(plans[0].job_id.contains("-auto-abc-"));
    assert_eq!(plans[1].args[6], "/w");
    assert!(trigger_auto_summarize(&Vec::new()).is_empty());
}

#[test]
fn spawn_failures_do_not_count() {
    assert_eq!(
        spawned_count(&vec![
            SpawnOutcome::Registered,
            SpawnOutcome::SpawnFailed,
            SpawnOutcome::Unregistered,
            SpawnOutcome::Registered
        ]),
        2
    );
    assert_eq!(spawned_count(&vec![SpawnOutcome::SpawnFailed]), 0);
    assert_eq!(spawn_outcome(false, false), SpawnOutcome::SpawnFailed);
    assert_eq!(spawn_outcome(false, true), SpawnOutcome::SpawnFailed);
    assert_eq!(spawn_outcome(true, false), SpawnOutcome::Unregistered);
    assert_eq!(spawn_outcome(true, true), SpawnOutcome::Registered);
    assert_eq!(spawned_count(&Vec::new()), 0);
}

#[test]
fn ports_to_try() {
    assert_eq!(port_candidates(Some(8080)), vec![8080]);
    let auto = port_candidates(None);
    assert_eq!(auto.len(), 100);
    assert_eq!(auto[0], 31456);
    assert_eq!(auto[99], 31555);
}

#[test]
fn passes_start_on_show_or_by_time() {
    let mut c = config();
    c.summarization.auto_summarize_on_show = true;
    c.summarization.auto_summarize_time = "bad".into();
    assert_eq!(should_start_pass_at(&c, &now()), Ok(true));
    c.summarization.auto_summarize_on_show = false;
    assert!(should_start_pass_at(&c, &now()).is_err());
    c.summarization.auto_summarize_time = "06:00".into();
    assert_eq!(should_start_pass_at(&c, &now()), Ok(true));
    c.summarization.auto_summarize_time = "23:00".into();
    assert_eq!(should_start_pass_at(&c, &now()), Ok(false));
    c.summarization.auto_summarize_enabled = false;
    assert_eq!(should_start_pass_at(&c, &now()), Ok(false));
}

#[test]
fn checks_are_recorded_for_the_time_trigger_only() {
    let mut c = config();
    assert!(record_check(&mut c, &now()));
    assert_eq!(
        c.summarization.last_auto_summarize_check,
        Some("2023-11-14T22:13:20+00:00".to_string())
    );
    let mut on_show = config();
    on_show.summarization.auto_summarize_on_show = true;
    assert!(!record_check(&mut on_show, &now()));
    assert_eq!(on_show.summarization.last_auto_summarize_check, None);
}

#[test]
fn task_names_in_listings() {
    assert_eq!(task_display("short"), "short");
    assert_eq!(task_display("eighteen-chars-ok!"), "eighteen-chars-ok!");
    assert_eq!(task_display("nineteen-chars-long"), "nineteen-chars-...");
    assert_eq!(task_display("ääääääääääääääääääää"), "äääääääääääääää...");
}

#[test]
fn following_a_log() {
    let start = follow_start();
    assert_eq!(start, FollowState::Waiting { attempts: 0 });
    assert_eq!(
        follow_log(start, FollowEvent::Looked { exists: false }),
        (FollowState::Waiting { attempts: 1 }, FollowAction::WaitAndLook { millis: 200 })
    );
    assert_eq!(
        follow_log(FollowState::Waiting { attempts: 10 }, FollowEvent::Looked { exists: false }),
        (FollowState::Following { offset: 0 }, FollowAction::StartPolling { announce: true })
    );
    assert_eq!(
        follow_log(FollowState::Waiting { attempts: 3 }, FollowEvent::Looked { exists: true }),
        (FollowState::Following { offset: 0 }, FollowAction::StartPolling { announce: false })
    );
    let following = FollowState::Following { offset: 10 };
    assert_eq!(
        follow_log(following, FollowEvent::Polled { running: true, file_len: Some(25) }),
        (
            FollowState::Following { offset: 25 },
            FollowAction::ShowAndPoll { from: 10, upto: 25, millis: 500 }
        )
    );
    assert_eq!(
        follow_log(following, FollowEvent::Polled { running: true, file_len: Some(10) }),
        (following, FollowAction::Poll { millis: 500 })
    );
    assert_eq!(
        follow_log(following, FollowEvent::Polled { running: true, file_len: Some(3) }),
        (following, FollowAction::Poll { millis: 500 })
    );
    assert_eq!(
        follow_log(following, FollowEvent::Polled { running: true, file_len: None }),
        (following, FollowAction::Poll { millis: 500 })
    );
    assert_eq!(
        follow_log(following, FollowEvent::Polled { running: false, file_len: Some(99) }),
        (FollowState::Done, FollowAction::Drain { from: 10 })
    );
    assert_eq!(
        follow_log(FollowState::Done, FollowEvent::Looked { exists: true }),
        (FollowState::Done, FollowAction::Stop)
    );
    assert_eq!(
        follow_log(following, FollowEvent::Looked { exists: true }),
        (following, FollowAction::Stop)
    );
}

#[test]
fn kill_reports() {
    assert_eq!(kill_report(false, false), KillReport::NotRunning);
    assert_eq!(kill_report(false, true), KillReport::NotRunning);
    assert_eq!(kill_report(true, true), KillReport::Killed);
    assert_eq!(kill_report(true, false), KillReport::SignalFailed);
}

#[test]
fn digest_dates() {
    let n = now();
    assert_eq!(date_of(&n), "2023-11-14");
    assert_eq!(parse_relative_date("today", &n), Some("2023-11-14".to_string()));
    assert_eq!(parse_relative_date("YEST", &n), Some("2023-11-13".to_string()));
    assert_eq!(parse_relative_date("Yesterday", &n), Some("2023-11-13".to_string()));
    assert_eq!(parse_relative_date("tomorrow", &n), None);
    assert_eq!(target_date(Some("yest"), Some("2020-01-01"), &n), "2023-11-13");
    assert_eq!(target_date(Some("2021-02-03"), None, &n), "2021-02-03");
    assert_eq!(target_date(None, Some("2020-01-01"), &n), "2020-01-01");
    assert_eq!(target_date(None, None, &n), "2023-11-14");
}

#[test]
fn date_labels() {
    let n = now();
    assert_eq!(format_date_label("2023-11-14", &n), DateLabel::Today);
    assert_eq!(format_date_label("2023-11-13", &n), DateLabel::Yesterday);
    assert_eq!(format_date_label("2023-11-12", &n), DateLabel::Other);
}

#[test]
fn excerpts_of_archived_files() {
    let daily = "# D\n\n## Overview\n\nText\n\n## Sessions\n\n- a\n";
    assert_eq!(overview_excerpt(daily), Some("## Overview\n\nText\n".to_string()));
    let long: String = (0..15).map(|i| format!("l{}\n", i)).collect();
    let open = format!("## Overview\n{}", long);
    assert_eq!(
        overview_excerpt(&open),
        Some("## Overview\nl0\nl1\nl2\nl3\nl4\nl5\nl6\nl7\nl8".to_string())
    );
    assert_eq!(overview_excerpt("nothing"), None);

    assert_eq!(summary_first_line("## Summary\nFirst line\nmore"), Some("First line".to_string()));
    assert_eq!(summary_first_line("## Summary\n\nAfter blank"), None);
    assert_eq!(summary_first_line("## Summary\n# heading"), None);
    assert_eq!(summary_first_line("## Summary"), None);
    assert_eq!(summary_first_line("none"), None);
    let wide = format!("## Summary\n{}", "w".repeat(100));
    assert_eq!(summary_first_line(&wide), Some("w".repeat(80)));
}

#[test]
fn choosing_the_archive_directory() {
    assert_eq!(expand_path("~/notes", Some("/h")), "/h/notes");
    assert_eq!(expand_path("~", Some("/h")), "/h/");
    assert_eq!(expand_path("~/notes", None), "~/notes");
    assert_eq!(expand_path("/abs", Some("/h")), "/abs");

    assert!(matches!(classify_answer("  ", "~/d"), DirChoice::Default));
    assert!(matches!(classify_answer(" ~/d ", "~/d"), DirChoice::Default));
    match classify_answer(" ~/vault/daily ", "~/d") {
        DirChoice::Direct { path } => assert_eq!(path, "~/vault/daily"),
        other => panic!("{:?}", other),
    }
    match classify_answer("Obsidian", "~/d") {
        DirChoice::Search { keyword } => assert_eq!(keyword, "obsidian"),
        other => panic!("{:?}", other),
    }

    assert_eq!(format_path_display("/h/u/notes", Some("/h/u"), true), "~/notes");
    assert_eq!(
        format_path_display("/h/u/notes", Some("/h/u"), false),
        "~/notes (will create)"
    );
    assert_eq!(format_path_display("/x/h/u", Some("/h/u"), true), "/x/h/u");
    assert_eq!(format_path_display("/x", None, false), "/x (will create)");

    assert_eq!(archive_dir_in("/v/notes"), "/v/notes/daily");
    assert_eq!(archive_dir_in("/v/daily"), "/v/daily");

    assert!(is_skipped_dir(".cache", ".agent"));
    assert!(!is_skipped_dir(".agent", ".agent"));
    assert!(is_skipped_dir("node_modules", ".agent"));
    assert!(is_skipped_dir("Caches", ".agent"));
    assert!(!is_skipped_dir("notes", ".agent"));
    assert!(!search_is_over(10, 199));
    assert!(search_is_over(11, 0));
    assert!(search_is_over(0, 200));
    let mut found = vec!["/h/Vault".to_string()];
    gather_match(&mut found, "/h/Vault", "Vault", "vault");
    gather_match(&mut found, "/h/x/vaults", "vaults", "vault");
    gather_match(&mut found, "/h/notes", "notes", "vault");
    assert_eq!(found, vec!["/h/Vault", "/h/x/vaults"]);
    assert!(matches_keyword("MyVault", "vault"));
    assert!(!matches_keyword("notes", "vault"));
}

#[test]
fn offered_directories_are_ranked() {
    let found = vec![
        "/h/long/vault-archive".to_string(),
        "/h/vault".to_string(),
        "/h/x/Daily-vault".to_string(),
        "/h/vaul2".to_string(),
        "/h/daily/vault".to_string(),
    ];
    assert_eq!(
        search_directories_recursive(&found),
        vec![
            "/h/daily/vault",
            "/h/x/Daily-vault",
            "/h/vault",
            "/h/vaul2",
            "/h/long/vault-archive"
        ]
    );
    let many: Vec<String> = (0..150).map(|i| format!("/h/{:03}", i)).collect();
    let offered = search_directories_recursive(&many);
    assert_eq!(offered.len(), 100);
    assert_eq!(offered[0], "/h/000");
    assert_eq!(offered[99], "/h/099");
    assert!(search_directories_recursive(&Vec::new()).is_empty());
}

#[test]
fn clock_times_typed_by_the_user() {
    for good in ["06:00", "0:0", "23:59", "+7:+5", "007:059"] {
        assert!(is_valid_clock_time(good), "{}", good);
    }
    for bad in ["24:00", "12:60", "12", "12:00:00", ":30", "12:", "a:b", "-1:00", "1 :00", "99999999999:00", ""] {
        assert!(!is_valid_clock_time(bad), "{}", bad);
    }
}

#[test]
fn install_files() {
    let files = install_plan("/h/.agent", ".agent", false);
    let paths: Vec<&str> = files.iter().map(|f| f.path.as_str()).collect();
    assert_eq!(
        paths,
        vec![
            "/h/.agent/hooks/daily-hooks.json",
            "/h/.agent/commands/daily-view.md",
            "/h/.agent/commands/daily-get-skill.md",
            "/h/.agent/commands/daily-get-command.md",
            "/h/.agent/settings.json"
        ]
    );
    assert!(files[0].content.contains("\"command\": \"daily hook session-end\""));
    assert!(files[2].content.contains("`~/.agent/skills/`"));
    assert!(files[3].content.contains("`.agent/commands/`"));
    assert!(!files[3].content.contains("{{"));
    assert_eq!(install_plan("/h/.agent", ".agent", true).len(), 4);
    assert_eq!(fill("a {{settings_dir}} b {{other}}", "X"), "a X b {{other}}");
}

#[test]
fn uninstall_decisions() {
    assert_eq!(parse_scope("user"), Ok(Scope::User));
    assert_eq!(parse_scope("project"), Ok(Scope::Project));
    assert_eq!(parse_scope("User"), Err(InvalidScope));
    assert_eq!(parse_scope(""), Err(InvalidScope));

    let ours = vec!["other".to_string(), "daily hook session-end".to_string()];
    let theirs = vec!["something else".to_string()];
    assert!(is_daily_hook_entry(&ours, "daily hook session-end"));
    assert!(!is_daily_hook_entry(&theirs, "daily hook session-end"));
    assert!(!is_daily_hook_entry(&Vec::new(), "daily hook session-end"));

    let removal = remove_daily_hooks(&vec![ours.clone(), theirs.clone()], "daily hook session-end");
    assert_eq!(removal.keep, vec![false, true]);
    assert!(removal.changed && !removal.emptied);
    let removal = remove_daily_hooks(&vec![ours], "daily hook session-end");
    assert!(removal.changed && removal.emptied);
    let removal = remove_daily_hooks(&vec![theirs], "daily hook session-end");
    assert!(!removal.changed && !removal.emptied);
    let removal = remove_daily_hooks(&Vec::new(), "daily hook session-end");
    assert!(!removal.changed && removal.emptied);

    assert!(is_yes(" Y\n"));
    assert!(is_yes("y"));
    assert!(!is_yes("yes"));
    assert!(!is_yes(""));
}

#[test]
fn update_decisions() {
    assert_eq!(normalize_version("0.2.0"), "v0.2.0");
    assert_eq!(normalize_version("v0.2.0"), "v0.2.0");
    assert!(is_up_to_date("v0.2.0", "0.2.0"));
    assert!(is_up_to_date("0.2.0", "0.2.0"));
    assert!(!is_up_to_date("v0.2.1", "0.2.0"));

    assert_eq!(detect_platform("linux", "x86_64"), Ok("linux-amd64".to_string()));
    assert_eq!(detect_platform("macos", "aarch64"), Ok("darwin-arm64".to_string()));
    assert_eq!(detect_platform("windows", "x86_64"), Ok("windows-amd64".to_string()));
    assert_eq!(detect_platform("freebsd", "x86_64"), Err(UpdateError::UnsupportedOs));
    assert_eq!(detect_platform("linux", "riscv64"), Err(UpdateError::UnsupportedArch));
    assert_eq!(detect_platform("freebsd", "riscv64"), Err(UpdateError::UnsupportedOs));

    assert_eq!(artifact_name("linux-amd64"), "daily-linux-amd64");
    assert_eq!(artifact_name("windows-amd64"), "daily-windows-amd64.exe");
    assert_eq!(
        download_url("owner/repo", "v0.2.0", "daily-linux-amd64"),
        "https://github.com/owner/repo/releases/download/v0.2.0/daily-linux-amd64"
    );
    assert_eq!(
        latest_release_url("owner/repo"),
        "https://api.github.com/repos/owner/repo/releases/latest"
    );

    assert_eq!(get_latest_version("{\"tag_name\": \"v0.3.0\", \"x\": 1}"), Ok("v0.3.0".to_string()));
    assert_eq!(get_latest_version("{\"tag_name\": 3}"), Err(UpdateError::MissingTag));
    assert_eq!(get_latest_version("{}"), Err(UpdateError::MissingTag));
    assert_eq!(get_latest_version("[1]"), Err(UpdateError::MissingTag));
    assert_eq!(get_latest_version("tag_name"), Err(UpdateError::InvalidResponse));
    assert_eq!(get_latest_version(""), Err(UpdateError::InvalidResponse));

    assert_eq!(fetch_error("curl: (22) The requested URL returned error: 404"), UpdateError::NoReleases);
    assert_eq!(fetch_error("could not resolve host"), UpdateError::FetchFailed);
}

#[test]
fn configuration_command_decisions() {
    assert_eq!(model_index("haiku"), 1);
    assert_eq!(model_index("sonnet"), 0);
    assert_eq!(model_index("other"), 0);
    assert_eq!(model_at(1), "haiku");
    assert_eq!(model_at(0), "sonnet");
    assert_eq!(model_at(7), "sonnet");
    assert_eq!(author_of(String::new()), None);
    assert_eq!(author_of("me".to_string()), Some("me".to_string()));
    let mut c = config();
    assert_eq!(author_display(&c), "(not set)");
    c.archive.author = Some("me".into());
    assert_eq!(author_display(&c), "me");
    assert_eq!(tags_display(&c), "agent-code, daily-archive");
    set_storage(&mut c, "/elsewhere");
    assert_eq!(c.storage.path, "/elsewhere");
    assert_eq!(c.summarization.model, "sonnet");
}

#[test]
fn command_line_values() {
    let cli = Cli {
        command: Commands::Jobs {
            action: JobsAction::Cleanup {
                days: DEFAULT_KEEP_DAYS,
                dry_run: true,
            },
        },
        verbose: false,
        config: None,
    };
    match cli.command {
        Commands::Jobs {
            action: JobsAction::Cleanup { days, dry_run },
        } => {
            assert_eq!(days, 7);
            assert!(dry_run);
        }
        _ => unreachable!(),
    }
    let hook = Commands::Hook {
        hook_type: HookType::SessionEnd,
    };
    assert!(matches!(
        hook,
        Commands::Hook {
            hook_type: HookType::SessionEnd
        }
    ));
}
