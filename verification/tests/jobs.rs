use daily::clock::Timestamp;
use daily::jobs::manager::{
    format_duration, holds_pid, is_process_alive, is_removable, kill_process, mix_nanos, rand_id,
    sanitize_name, signal_target, MAX_LOG_SIZE,
};
use daily::jobs::{JobError, JobInfo, JobManager, JobStatus};

const DAY: i64 = 86_400;
const NOW: i64 = 1_700_000_000;

fn at(secs: i64) -> Timestamp {
    Timestamp::new(secs, 0, 0).unwrap()
}

fn manager() -> JobManager {
    JobManager::in_storage("/tmp/store")
}

fn failed_error(info: &JobInfo) -> Option<String> {
    match info.status() {
        JobStatus::Failed { error } => Some(error.clone()),
        _ => None,
    }
}

#[test]
fn test_sanitize_name() {
    assert_eq!(sanitize_name("my-project"), "my-project");
    assert_eq!(sanitize_name("My Project!"), "my-project-");
    assert_eq!(
        sanitize_name("very-long-project-name-that-exceeds-limit"),
        "very-long-project-na"
    );
}

#[test]
fn test_job_status_display() {
    assert_eq!(JobStatus::Running.to_string(), "Running");
    assert_eq!(JobStatus::Completed.to_string(), "Completed");
    assert_eq!(
        JobStatus::Failed {
            error: "test".into()
        }
        .to_string(),
        "Failed: test"
    );
}

#[test]
fn sanitize_name_counts_characters_not_bytes() {
    assert_eq!(sanitize_name(""), "");
    assert_eq!(sanitize_name("ÄÖÜ x_y"), "äöü-x-y");
    assert_eq!(sanitize_name("aaaaaaaaaaaaaaaaaaaé-tail"), "aaaaaaaaaaaaaaaaaaaé");
}

#[test]
fn job_id_has_stamp_name_and_hex_suffix() {
    let id = JobManager::job_id_at("My Task", &at(NOW), 0xabc);
    assert_eq!(id, "20231114-221320-my-task-000abc");
    let wide = JobManager::job_id_at("x", &at(NOW), 0xdead_beef);
    assert_eq!(wide, "20231114-221320-x-deadbeef");
    let zero = JobManager::job_id_at("x", &at(NOW), 0);
    assert_eq!(zero, "20231114-221320-x-000000");
}

#[test]
fn job_id_from_its_parts() {
    assert_eq!(JobManager::job_id_from("STAMP", "A b", 16), "STAMP-a-b-000010");
    assert_eq!(JobManager::job_id_from("", "", 0), "--000000");
}

#[test]
fn job_id_uses_the_observers_wall_clock() {
    let east = Timestamp::new(NOW, 0, 2 * 3600).unwrap();
    assert_eq!(JobManager::job_id_at("x", &east, 1), "20231115-001320-x-000001");
}

#[test]
fn job_ids_differ_when_random_parts_differ() {
    let now = at(NOW);
    let mut ids: Vec<String> = Vec::new();
    for random in 0..200u32 {
        ids.push(JobManager::job_id_at("task", &now, random));
    }
    for i in 0..ids.len() {
        for j in (i + 1)..ids.len() {
            assert_ne!(ids[i], ids[j]);
        }
    }
}

#[test]
fn generated_job_id_has_the_parts() {
    let id = JobManager::generate_job_id("Auto Task");
    let parts: Vec<&str> = id.split('-').collect();
    assert_eq!(parts.len(), 5);
    assert_eq!(parts[0].len(), 8);
    assert_eq!(parts[1].len(), 6);
    assert_eq!(parts[2], "auto");
    assert_eq!(parts[3], "task");
    assert!(parts[4].len() >= 6);
    assert!(parts[4].chars().all(|c| c.is_ascii_hexdigit()));
}

#[test]
fn mix_nanos_mixes_low_bits_with_subsecond() {
    assert_eq!(mix_nanos(0, 0), 0);
    assert_eq!(mix_nanos(0x1_0000_0005, 3), 6);
    assert_eq!(mix_nanos(u128::MAX, 0), u32::MAX);
}

#[test]
fn rand_id_is_a_mix_of_one_clock_reading() {
    let reading: u128 = 1_700_000_000_123_456_789;
    let mixed = mix_nanos(reading, (reading % 1_000_000_000) as u32);
    assert_eq!(mixed, ((reading as u32) ^ 123_456_789));
    assert_eq!(mixed % 512, 0);
    for _ in 0..50 {
        assert_eq!(rand_id() % 512, 0);
    }
}

#[test]
fn paths_of_record_and_log() {
    let m = manager();
    assert_eq!(m.dir(), "/tmp/store/jobs");
    assert_eq!(m.job_path("abc"), "/tmp/store/jobs/abc.json");
    assert_eq!(m.log_path("abc"), "/tmp/store/jobs/abc.log");
}

#[test]
fn register_then_load_is_running() {
    let mut m = manager();
    let info = m.register_at("job-1", 4242, "auto-abc123", "/tmp/t.jsonl", &at(NOW));
    assert_eq!(info.id(), "job-1");
    assert_eq!(info.task_name(), "auto-abc123");
    assert_eq!(info.transcript_path(), "/tmp/t.jsonl");
    let loaded = m.load_job("job-1").unwrap();
    assert!(loaded.status().is_running());
    assert!(loaded.finished_at().is_none());
    assert_eq!(loaded.pid(), 4242);
    assert_eq!(loaded.started_at().unix_seconds(), NOW);
    assert_eq!(m.load_job("other").unwrap_err(), JobError::NotFound);
    assert_eq!(m.len(), 1);
}

#[test]
fn register_with_clock_is_running() {
    let mut m = manager();
    let info = m.register("job-1", 1, "t", "/tmp/t.jsonl");
    assert!(info.status().is_running());
    assert!(m.load_job("job-1").unwrap().finished_at().is_none());
}

#[test]
fn registering_an_id_again_replaces_its_record() {
    let mut m = manager();
    m.register_at("job-1", 1, "a", "/a", &at(NOW));
    m.register_at("job-1", 2, "b", "/b", &at(NOW + 1));
    assert_eq!(m.len(), 1);
    assert_eq!(m.load_job("job-1").unwrap().pid(), 2);
}

#[test]
fn mark_completed_sets_status_and_time() {
    let mut m = manager();
    m.register_at("job-1", 1, "t", "/t", &at(NOW));
    assert_eq!(m.mark_completed_at("job-1", &at(NOW + 5)), Ok(()));
    let done = m.load_job("job-1").unwrap();
    assert!(matches!(done.status(), JobStatus::Completed));
    assert_eq!(done.finished_at().unwrap().unix_seconds(), NOW + 5);
}

#[test]
fn mark_failed_sets_status_error_and_time() {
    let mut m = manager();
    m.register_at("job-1", 1, "t", "/t", &at(NOW));
    assert_eq!(m.mark_failed_at("job-1", "boom", &at(NOW + 7)), Ok(()));
    let done = m.load_job("job-1").unwrap();
    assert_eq!(failed_error(&done), Some("boom".to_string()));
    assert_eq!(done.finished_at().unwrap().unix_seconds(), NOW + 7);
}

#[test]
fn repeated_reports_change_nothing() {
    let mut m = manager();
    m.register_at("job-1", 1, "t", "/t", &at(NOW));
    m.mark_completed_at("job-1", &at(NOW + 5)).unwrap();
    assert_eq!(m.mark_completed_at("job-1", &at(NOW + 50)), Ok(()));
    assert_eq!(m.mark_failed_at("job-1", "late", &at(NOW + 60)), Ok(()));
    let done = m.load_job("job-1").unwrap();
    assert!(matches!(done.status(), JobStatus::Completed));
    assert_eq!(done.finished_at().unwrap().unix_seconds(), NOW + 5);
}

#[test]
fn marking_an_unknown_job_is_not_found() {
    let mut m = manager();
    assert_eq!(m.mark_completed_at("nope", &at(NOW)), Err(JobError::NotFound));
    assert_eq!(m.mark_failed_at("nope", "x", &at(NOW)), Err(JobError::NotFound));
    assert_eq!(m.mark_completed("nope"), Err(JobError::NotFound));
    assert_eq!(m.mark_failed("nope", "x"), Err(JobError::NotFound));
    assert_eq!(m.kill_at("nope", true, &at(NOW)), Err(JobError::NotFound));
    assert_eq!(m.kill_target("nope"), Err(JobError::NotFound));
}

#[test]
fn list_rewrites_a_running_job_whose_process_is_gone() {
    let mut m = manager();
    m.register_at("job-1", 10, "a", "/a", &at(NOW));
    m.register_at("job-2", 20, "b", "/b", &at(NOW + 1));
    let listed = m.list_at(true, &vec![10], &at(NOW + 100));
    assert_eq!(listed.len(), 2);
    let lost = m.load_job("job-1").unwrap();
    assert_eq!(
        failed_error(&lost),
        Some("process terminated unexpectedly".to_string())
    );
    assert_eq!(lost.finished_at().unwrap().unix_seconds(), NOW + 100);
    assert!(m.load_job("job-2").unwrap().status().is_running());

    let again = m.list_at(true, &vec![10], &at(NOW + 200));
    assert_eq!(again.len(), 2);
    let still = m.load_job("job-1").unwrap();
    assert_eq!(
        failed_error(&still),
        Some("process terminated unexpectedly".to_string())
    );
    assert_eq!(still.finished_at().unwrap().unix_seconds(), NOW + 100);
}

#[test]
fn list_is_newest_first_and_filters_ended_jobs() {
    let mut m = manager();
    m.register_at("old", 1, "a", "/a", &at(NOW));
    m.register_at("new", 2, "b", "/b", &at(NOW + 20));
    m.register_at("mid", 3, "c", "/c", &at(NOW + 10));
    m.mark_completed_at("mid", &at(NOW + 11)).unwrap();

    let all = m.list_at(true, &Vec::new(), &at(NOW + 30));
    let ids: Vec<&str> = all.iter().map(|j| j.id()).collect();
    assert_eq!(ids, vec!["new", "mid", "old"]);

    let running = m.list_at(false, &Vec::new(), &at(NOW + 30));
    let ids: Vec<&str> = running.iter().map(|j| j.id()).collect();
    assert_eq!(ids, vec!["new", "old"]);

    let now_listed = m.list(false, &Vec::new());
    assert_eq!(now_listed.len(), 2);
}

#[test]
fn list_keeps_registry_order_among_equal_starts() {
    let mut m = manager();
    m.register_at("first", 1, "a", "/a", &at(NOW));
    m.register_at("second", 2, "b", "/b", &at(NOW));
    let all = m.listing(true);
    let ids: Vec<&str> = all.iter().map(|j| j.id()).collect();
    assert_eq!(ids, vec!["first", "second"]);
}

#[test]
fn list_of_an_empty_registry_is_empty() {
    let mut m = manager();
    assert!(m.list_at(true, &vec![1, 2], &at(NOW)).is_empty());
    assert!(m.running_pids().is_empty());
}

#[test]
fn running_pids_are_those_of_running_jobs() {
    let mut m = manager();
    m.register_at("a", 10, "a", "/a", &at(NOW));
    m.register_at("b", 20, "b", "/b", &at(NOW));
    m.register_at("c", 30, "c", "/c", &at(NOW));
    m.mark_completed_at("b", &at(NOW + 1)).unwrap();
    assert_eq!(m.running_pids(), vec![10, 30]);
    let rewritten = m.reconcile_at(&vec![30, 99], &at(NOW + 2));
    assert_eq!(rewritten.len(), 1);
    assert_eq!(rewritten[0].id(), "c");
    assert_eq!(
        failed_error(&rewritten[0]),
        Some("process terminated unexpectedly".to_string())
    );
    assert_eq!(m.running_pids(), vec![10]);
    assert!(m.reconcile(&vec![30, 99]).is_empty());
}

#[test]
fn kill_scenario() {
    let mut m = manager();
    m.register_at("auto-abc123", 4242, "auto-abc123", "/tmp/t.jsonl", &at(NOW));
    assert!(m.load_job("auto-abc123").unwrap().status().is_running());

    assert_eq!(m.kill_target("auto-abc123"), Ok(Some(4242)));
    assert_eq!(m.kill_at("auto-abc123", true, &at(NOW + 3)), Ok(true));
    let killed = m.load_job("auto-abc123").unwrap();
    assert_eq!(failed_error(&killed), Some("Killed by user".to_string()));
    assert_eq!(killed.finished_at().unwrap().unix_seconds(), NOW + 3);

    assert_eq!(m.kill_target("auto-abc123"), Ok(None));
    assert_eq!(m.kill_at("auto-abc123", true, &at(NOW + 4)), Ok(false));
    assert_eq!(m.kill("auto-abc123", true), Ok(false));
    let after = m.load_job("auto-abc123").unwrap();
    assert_eq!(after.finished_at().unwrap().unix_seconds(), NOW + 3);
}

#[test]
fn kill_without_delivery_changes_nothing() {
    let mut m = manager();
    m.register_at("job", 7, "t", "/t", &at(NOW));
    assert_eq!(m.kill_at("job", false, &at(NOW + 1)), Ok(false));
    assert!(m.load_job("job").unwrap().status().is_running());
}

#[test]
fn cleanup_dry_run_scenario() {
    let mut m = manager();
    m.register_at("done", 1, "a", "/a", &at(NOW - 10 * DAY));
    m.mark_completed_at("done", &at(NOW - 10 * DAY + 60)).unwrap();
    m.register_at("running", 2, "b", "/b", &at(NOW - 30 * DAY));

    let candidates = m.cleanup_candidates_at(7, &at(NOW));
    assert_eq!(candidates.len(), 1);
    assert_eq!(candidates[0].id(), "done");
    assert_eq!(m.len(), 2);
    assert!(m.load_job("done").is_ok());
    assert!(m.load_job("running").is_ok());
}

#[test]
fn cleanup_removes_only_old_ended_jobs() {
    let mut m = manager();
    m.register_at("old-done", 1, "a", "/a", &at(NOW - 10 * DAY));
    m.mark_completed_at("old-done", &at(NOW - 10 * DAY + 60)).unwrap();
    m.register_at("old-failed", 2, "b", "/b", &at(NOW - 8 * DAY));
    m.mark_failed_at("old-failed", "x", &at(NOW - 8 * DAY + 60)).unwrap();
    m.register_at("old-running", 3, "c", "/c", &at(NOW - 30 * DAY));
    m.register_at("new-done", 4, "d", "/d", &at(NOW - DAY));
    m.mark_completed_at("new-done", &at(NOW - DAY + 60)).unwrap();

    assert_eq!(m.cleanup_at(7, &at(NOW)), 2);
    assert_eq!(m.load_job("old-done").unwrap_err(), JobError::NotFound);
    assert_eq!(m.load_job("old-failed").unwrap_err(), JobError::NotFound);
    assert!(m.load_job("old-running").is_ok());
    assert!(m.load_job("new-done").is_ok());
    assert_eq!(m.cleanup_at(7, &at(NOW)), 0);
    assert_eq!(m.cleanup(1_000_000), 0);
    assert!(m.cleanup_candidates(1_000_000).is_empty());
}

#[test]
fn cleanup_cutoff_is_strict() {
    let mut m = manager();
    m.register_at("edge", 1, "a", "/a", &at(NOW - 7 * DAY));
    m.mark_completed_at("edge", &at(NOW - 7 * DAY + 1)).unwrap();
    assert!(!is_removable(&m.load_job("edge").unwrap(), 7, &at(NOW)));
    assert_eq!(m.cleanup_at(7, &at(NOW)), 0);
    let later = Timestamp::new(NOW, 1, 0).unwrap();
    assert!(is_removable(&m.load_job("edge").unwrap(), 7, &later));
    assert_eq!(m.cleanup_at(7, &later), 1);
}

#[test]
fn restore_checks_the_invariant() {
    let ok = JobInfo::restore(
        "a".into(),
        1,
        "t".into(),
        "/t".into(),
        at(NOW),
        Some(at(NOW + 1)),
        JobStatus::Completed,
    );
    assert!(ok.is_some());
    let running_but_finished = JobInfo::restore(
        "a".into(),
        1,
        "t".into(),
        "/t".into(),
        at(NOW),
        Some(at(NOW + 1)),
        JobStatus::Running,
    );
    assert!(running_but_finished.is_none());
    let ended_without_time = JobInfo::restore(
        "a".into(),
        1,
        "t".into(),
        "/t".into(),
        at(NOW),
        None,
        JobStatus::Failed { error: "x".into() },
    );
    assert!(ended_without_time.is_none());
}

#[test]
fn adopt_takes_in_loaded_records() {
    let mut m = manager();
    let info = JobInfo::restore(
        "a".into(),
        9,
        "t".into(),
        "/t".into(),
        at(NOW),
        Some(at(NOW + 1)),
        JobStatus::Completed,
    )
    .unwrap();
    m.adopt(info);
    let loaded = m.load_job("a").unwrap();
    assert_eq!(loaded.pid(), 9);
    assert!(!loaded.is_alive(&vec![9]));
    assert!(loaded.is_alive(&vec![8]));
    assert!(holds_pid(&vec![1, 2, 3], 2));
    assert!(!holds_pid(&vec![], 2));
}

#[test]
fn a_probe_that_cannot_decide_counts_as_alive() {
    let no_such_process = 3;
    let not_permitted = 1;
    assert!(is_process_alive(0, 0, no_such_process));
    assert!(is_process_alive(0, no_such_process, no_such_process));
    assert!(!is_process_alive(-1, no_such_process, no_such_process));
    assert!(is_process_alive(-1, not_permitted, no_such_process));
    assert!(is_process_alive(-1, 0, no_such_process));
    assert!(kill_process(0));
    assert!(!kill_process(-1));
    assert_eq!(signal_target(4242), Some(4242));
    assert_eq!(signal_target(0), None);
    assert_eq!(signal_target(i32::MAX as u32), Some(i32::MAX));
    assert_eq!(signal_target(i32::MAX as u32 + 1), None);
    assert_eq!(signal_target(u32::MAX), None);
}

#[test]
fn elapsed_times() {
    let mut m = manager();
    let info = m.register_at("a", 1, "t", "/t", &at(NOW));
    assert_eq!(info.elapsed_at(&at(NOW + 59)), 59);
    assert_eq!(info.elapsed_human_at(&at(NOW + 59)), "59s");
    assert_eq!(info.elapsed_human_at(&at(NOW + 60)), "1m 0s");
    assert_eq!(info.elapsed_human_at(&at(NOW + 3599)), "59m 59s");
    assert_eq!(info.elapsed_human_at(&at(NOW + 3600)), "1h 0m");
    assert_eq!(info.elapsed_human_at(&at(NOW + 7325)), "2h 2m");
    m.mark_completed_at("a", &at(NOW + 90)).unwrap();
    let done = m.load_job("a").unwrap();
    assert_eq!(done.elapsed_at(&at(NOW + 100_000)), 90);
    assert_eq!(done.elapsed(), 90);
    assert_eq!(done.elapsed_human(), "1m 30s");
    assert_eq!(format_duration(-5), "-5s");
    assert_eq!(format_duration(0), "0s");
}

#[test]
fn read_log_whole_and_tail() {
    let m = manager();
    let content = "one\ntwo\r\nthree\n";
    assert_eq!(m.read_log(Some(content), None).unwrap(), content);
    assert_eq!(m.read_log(Some(content), Some(2)).unwrap(), "two\nthree");
    assert_eq!(m.read_log(Some(content), Some(10)).unwrap(), "one\ntwo\nthree");
    assert_eq!(m.read_log(Some(content), Some(0)).unwrap(), "");
    assert_eq!(m.read_log(Some(""), Some(3)).unwrap(), "");
    assert_eq!(m.read_log(Some(""), None).unwrap(), "");
    assert_eq!(m.read_log(None, None).unwrap_err(), JobError::LogMissing);
    assert_eq!(m.read_log(None, Some(1)).unwrap_err(), JobError::LogMissing);
}

#[test]
fn truncate_keeps_trailing_half_after_marker() {
    let m = manager();
    let content = "l1\nl2\nl3\nl4\nl5\n";
    assert_eq!(m.truncate_log_if_needed(content, 100), None);
    assert_eq!(m.truncate_log_if_needed(content, 15), None);
    let cut = m.truncate_log_if_needed(content, 14).unwrap();
    assert_eq!(
        cut,
        "[... log truncated, showing last 3 lines ...]\nl3\nl4\nl5"
    );
}

#[test]
fn truncate_brings_a_large_log_below_the_cap() {
    let m = manager();
    let line = "x".repeat(99);
    let mut content = String::new();
    for _ in 0..20_000 {
        content.push_str(&line);
        content.push('\n');
    }
    assert!(content.len() as u64 > MAX_LOG_SIZE);
    let cut = m.truncate_log_if_needed(&content, MAX_LOG_SIZE).unwrap();
    assert!(cut.len() as u64 <= MAX_LOG_SIZE);
    assert!(cut.starts_with("[... log truncated, showing last 10000 lines ...]\n"));
    let kept: Vec<&str> = cut.lines().skip(1).collect();
    assert_eq!(kept.len(), 10_000);
    assert!(kept.iter().all(|l| *l == line));
}

#[test]
fn truncate_of_one_long_line_keeps_the_line() {
    let m = manager();
    let content = "y".repeat(50);
    let cut = m.truncate_log_if_needed(&content, 10).unwrap();
    assert_eq!(
        cut,
        format!("[... log truncated, showing last 1 lines ...]\n{}", content)
    );
}
