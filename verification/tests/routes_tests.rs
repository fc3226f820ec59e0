use alloy_control::config::Config;
use alloy_control::log_hub::Delivery;
use alloy_control::models::{
    Artifact, CreateJobRequest, JobResult, JobStatus, LogEntry, LogStream, RegisterWorkerRequest,
    SourceType, WorkerHeartbeat, WorkerStatus,
};
use alloy_control::routes::jobs::{
    archive_probe_url, cancel_job, create_job, get_artifacts, get_job, list_jobs, request_upload,
    retry_job, start_job, upload_archive, upload_outcome, ListJobsQuery, UploadRequest,
};
use alloy_control::routes::logs::{
    get_stored_logs, next_frame, not_found_frame, parse_stored_line, push_log, stop_watching,
    stream_logs, upload_logs,
};
use alloy_control::routes::workers::{
    claim_job, close_log_stream, complete_job, deregister_worker, heartbeat, register_worker,
};
use alloy_control::state::AppState;

const FIRST: u128 = 0x11111111_2222_4333_8444_555555555555;
const SECOND: u128 = 0x66666666_7777_4888_8999_aaaaaaaaaaaa;
const FIRST_TEXT: &str = "11111111-2222-4333-8444-555555555555";

fn state() -> AppState {
    let config = Config::from_vars(
        Some("https://store.example".to_string()),
        Some("service-key".to_string()),
        None,
        None,
        None,
        None,
        Some("https://api.example".to_string()),
        None,
    )
    .unwrap();
    AppState::new(config)
}

fn git_request(command: Option<&str>, script: Option<&str>) -> CreateJobRequest {
    CreateJobRequest {
        source_type: SourceType::Git,
        source_url: Some("https://example.com/repo.git".to_string()),
        command: command.map(|s| s.to_string()),
        script: script.map(|s| s.to_string()),
    }
}

fn result(job_id: u128, exit_code: i32, artifacts: Vec<Artifact>) -> JobResult {
    JobResult { job_id, exit_code, artifacts, build_millis: 3_000 }
}

#[test]
fn git_job_runs_to_completion() {
    let mut s = state();
    let created = create_job(&mut s, 7, &git_request(Some("echo hi"), None), FIRST, 100).unwrap();
    assert_eq!(created.job_id, FIRST);
    assert_eq!(created.status, JobStatus::Pending);
    assert_eq!(created.stream_url, format!("https://api.example/api/v1/jobs/{}/logs", FIRST_TEXT));
    assert!(s.get_log_stream(FIRST));

    let claimed = claim_job(&mut s, 50, 200).unwrap();
    assert_eq!(claimed.id, FIRST);
    assert_eq!(claimed.status, JobStatus::Running);
    assert_eq!(claimed.worker_id, Some(50));

    let notice = complete_job(&mut s, &result(FIRST, 0, vec![]), 300).unwrap();
    assert_eq!(notice.status, JobStatus::Completed);
    assert_eq!(notice.exit_code, 0);
    assert_eq!(notice.build_millis, 3_000);
    assert_eq!(notice.artifacts_count, 0);

    let job = get_job(&s, FIRST).unwrap();
    assert_eq!(job.status, JobStatus::Completed);
    assert_eq!(job.exit_code, Some(0));
    assert_eq!(job.customer_id, 7);
    assert_eq!(job.completed_at, Some(300));
}

#[test]
fn create_job_wants_exactly_one_of_command_and_script() {
    let mut s = state();
    let neither = create_job(&mut s, 7, &git_request(None, None), FIRST, 100).unwrap_err();
    assert_eq!(neither.status, 400);
    assert_eq!(neither.error.code, "validation_error");
    assert_eq!(neither.error.error, "Either 'command' or 'script' is required");
    let both = create_job(&mut s, 7, &git_request(Some("a"), Some("b")), FIRST, 100).unwrap_err();
    assert_eq!(both.status, 400);
    assert_eq!(both.error.code, "validation_error");
    assert_eq!(s.jobs.len(), 0);
    assert!(!s.get_log_stream(FIRST));

    create_job(&mut s, 7, &git_request(None, Some("make")), FIRST, 100).unwrap();
    let job = get_job(&s, FIRST).unwrap();
    assert_eq!(job.script.as_deref(), Some("make"));
    assert_eq!(job.command, None);

    let again = create_job(&mut s, 7, &git_request(Some("x"), None), FIRST, 100).unwrap_err();
    assert_eq!(again.status, 500);
    assert_eq!(again.error.code, "database_error");
}

#[test]
fn upload_dedup() {
    let mut s = state();
    let request = UploadRequest {
        command: Some("make".to_string()),
        script: None,
        commit_sha: Some("abc123".to_string()),
    };
    assert_eq!(
        archive_probe_url(&s, &request).unwrap(),
        "https://store.example/storage/v1/object/public/sources/abc123.zip"
    );
    let first = request_upload(&mut s, 7, &request, FIRST, 100, false).unwrap();
    assert!(!first.skip_upload);
    assert_eq!(
        first.download_url,
        "https://store.example/storage/v1/object/public/sources/abc123.zip"
    );
    assert_eq!(first.upload_url, format!("https://api.example/api/v1/jobs/{}/upload", FIRST_TEXT));
    assert_eq!(first.upload_token, "service-key");
    assert_eq!(first.job_id, FIRST);
    assert_eq!(
        upload_archive(&s, FIRST).unwrap(),
        "https://store.example/storage/v1/object/sources/abc123.zip"
    );

    let second = request_upload(&mut s, 7, &request, SECOND, 101, true).unwrap();
    assert!(second.skip_upload);
    assert_eq!(second.download_url, first.download_url);

    let job = get_job(&s, SECOND).unwrap();
    assert_eq!(job.source_type, SourceType::Upload);
    assert_eq!(job.source_url.as_deref(), Some(first.download_url.as_str()));
    assert_eq!(job.status, JobStatus::Pending);
}

#[test]
fn upload_without_commit_is_keyed_by_the_job() {
    let mut s = state();
    let request = UploadRequest { command: None, script: Some("make".to_string()), commit_sha: None };
    assert!(archive_probe_url(&s, &request).is_none());
    let resp = request_upload(&mut s, 7, &request, FIRST, 100, true).unwrap();
    assert!(!resp.skip_upload);
    assert_eq!(
        resp.download_url,
        format!("https://store.example/storage/v1/object/public/sources/{}.zip", FIRST_TEXT)
    );
    let bad = UploadRequest { command: None, script: None, commit_sha: None };
    let err = request_upload(&mut s, 7, &bad, SECOND, 100, false).unwrap_err();
    assert_eq!(err.error.code, "validation_error");
}

#[test]
fn upload_archive_finds_the_storage_key_in_the_source_url() {
    let mut s = state();
    let mut request = git_request(Some("make"), None);
    request.source_url = Some("https://x/storage/v1/object/public/sources/k.zip".to_string());
    create_job(&mut s, 7, &request, 1, 100).unwrap();
    assert_eq!(upload_archive(&s, 1).unwrap(), "https://store.example/storage/v1/object/sources/k.zip");

    request.source_url = Some("https://x/no/mark/here".to_string());
    create_job(&mut s, 7, &request, FIRST, 100).unwrap();
    assert_eq!(
        upload_archive(&s, FIRST).unwrap(),
        format!("https://store.example/storage/v1/object/sources/{}.zip", FIRST_TEXT)
    );

    request.source_url = Some("a/object/public/b/object/public/c".to_string());
    create_job(&mut s, 7, &request, 3, 100).unwrap();
    assert_eq!(upload_archive(&s, 3).unwrap(), "https://store.example/storage/v1/object/b");

    request.source_url = None;
    create_job(&mut s, 7, &request, 4, 100).unwrap();
    let err = upload_archive(&s, 4).unwrap_err();
    assert_eq!((err.status, err.error.code.as_str()), (400, "no_source_url"));
    let missing = upload_archive(&s, 5).unwrap_err();
    assert_eq!((missing.status, missing.error.code.as_str()), (404, "job_not_found"));

    assert!(upload_outcome(true, "").is_ok());
    let failed = upload_outcome(false, "bucket full").unwrap_err();
    assert_eq!(failed.status, 502);
    assert_eq!(failed.error.code, "storage_upload_failed");
    assert_eq!(failed.error.error, "bucket full");
}

#[test]
fn start_job_accepts_pending_and_running_only() {
    let mut s = state();
    let request = UploadRequest { command: Some("make".into()), script: None, commit_sha: None };
    request_upload(&mut s, 7, &request, FIRST, 100, false).unwrap();
    assert!(!s.get_log_stream(FIRST));
    let started = start_job(&mut s, FIRST).unwrap();
    assert_eq!(started.status, JobStatus::Pending);
    assert!(s.get_log_stream(FIRST));

    claim_job(&mut s, 9, 200).unwrap();
    let running = start_job(&mut s, FIRST).unwrap();
    assert_eq!(running.status, JobStatus::Running);

    complete_job(&mut s, &result(FIRST, 1, vec![]), 300).unwrap();
    let err = start_job(&mut s, FIRST).unwrap_err();
    assert_eq!(err.status, 400);
    assert_eq!(err.error.code, "invalid_state");
    assert_eq!(err.error.error, "Job is in Failed status, expected pending or running");

    let missing = start_job(&mut s, SECOND).unwrap_err();
    assert_eq!(missing.status, 404);
    assert_eq!(missing.error.code, "job_not_found");
    assert_eq!(missing.error.error, "Job 66666666-7777-4888-8999-aaaaaaaaaaaa not found");
}

#[test]
fn cancel_then_complete() {
    let mut s = state();
    create_job(&mut s, 7, &git_request(Some("sleep 100"), None), FIRST, 100).unwrap();
    claim_job(&mut s, 9, 200).unwrap();
    cancel_job(&mut s, FIRST, 250).unwrap();
    assert_eq!(get_job(&s, FIRST).unwrap().status, JobStatus::Cancelled);

    let art = Artifact { name: "a".into(), path: "p".into(), size_bytes: 1, download_url: None };
    let notice = complete_job(&mut s, &result(FIRST, 0, vec![art]), 300).unwrap();
    assert_eq!(notice.status, JobStatus::Cancelled);
    assert_eq!(notice.exit_code, 0);
    assert_eq!(notice.artifacts_count, 1);
    let job = get_job(&s, FIRST).unwrap();
    assert_eq!(job.status, JobStatus::Cancelled);
    assert_eq!(job.exit_code, None);
    assert_eq!(job.completed_at, Some(250));
    assert_eq!(get_artifacts(&s, FIRST).len(), 1);

    let again = cancel_job(&mut s, FIRST, 400).unwrap_err();
    assert_eq!(again.status, 400);
    assert_eq!(again.error.code, "invalid_state");
    assert_eq!(again.error.error, "Cannot cancel job in cancelled status");
    assert_eq!(cancel_job(&mut s, SECOND, 400).unwrap_err().status, 404);
}

#[test]
fn complete_is_refused_for_pending_and_unknown_jobs() {
    let mut s = state();
    create_job(&mut s, 7, &git_request(Some("x"), None), FIRST, 100).unwrap();
    let art = Artifact { name: "a".into(), path: "p".into(), size_bytes: 1, download_url: None };
    let pending = complete_job(&mut s, &result(FIRST, 0, vec![art.clone()]), 300).unwrap_err();
    assert_eq!((pending.status, pending.error.code.as_str()), (400, "invalid_state"));
    let unknown = complete_job(&mut s, &result(SECOND, 0, vec![art]), 300).unwrap_err();
    assert_eq!((unknown.status, unknown.error.code.as_str()), (404, "job_not_found"));
    assert_eq!(get_job(&s, FIRST).unwrap().status, JobStatus::Pending);
    assert!(get_artifacts(&s, FIRST).is_empty());
    assert!(get_artifacts(&s, SECOND).is_empty());
}

#[test]
fn artifacts_are_kept_per_job_in_order() {
    let mut s = state();
    create_job(&mut s, 7, &git_request(Some("x"), None), 1, 100).unwrap();
    create_job(&mut s, 7, &git_request(Some("y"), None), 2, 101).unwrap();
    claim_job(&mut s, 9, 200);
    claim_job(&mut s, 9, 201);
    let a = |n: &str| Artifact { name: n.into(), path: "~/build/*.ipa".into(), size_bytes: 5, download_url: None };
    complete_job(&mut s, &result(1, 0, vec![a("one"), a("two")]), 300).unwrap();
    complete_job(&mut s, &result(2, 0, vec![a("three")]), 301).unwrap();
    let names: Vec<String> = get_artifacts(&s, 1).into_iter().map(|x| x.name).collect();
    assert_eq!(names, vec!["one", "two"]);
    let names: Vec<String> = get_artifacts(&s, 2).into_iter().map(|x| x.name).collect();
    assert_eq!(names, vec!["three"]);
}

#[test]
fn retry_lineage() {
    let mut s = state();
    create_job(&mut s, 7, &git_request(None, Some("make test")), FIRST, 100).unwrap();
    let early = retry_job(&mut s, FIRST, SECOND, 150).unwrap_err();
    assert_eq!((early.status, early.error.code.as_str()), (400, "invalid_state"));
    assert_eq!(early.error.error, "Cannot retry job in pending status (only failed/cancelled)");
    claim_job(&mut s, 9, 200).unwrap();
    assert_eq!(retry_job(&mut s, FIRST, SECOND, 250).unwrap_err().error.code, "invalid_state");
    complete_job(&mut s, &result(FIRST, 2, vec![]), 300).unwrap();

    let resp = retry_job(&mut s, FIRST, SECOND, 400).unwrap();
    assert_eq!(resp.new_job_id, SECOND);
    assert_eq!(resp.original_job_id, FIRST);
    let fresh = get_job(&s, SECOND).unwrap();
    let original = get_job(&s, FIRST).unwrap();
    assert_eq!(fresh.status, JobStatus::Pending);
    assert_eq!(fresh.customer_id, original.customer_id);
    assert_eq!(fresh.source_type, original.source_type);
    assert_eq!(fresh.source_url, original.source_url);
    assert_eq!(fresh.command, original.command);
    assert_eq!(fresh.script, original.script);
    assert_eq!(original.status, JobStatus::Failed);

    assert_eq!(retry_job(&mut s, FIRST, SECOND, 500).unwrap_err().error.code, "database_error");
    assert_eq!(retry_job(&mut s, 99, 100, 500).unwrap_err().status, 404);
    // a completed job cannot be retried
    claim_job(&mut s, 9, 600).unwrap();
    complete_job(&mut s, &result(SECOND, 0, vec![]), 700).unwrap();
    assert_eq!(retry_job(&mut s, SECOND, 5, 800).unwrap_err().error.code, "invalid_state");
}

#[test]
fn listing_is_capped_and_filtered() {
    let mut s = state();
    for i in 0..130u128 {
        create_job(&mut s, 7, &git_request(Some("x"), None), i + 1, i as i64).unwrap();
    }
    let all = list_jobs(&s, &ListJobsQuery { status: None, limit: None });
    assert_eq!(all.len(), 20);
    assert_eq!(all[0].id, 130);
    assert_eq!(all[19].id, 111);
    assert_eq!(list_jobs(&s, &ListJobsQuery { status: None, limit: Some(500) }).len(), 100);
    assert_eq!(list_jobs(&s, &ListJobsQuery { status: None, limit: Some(100) }).len(), 100);
    assert_eq!(list_jobs(&s, &ListJobsQuery { status: None, limit: Some(3) }).len(), 3);
    claim_job(&mut s, 9, 1000).unwrap();
    let running = list_jobs(&s, &ListJobsQuery { status: Some("running".into()), limit: None });
    assert_eq!(running.len(), 1);
    assert_eq!(running[0].id, 1);
    assert!(list_jobs(&s, &ListJobsQuery { status: Some("bogus".into()), limit: None }).is_empty());
    assert!(list_jobs(&s, &ListJobsQuery { status: Some("Running".into()), limit: None }).is_empty());
    let failed = list_jobs(&s, &ListJobsQuery { status: Some("failed".into()), limit: None });
    assert!(failed.is_empty());
}

#[test]
fn workers_register_beat_and_leave() {
    let mut s = state();
    let fresh = register_worker(
        &mut s,
        &RegisterWorkerRequest { hostname: "mini-1".into(), capacity: 2, worker_id: None },
        FIRST,
        SECOND,
        100,
    );
    assert_eq!(fresh.worker_id, FIRST);
    assert_eq!(fresh.token, "66666666-7777-4888-8999-aaaaaaaaaaaa");
    let w = s.workers.get(FIRST).unwrap();
    assert_eq!((w.hostname.as_str(), w.capacity, w.current_jobs), ("mini-1", 2, 0));
    assert_eq!(w.status, WorkerStatus::Online);
    assert_eq!(w.last_heartbeat, 100);

    // a returning worker keeps the identifier it proposes
    let back = register_worker(
        &mut s,
        &RegisterWorkerRequest { hostname: "mini-1b".into(), capacity: 4, worker_id: Some(FIRST) },
        5,
        6,
        150,
    );
    assert_eq!(back.worker_id, FIRST);
    assert_eq!(s.workers.len(), 1);
    assert_eq!(s.workers.get(FIRST).unwrap().hostname, "mini-1b");

    heartbeat(&mut s, &WorkerHeartbeat { worker_id: FIRST, current_jobs: 4, capacity: 4 }, 200).unwrap();
    let busy = s.workers.get(FIRST).unwrap();
    assert_eq!(busy.status, WorkerStatus::Busy);
    assert_eq!((busy.current_jobs, busy.last_heartbeat), (4, 200));
    heartbeat(&mut s, &WorkerHeartbeat { worker_id: FIRST, current_jobs: 3, capacity: 4 }, 210).unwrap();
    assert_eq!(s.workers.get(FIRST).unwrap().status, WorkerStatus::Online);

    let unknown = heartbeat(&mut s, &WorkerHeartbeat { worker_id: 9, current_jobs: 0, capacity: 1 }, 1)
        .unwrap_err();
    assert_eq!((unknown.status, unknown.error.code.as_str()), (404, "worker_not_found"));

    assert!(deregister_worker(&mut s, FIRST));
    assert!(!deregister_worker(&mut s, 9));
    assert_eq!(s.workers.get(FIRST).unwrap().status, WorkerStatus::Offline);
    assert_eq!(s.workers.len(), 1);
}

#[test]
fn watchers_see_the_log_and_the_terminal_frame() {
    let mut s = state();
    create_job(&mut s, 7, &git_request(Some("x"), None), FIRST, 100).unwrap();
    let a = stream_logs(&mut s, FIRST).unwrap();
    let entry = |c: &str| LogEntry { job_id: FIRST, timestamp: 1, stream: LogStream::Stdout, content: c.into() };
    for line in ["L1", "L2", "L3"] {
        assert!(push_log(&mut s, &entry(line), line));
    }
    let b = stream_logs(&mut s, FIRST).unwrap();
    push_log(&mut s, &entry("L4"), "L4");
    claim_job(&mut s, 9, 200).unwrap();
    complete_job(&mut s, &result(FIRST, 0, vec![]), 300).unwrap();
    assert!(close_log_stream(&mut s, FIRST, "{\"type\":\"job_complete\"}"));

    let mut seen_a = Vec::new();
    loop {
        match next_frame(&mut s, a) {
            Delivery::Message(m) => seen_a.push(m),
            Delivery::Closed => break,
            other => panic!("unexpected {:?}", other),
        }
    }
    assert_eq!(seen_a, vec!["L1", "L2", "L3", "L4", "{\"type\":\"job_complete\"}"]);
    let mut seen_b = Vec::new();
    while let Delivery::Message(m) = next_frame(&mut s, b) {
        seen_b.push(m);
    }
    assert_eq!(seen_b, vec!["L4", "{\"type\":\"job_complete\"}"]);

    // later watchers and pushes find no stream
    assert!(stream_logs(&mut s, FIRST).is_none());
    assert!(!push_log(&mut s, &entry("late"), "late"));
    assert!(!close_log_stream(&mut s, FIRST, "again"));
    assert_eq!(not_found_frame(), "{\"error\":\"Job not found or already completed\"}");
    let w = stream_logs(&mut s, SECOND);
    assert!(w.is_none());
    stop_watching(&mut s, 0);
}

#[test]
fn stored_logs_lose_their_stream_marks() {
    assert_eq!(parse_stored_line("[stdout] hello"), (LogStream::Stdout, "hello".to_string()));
    assert_eq!(parse_stored_line("[stderr] oops"), (LogStream::Stderr, "oops".to_string()));
    assert_eq!(parse_stored_line("plain"), (LogStream::Stdout, "plain".to_string()));
    assert_eq!(parse_stored_line("[stdout]"), (LogStream::Stdout, "[stdout]".to_string()));
    assert_eq!(parse_stored_line("[stderr] "), (LogStream::Stderr, String::new()));
    assert_eq!(parse_stored_line("[STDOUT] x"), (LogStream::Stdout, "[STDOUT] x".to_string()));

    let logs = get_stored_logs(FIRST, Some("[stdout] a\n[stderr] b\r\nc\n"), 77);
    let contents: Vec<&str> = logs.iter().map(|l| l.content.as_str()).collect();
    assert_eq!(contents, vec!["a", "b", "c"]);
    assert!(logs.iter().all(|l| l.job_id == FIRST && l.created_at == 77));
    assert_ne!(logs[0].id, logs[1].id);
    assert!(get_stored_logs(FIRST, None, 77).is_empty());
    assert!(get_stored_logs(FIRST, Some(""), 77).is_empty());

    assert!(upload_logs(true, "").is_ok());
    let e = upload_logs(false, "nope").unwrap_err();
    assert_eq!((e.status, e.error.code.as_str(), e.error.error.as_str()), (500, "upload_error", "nope"));
}

#[test]
fn the_state_creates_and_removes_log_streams() {
    let mut s = state();
    assert!(!s.get_log_stream(FIRST));
    s.create_log_stream(FIRST);
    s.create_log_stream(FIRST);
    assert!(s.get_log_stream(FIRST));
    assert!(!s.get_log_stream(SECOND));
    let slot = stream_logs(&mut s, FIRST).unwrap();
    s.remove_log_stream(FIRST);
    s.remove_log_stream(SECOND);
    assert!(!s.get_log_stream(FIRST));
    assert!(matches!(next_frame(&mut s, slot), Delivery::Closed));
    assert_eq!(s.config.base_url, "https://api.example");
    assert_eq!((s.jobs.len(), s.workers.len()), (0, 0));
}
