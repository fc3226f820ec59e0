use alloy_control::api::{ApiFailure, MAX_ARCHIVE_BYTES, MAX_JSON_BYTES};
use alloy_control::billing::{Subscription, SubscriptionPlan, SubscriptionStatus};
use alloy_control::clients::{OrchestratorClient, SupabaseClient};
use alloy_control::clock::now_micros;
use alloy_control::config::{cors_origins, Config, ConfigError, DatabaseBackend};
use alloy_control::text::split_commas;
use alloy_control::error::{ApiError, AppError};
use alloy_control::ids::{format_id, format_id_simple, new_id, parse_id};
use alloy_control::models::{
    Job, JobStatus, LogStream, RetryError, SourceType, WorkerStatus,
};
use alloy_control::rate_limit::RateLimitKey;
use alloy_control::urls::{artifact_path, log_path, object_url, public_url, storage_key, stream_url, upload_url};
use alloy_control::worker_config;

const DAY: i64 = 86_400_000_000;

#[test]
fn identifiers_read_like_uuids() {
    let id = 0xa1a2a3a4_b1b2_c1c2_d1d2_d3d4d5d6d7d8u128;
    assert_eq!(format_id(id), "a1a2a3a4-b1b2-c1c2-d1d2-d3d4d5d6d7d8");
    assert_eq!(format_id_simple(id), "a1a2a3a4b1b2c1c2d1d2d3d4d5d6d7d8");
    assert_eq!(format_id(0), "00000000-0000-0000-0000-000000000000");
    assert_eq!(format_id(u128::MAX), "ffffffff-ffff-ffff-ffff-ffffffffffff");
    assert_eq!(format_id(0x0123456789abcdef_fedcba9876543210), "01234567-89ab-cdef-fedc-ba9876543210");
    for sample in [0u128, 1, id, u128::MAX, 0x550e8400_e29b_41d4_a716_446655440000] {
        assert_eq!(format_id(sample), uuid::Uuid::from_u128(sample).to_string());
        assert_eq!(parse_id(&format_id(sample)), Some(sample));
        assert_eq!(parse_id(&format_id_simple(sample)), Some(sample));
    }
    assert_eq!(parse_id("A1A2A3A4-B1B2-C1C2-D1D2-D3D4D5D6D7D8"), Some(id));
    assert_eq!(parse_id(""), None);
    assert_eq!(parse_id("a1a2a3a4-b1b2-c1c2-d1d2-d3d4d5d6d7d"), None);
    assert_eq!(parse_id("zzzzzzzz-b1b2-c1c2-d1d2-d3d4d5d6d7d8"), None);
}

#[test]
fn fresh_identifiers_are_random_version_four() {
    let a = new_id();
    let b = new_id();
    assert_ne!(a, b);
    assert_ne!(a, 0);
    for id in [a, b] {
        let u = uuid::Uuid::from_u128(id);
        assert_eq!(u.get_version_num(), 4);
        assert_eq!(id & 0xf000_c000_0000_0000_0000, 0x4000_8000_0000_0000_0000);
    }
    assert!(now_micros() > 1_600_000_000_000_000);
}

#[test]
fn new_jobs_are_pending_and_unassigned() {
    let job = Job::with_command(7, "echo hi".into(), SourceType::Git, Some("u".into()));
    assert_eq!(job.status, JobStatus::Pending);
    assert_eq!(job.customer_id, 7);
    assert_eq!(job.command.as_deref(), Some("echo hi"));
    assert_eq!(job.script, None);
    assert_eq!(job.source_type, SourceType::Git);
    assert_eq!(job.source_url.as_deref(), Some("u"));
    assert_eq!((job.worker_id, job.started_at, job.completed_at), (None, None, None));
    assert_eq!((job.exit_code, job.build_millis), (None, None));
    assert!(job.created_at > 0);
    assert!(job.is_well_formed());
    assert_eq!(job.executable(), Some("echo hi"));

    let other = Job::with_script(7, "make".into(), SourceType::Upload, None);
    assert_ne!(other.id, job.id);
    assert_eq!(other.script.as_deref(), Some("make"));
    assert_eq!(other.command, None);
    assert_eq!(other.executable(), Some("make"));
    assert_eq!(other.source_type, SourceType::Upload);
    let copy = other.clone();
    assert_eq!((copy.id, copy.script.clone(), copy.created_at), (other.id, other.script.clone(), other.created_at));
}

#[test]
fn a_job_moves_only_along_the_state_machine() {
    let mut job = Job::with_command_at(1, 10, 7, "x".into(), SourceType::Git, None);
    assert!(!job.finish(0, 1, 20));
    assert_eq!(job.retry(2, 20).err(), Some(RetryError::InvalidState));
    assert!(job.claim(5, 20));
    assert_eq!((job.status, job.worker_id, job.started_at), (JobStatus::Running, Some(5), Some(20)));
    assert!(job.is_well_formed());
    assert!(!job.claim(6, 30));
    assert_eq!(job.worker_id, Some(5));
    assert!(job.finish(1, 500, 40));
    assert_eq!((job.status, job.exit_code, job.build_millis, job.completed_at), (JobStatus::Failed, Some(1), Some(500), Some(40)));
    assert!(job.is_well_formed());
    // terminal: nothing moves any more
    assert!(!job.cancel(50));
    assert!(!job.claim(6, 50));
    assert!(!job.finish(0, 1, 50));
    assert_eq!((job.status, job.exit_code, job.completed_at), (JobStatus::Failed, Some(1), Some(40)));
    let again = job.retry(2, 60).unwrap();
    assert_eq!((again.id, again.status, again.created_at, again.worker_id), (2, JobStatus::Pending, 60, None));
    assert!(again.is_well_formed());

    let mut pending = Job::with_command_at(3, 10, 7, "x".into(), SourceType::Git, None);
    assert!(pending.cancel(15));
    assert_eq!((pending.status, pending.completed_at, pending.worker_id), (JobStatus::Cancelled, Some(15), None));
    assert!(pending.is_well_formed());
    pending.command = None;
    assert!(!pending.is_well_formed());
    assert_eq!(pending.retry(4, 20).err(), Some(RetryError::NoWork));
    pending.command = Some("c".into());
    pending.script = Some("s".into());
    let kept = pending.retry(4, 20).unwrap();
    assert_eq!((kept.script.as_deref(), kept.command), (Some("s"), None));
}

#[test]
fn statuses_have_wire_names() {
    for (status, name, label) in [
        (JobStatus::Pending, "pending", "Pending"),
        (JobStatus::Running, "running", "Running"),
        (JobStatus::Completed, "completed", "Completed"),
        (JobStatus::Failed, "failed", "Failed"),
        (JobStatus::Cancelled, "cancelled", "Cancelled"),
    ] {
        assert_eq!(status.name(), name);
        assert_eq!(status.label(), label);
        assert_eq!(JobStatus::from_name(name), Some(status));
        assert_eq!(status.is_terminal(), !matches!(status, JobStatus::Pending | JobStatus::Running));
    }
    assert_eq!(JobStatus::from_name("Pending"), None);
    assert_eq!(JobStatus::from_name(""), None);
    assert_eq!(JobStatus::from_name("canceled"), None);
    assert_eq!(SourceType::Git.name(), "git");
    assert_eq!(SourceType::Upload.name(), "upload");
    assert_eq!(SourceType::default(), SourceType::Git);
    assert_eq!(LogStream::Stdout.name(), "stdout");
    assert_eq!(LogStream::Stderr.name(), "stderr");
    assert_eq!(WorkerStatus::Online.name(), "online");
    assert_eq!(WorkerStatus::Busy.name(), "busy");
    assert_eq!(WorkerStatus::Offline.name(), "offline");
    assert_eq!(WorkerStatus::Draining.name(), "draining");
}

#[test]
fn errors_carry_a_code_and_a_message() {
    let id = 0x550e8400_e29b_41d4_a716_446655440000u128;
    let cases: Vec<(AppError, &str, String)> = vec![
        (AppError::JobNotFound(id), "job_not_found", "Job not found: 550e8400-e29b-41d4-a716-446655440000".into()),
        (AppError::WorkerNotFound(id), "worker_not_found", "Worker not found: 550e8400-e29b-41d4-a716-446655440000".into()),
        (AppError::NoWorkersAvailable, "no_workers", "No workers available".into()),
        (AppError::AuthenticationFailed("bad".into()), "auth_failed", "Authentication failed: bad".into()),
        (AppError::InvalidRequest("x".into()), "invalid_request", "Invalid request: x".into()),
        (AppError::Database("down".into()), "database_error", "Database error: down".into()),
        (AppError::VmError("boom".into()), "vm_error", "VM error: boom".into()),
        (AppError::Internal("oops".into()), "internal_error", "Internal error: oops".into()),
    ];
    for (err, code, message) in cases {
        assert_eq!(err.code(), code);
        assert_eq!(err.message(), message);
        let api = ApiError::from(err);
        assert_eq!(api.code, code);
        assert_eq!(api.error, message);
    }
    let e = ApiError::new("went wrong", "some_code");
    assert_eq!((e.error.as_str(), e.code.as_str()), ("went wrong", "some_code"));
    let f = ApiFailure::new(418, "teapot", "tea");
    assert_eq!((f.status, f.error.error.as_str(), f.error.code.as_str()), (418, "teapot", "tea"));
}

#[test]
fn plans_have_their_terms() {
    assert_eq!(SubscriptionPlan::Pro.included_minutes(), Some(300));
    assert_eq!(SubscriptionPlan::Team.included_minutes(), None);
    assert_eq!(SubscriptionPlan::Pro.price_cents(), 2000);
    assert_eq!(SubscriptionPlan::Team.price_cents(), 20000);
    assert!(SubscriptionPlan::Pro.has_metered_billing());
    assert!(!SubscriptionPlan::Team.has_metered_billing());
    assert_eq!(SubscriptionPlan::Pro.trial_days(), 7);
    assert_eq!(SubscriptionPlan::Team.trial_days(), 7);
    assert_eq!(SubscriptionPlan::default(), SubscriptionPlan::Pro);
    assert_eq!(SubscriptionStatus::default(), SubscriptionStatus::Active);
    assert_eq!(SubscriptionPlan::Pro.name(), "pro");
    assert_eq!(SubscriptionPlan::Team.name(), "team");
    assert_eq!(SubscriptionStatus::PastDue.name(), "past_due");
    assert_eq!(SubscriptionStatus::Active.name(), "active");
    assert_eq!(SubscriptionStatus::Canceled.name(), "canceled");
    assert_eq!(SubscriptionStatus::Trialing.name(), "trialing");
    for (text, plan) in [("pro", SubscriptionPlan::Pro), ("PRO", SubscriptionPlan::Pro), ("Team", SubscriptionPlan::Team), ("tEAm", SubscriptionPlan::Team)] {
        assert_eq!(SubscriptionPlan::parse(text), Ok(plan));
    }
    for text in ["", "pro ", "enterprise", "pr\u{4f}\u{301}", "\u{212a}"] {
        assert_eq!(SubscriptionPlan::parse(text), Err(format!("Unknown plan: {}", text)));
        assert!(!matches!(text.to_lowercase().as_str(), "pro" | "team"));
    }
}

#[test]
fn trials_last_seven_days() {
    let now = 1_700_000_000_000_000i64;
    let sub = Subscription::new_trial_at(1, 2, now);
    assert_eq!((sub.id, sub.user_id), (1, 2));
    assert_eq!(sub.plan, SubscriptionPlan::Pro);
    assert_eq!(sub.status, SubscriptionStatus::Trialing);
    assert_eq!(sub.trial_ends_at, Some(now + 7 * DAY));
    assert_eq!(sub.current_period_start, Some(now));
    assert_eq!(sub.current_period_end, None);
    assert_eq!(sub.minutes_included, Some(300));
    assert_eq!(sub.used_millis, 0);
    assert_eq!((sub.created_at, sub.updated_at), (now, now));

    assert!(sub.is_trial_active_at(now));
    assert!(sub.is_trial_active_at(now + 7 * DAY - 1));
    assert!(!sub.is_trial_active_at(now + 7 * DAY));
    assert!(!sub.is_trial_expired_at(now + 7 * DAY - 1));
    assert!(sub.is_trial_expired_at(now + 7 * DAY));
    assert!(sub.can_run_job_at(now));
    assert!(!sub.can_run_job_at(now + 8 * DAY));
    assert_eq!(sub.trial_days_remaining_at(now), Some(7));
    assert_eq!(sub.trial_days_remaining_at(now + 1), Some(6));
    assert_eq!(sub.trial_days_remaining_at(now + 6 * DAY), Some(1));
    assert_eq!(sub.trial_days_remaining_at(now + 7 * DAY), Some(0));
    assert_eq!(sub.trial_days_remaining_at(now + 70 * DAY), Some(0));
    assert_eq!(sub.trial_days_remaining_at(i64::MIN), Some(106_771_674));

    let live = Subscription::new_trial(5);
    assert!(live.is_trial_active());
    assert!(!live.is_trial_expired());
    assert!(live.can_run_job());
    assert!(matches!(live.trial_days_remaining(), Some(6) | Some(7)));
    assert_eq!(live.trial_ends_at, Some(live.created_at + 7 * DAY));

    let mut paid = sub.clone();
    paid.status = SubscriptionStatus::Active;
    assert!(!paid.is_trial_active_at(now));
    assert!(!paid.is_trial_expired_at(now + 100 * DAY));
    assert!(paid.can_run_job_at(now + 100 * DAY));
    assert_eq!(paid.trial_days_remaining_at(now), None);
    assert!(paid.can_run_job());
    assert_eq!(paid.trial_days_remaining(), None);

    let late = Subscription::new_trial_at(1, 2, i64::MAX - 5);
    assert_eq!(late.trial_ends_at, Some(i64::MAX));
}

#[test]
fn remaining_build_time_never_goes_below_zero() {
    let mut sub = Subscription::new_trial_at(1, 2, 0);
    assert_eq!(sub.remaining_minutes(), Some(300 * 60_000));
    sub.used_millis = 90_000;
    assert_eq!(sub.remaining_minutes(), Some(300 * 60_000 - 90_000));
    sub.used_millis = 300 * 60_000;
    assert_eq!(sub.remaining_minutes(), Some(0));
    sub.used_millis = u64::MAX;
    assert_eq!(sub.remaining_minutes(), Some(0));
    sub.used_millis = 0;
    sub.minutes_included = None;
    assert_eq!(sub.remaining_minutes(), Some(300 * 60_000));
    sub.minutes_included = Some(u32::MAX);
    assert_eq!(sub.remaining_minutes(), Some(u32::MAX as u64 * 60_000));
    sub.plan = SubscriptionPlan::Team;
    assert_eq!(sub.remaining_minutes(), None);
}

fn s(text: &str) -> Option<String> {
    Some(text.to_string())
}

#[test]
fn the_orchestrator_is_configured_from_its_environment() {
    let c = Config::from_vars(s("https://s"), s("key"), None, s("whsec"), None, None, None, s("w")).unwrap();
    assert_eq!((c.supabase_url.as_str(), c.supabase_key.as_str()), ("https://s", "key"));
    assert_eq!(c.port, 3000);
    assert_eq!(c.base_url, "http://localhost:3000");
    assert_eq!(c.stripe_webhook_secret.as_deref(), Some("whsec"));
    assert_eq!((c.stripe_secret_key, c.stripe_publishable_key), (None, None));
    assert_eq!(c.worker_secret_key.as_deref(), Some("w"));
    let c = Config::from_vars(s("a"), s("b"), None, None, None, s("8080"), s("https://api"), None).unwrap();
    assert_eq!((c.port, c.base_url.as_str()), (8080, "https://api"));
    assert_eq!(Config::from_vars(s("a"), s("b"), None, None, None, s("+0065535"), None, None).unwrap().port, 65535);

    assert_eq!(Config::from_vars(None, s("b"), None, None, None, None, None, None).err(), Some(ConfigError::MissingSupabaseUrl));
    assert_eq!(Config::from_vars(None, None, None, None, None, s("x"), None, None).err(), Some(ConfigError::MissingSupabaseUrl));
    assert_eq!(Config::from_vars(s("a"), None, None, None, None, None, None, None).err(), Some(ConfigError::MissingSupabaseKey));
    for bad in ["", "65536", "-1", "80 ", "8o", "+", "99999999999999999999999"] {
        assert_eq!(
            Config::from_vars(s("a"), s("b"), None, None, None, s(bad), None, None).err(),
            Some(ConfigError::InvalidPort),
            "port {:?}",
            bad
        );
        assert!(bad.parse::<u16>().is_err());
    }
    assert_eq!(ConfigError::MissingSupabaseUrl.message(), "SUPABASE_URL environment variable required");
    assert_eq!(ConfigError::MissingSupabaseKey.message(), "SUPABASE_KEY environment variable required");
    assert_eq!(ConfigError::InvalidPort.message(), "Invalid PORT value");
}

#[test]
fn the_backend_is_chosen_from_the_environment() {
    match DatabaseBackend::from_vars(s("u"), s("k"), s("postgres://x"), s("p")) {
        DatabaseBackend::Supabase { url, key } => assert_eq!((url.as_str(), key.as_str()), ("u", "k")),
        other => panic!("unexpected {:?}", other),
    }
    match DatabaseBackend::from_vars(s("u"), None, s("postgresql://db"), None) {
        DatabaseBackend::Postgres { url } => assert_eq!(url, "postgresql://db"),
        other => panic!("unexpected {:?}", other),
    }
    match DatabaseBackend::from_vars(None, s("k"), s("mysql://db"), s("/var/db.sqlite")) {
        DatabaseBackend::Sqlite { path } => assert_eq!(path, "/var/db.sqlite"),
        other => panic!("unexpected {:?}", other),
    }
    match DatabaseBackend::from_vars(None, None, None, None) {
        DatabaseBackend::Sqlite { path } => assert_eq!(path, "data/jules-mac-runner.db"),
        other => panic!("unexpected {:?}", other),
    }
}

#[test]
fn the_worker_is_configured_from_its_environment() {
    let c = worker_config::Config::from_vars(
        s("http://orch"), None, None, None, None, None, None, None, None, None, None,
    )
    .unwrap();
    assert_eq!(c.orchestrator_url, "http://orch");
    assert_eq!(c.hostname, "unknown");
    assert_eq!((c.capacity, c.job_timeout_minutes, c.vm_pool_size), (2, 60, 1));
    assert_eq!(c.tart_base_image, "ghcr.io/cirruslabs/macos-tahoe-xcode:latest");
    assert_eq!(c.data_dir, "/tmp/alloy-worker");
    assert_eq!((c.vm_setup_script, c.worker_secret_key), (None, None));

    let c = worker_config::Config::from_vars(
        s("http://orch"), None, s("mini.local"), s("4"), s("img"), s("90"), s("3"), s("./s.sh"),
        s("sec"), None, s("/Users/a/.alloy"),
    )
    .unwrap();
    assert_eq!((c.hostname.as_str(), c.capacity, c.job_timeout_minutes, c.vm_pool_size), ("mini.local", 4, 90, 3));
    assert_eq!((c.tart_base_image.as_str(), c.data_dir.as_str()), ("img", "/Users/a/.alloy"));
    assert_eq!((c.vm_setup_script.as_deref(), c.worker_secret_key.as_deref()), (Some("./s.sh"), Some("sec")));
    let c = worker_config::Config::from_vars(
        s("o"), s("named"), s("mini.local"), None, None, None, None, None, None, s("/data"), s("/home"),
    )
    .unwrap();
    assert_eq!((c.hostname.as_str(), c.data_dir.as_str()), ("named", "/data"));

    let err = |cap: Option<String>, t: Option<String>, p: Option<String>| {
        worker_config::Config::from_vars(s("o"), None, None, cap, None, t, p, None, None, None, None).err()
    };
    assert_eq!(
        worker_config::Config::from_vars(None, None, None, s("x"), None, None, None, None, None, None, None).err(),
        Some(ConfigError::MissingOrchestratorUrl)
    );
    assert_eq!(err(s("two"), s("x"), s("y")), Some(ConfigError::InvalidCapacity));
    assert_eq!(err(s("4294967296"), None, None), Some(ConfigError::InvalidCapacity));
    assert_eq!(err(s("2"), s("1h"), s("y")), Some(ConfigError::InvalidTimeout));
    assert_eq!(err(None, s("18446744073709551616"), None), Some(ConfigError::InvalidTimeout));
    assert_eq!(err(None, s("18446744073709551615"), s("-1")), Some(ConfigError::InvalidPoolSize));
    assert_eq!(err(None, None, s("")), Some(ConfigError::InvalidPoolSize));
}

#[test]
fn requests_are_keyed_for_rate_limiting() {
    let k = RateLimitKey;
    assert_eq!(k.extract(Some("ApiKey jmr_12345678"), Some("1.2.3.4"), None), "api:jmr_1234");
    assert_eq!(k.extract(Some("ApiKey abc"), None, None), "api:abc");
    assert_eq!(k.extract(Some("ApiKey "), None, None), "api:");
    assert_eq!(k.extract(Some("Bearer tok"), Some(" 1.2.3.4 , 5.6.7.8"), Some("9.9.9.9")), "ip:1.2.3.4");
    assert_eq!(k.extract(None, Some(""), Some("9.9.9.9")), "ip:");
    assert_eq!(k.extract(None, Some(",x"), None), "ip:");
    assert_eq!(k.extract(None, None, Some("9.9.9.9")), "ip:9.9.9.9");
    assert_eq!(k.extract(None, None, None), "unknown");
    assert_eq!(k.extract(Some("apikey x"), None, None), "unknown");
}

#[test]
fn urls_and_paths_are_built_from_their_parts() {
    let id = 0x550e8400_e29b_41d4_a716_446655440000u128;
    let t = "550e8400-e29b-41d4-a716-446655440000";
    assert_eq!(stream_url("http://b", id), format!("http://b/api/v1/jobs/{}/logs", t));
    assert_eq!(upload_url("http://b", id), format!("http://b/api/v1/jobs/{}/upload", t));
    assert_eq!(storage_key(Some("abc123"), id), "sources/abc123.zip");
    assert_eq!(storage_key(None, id), format!("sources/{}.zip", t));
    assert_eq!(public_url("https://s", "sources/x.zip"), "https://s/storage/v1/object/public/sources/x.zip");
    assert_eq!(object_url("https://s", "sources/x.zip"), "https://s/storage/v1/object/sources/x.zip");
    assert_eq!(log_path(id), format!("logs/{}.log", t));
    assert_eq!(artifact_path(id, "app.ipa"), format!("artifacts/{}/app.ipa", t));

    let w = OrchestratorClient::new("http://o", Some("sec".into()));
    assert_eq!(w.with_auth(), Some(("X-Worker-Secret", "sec".to_string())));
    assert_eq!(OrchestratorClient::new("http://o", None).with_auth(), None);
    assert_eq!(w.register(), "http://o/api/v1/workers/register");
    assert_eq!(w.heartbeat(), "http://o/api/v1/workers/heartbeat");
    assert_eq!(w.claim_job(), "http://o/api/v1/workers/claim");
    assert_eq!(w.deregister(id), format!("http://o/api/v1/workers/{}/deregister", t));
    assert_eq!(w.complete_job(id), format!("http://o/api/v1/workers/{}/complete", t));
    assert_eq!(w.push_log(id), format!("http://o/api/v1/workers/{}/log", t));
    assert_eq!(w.upload_log_file(id), format!("http://o/api/v1/jobs/{}/logs/upload", t));
    assert_eq!(w.upload_artifact(id, "a.zip"), format!("http://o/api/v1/jobs/{}/artifacts/a.zip", t));

    let sb = SupabaseClient::new("https://s", "k");
    assert_eq!(sb.rest_url(), "https://s/rest/v1");
    assert_eq!(sb.storage_url(), "https://s/storage/v1");
    assert_eq!(sb.bearer(), "Bearer k");
    assert_eq!(sb.upload_log_file(id), format!("https://s/storage/v1/object/logs/{}.log", t));
    assert_eq!(sb.download_log_file(id), format!("https://s/storage/v1/object/authenticated/logs/{}.log", t));
    let (write, read) = sb.upload_artifact_file(id, "x.ipa");
    assert_eq!(write, format!("https://s/storage/v1/object/artifacts/{}/x.ipa", t));
    assert_eq!(read, format!("https://s/storage/v1/object/public/artifacts/{}/x.ipa", t));
}

#[test]
fn cors_origins_are_split_at_commas() {
    assert_eq!(cors_origins("https://a.example, https://b.example"), vec!["https://a.example", "https://b.example"]);
    assert_eq!(cors_origins(""), vec![""]);
    assert_eq!(cors_origins(" x ,, y,"), vec!["x", "", "y", ""]);
    for s in ["", ",", "a", "a,b", ",a,,b,", " a , b "] {
        let expected: Vec<String> = s.split(',').map(|p| p.to_string()).collect();
        assert_eq!(split_commas(s), expected);
        let trimmed: Vec<String> = s.split(',').map(|p| p.trim().to_string()).collect();
        assert_eq!(cors_origins(s), trimmed);
    }
}

#[test]
fn body_sizes_are_limited() {
    assert_eq!(MAX_ARCHIVE_BYTES, 2_147_483_648);
    assert_eq!(MAX_JSON_BYTES, 65_536);
}
