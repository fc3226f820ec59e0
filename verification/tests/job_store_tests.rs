use alloy_control::job_store::{JobStore, RetryFailure, StoreError, TransitionError};
use alloy_control::models::{Job, JobStatus, SourceType};

fn pending(id: u128, created_at: i64) -> Job {
    Job::with_command_at(
        id,
        created_at,
        7,
        "echo hi".to_string(),
        SourceType::Git,
        Some("https://example.com/repo.git".to_string()),
    )
}

#[test]
fn claim_takes_the_oldest_pending_job() {
    let mut store = JobStore::new();
    store.create_job(pending(3, 300)).unwrap();
    store.create_job(pending(1, 100)).unwrap();
    store.create_job(pending(2, 200)).unwrap();
    let first = store.claim_pending_job(50, 1_000).unwrap();
    assert_eq!(first.id, 1);
    assert_eq!(first.status, JobStatus::Running);
    assert_eq!(first.worker_id, Some(50));
    assert_eq!(first.started_at, Some(1_000));
    let second = store.claim_pending_job(51, 1_001).unwrap();
    assert_eq!(second.id, 2);
    let third = store.claim_pending_job(52, 1_002).unwrap();
    assert_eq!(third.id, 3);
    assert!(store.claim_pending_job(53, 1_003).is_none());
}

#[test]
fn claim_breaks_ties_by_identifier() {
    let mut store = JobStore::new();
    store.create_job(pending(9, 100)).unwrap();
    store.create_job(pending(4, 100)).unwrap();
    store.create_job(pending(6, 100)).unwrap();
    assert_eq!(store.claim_pending_job(1, 5).unwrap().id, 4);
    assert_eq!(store.claim_pending_job(1, 5).unwrap().id, 6);
    assert_eq!(store.claim_pending_job(1, 5).unwrap().id, 9);
}

#[test]
fn ten_workers_race_for_one_job() {
    let mut store = JobStore::new();
    store.create_job(pending(42, 100)).unwrap();
    let mut winners = Vec::new();
    for worker in 0..10u128 {
        if let Some(job) = store.claim_pending_job(1000 + worker, 200 + worker as i64) {
            assert_eq!(job.id, 42);
            winners.push(job.worker_id.unwrap());
        }
    }
    assert_eq!(winners, vec![1000]);
    assert_eq!(store.get_job(42).unwrap().worker_id, Some(1000));
}

#[test]
fn create_refuses_duplicates_and_malformed_records() {
    let mut store = JobStore::new();
    store.create_job(pending(1, 100)).unwrap();
    assert_eq!(store.create_job(pending(1, 200)), Err(StoreError::DuplicateId));
    let mut both = pending(2, 100);
    both.script = Some("make".to_string());
    assert_eq!(store.create_job(both), Err(StoreError::Malformed));
    let mut neither = pending(3, 100);
    neither.command = None;
    assert_eq!(store.create_job(neither), Err(StoreError::Malformed));
    assert_eq!(store.len(), 1);
}

#[test]
fn complete_records_the_result_of_a_running_job() {
    let mut store = JobStore::new();
    store.create_job(pending(1, 100)).unwrap();
    store.create_job(pending(2, 101)).unwrap();
    store.claim_pending_job(9, 200).unwrap();
    store.claim_pending_job(9, 201).unwrap();
    let done = store.complete_job(1, 0, 3_000, 300).unwrap();
    assert_eq!(done.status, JobStatus::Completed);
    assert_eq!(done.exit_code, Some(0));
    assert_eq!(done.build_millis, Some(3_000));
    assert_eq!(done.completed_at, Some(300));
    let failed = store.complete_job(2, 2, 10, 301).unwrap();
    assert_eq!(failed.status, JobStatus::Failed);
    assert_eq!(failed.exit_code, Some(2));
    assert_eq!(store.get_job(1).unwrap().status, JobStatus::Completed);
}

#[test]
fn complete_is_refused_for_unknown_and_pending_jobs() {
    let mut store = JobStore::new();
    store.create_job(pending(1, 100)).unwrap();
    assert_eq!(store.complete_job(5, 0, 1, 1).err(), Some(TransitionError::NotFound));
    assert_eq!(store.complete_job(1, 0, 1, 1).err(), Some(TransitionError::InvalidState));
    assert_eq!(store.get_job(1).unwrap().status, JobStatus::Pending);
}

#[test]
fn cancel_then_complete_keeps_cancelled() {
    let mut store = JobStore::new();
    store.create_job(pending(1, 100)).unwrap();
    store.claim_pending_job(9, 200).unwrap();
    let cancelled = store.cancel_job(1, 250).unwrap();
    assert_eq!(cancelled.status, JobStatus::Cancelled);
    assert_eq!(cancelled.completed_at, Some(250));
    let after = store.complete_job(1, 0, 3_000, 300).unwrap();
    assert_eq!(after.status, JobStatus::Cancelled);
    assert_eq!(after.exit_code, None);
    assert_eq!(store.get_job(1).unwrap().status, JobStatus::Cancelled);
}

#[test]
fn cancel_is_refused_for_terminal_jobs() {
    let mut store = JobStore::new();
    store.create_job(pending(1, 100)).unwrap();
    store.claim_pending_job(9, 200).unwrap();
    store.complete_job(1, 1, 5, 300).unwrap();
    assert_eq!(store.cancel_job(1, 400).err(), Some(TransitionError::InvalidState));
    assert_eq!(store.cancel_job(8, 400).err(), Some(TransitionError::NotFound));
    assert_eq!(store.get_job(1).unwrap().status, JobStatus::Failed);
}

#[test]
fn retry_clones_a_failed_job_under_a_new_identity() {
    let mut store = JobStore::new();
    store.create_job(pending(1, 100)).unwrap();
    store.claim_pending_job(9, 200).unwrap();
    store.complete_job(1, 1, 5, 300).unwrap();
    let fresh = store.retry_job(1, 2, 400).unwrap();
    assert_eq!(fresh.id, 2);
    assert_eq!(fresh.status, JobStatus::Pending);
    assert_eq!(fresh.customer_id, 7);
    assert_eq!(fresh.command.as_deref(), Some("echo hi"));
    assert_eq!(fresh.script, None);
    assert_eq!(fresh.source_type, SourceType::Git);
    assert_eq!(fresh.source_url.as_deref(), Some("https://example.com/repo.git"));
    assert_eq!(fresh.created_at, 400);
    assert_eq!(fresh.worker_id, None);
    assert_eq!(store.get_job(1).unwrap().status, JobStatus::Failed);
    assert_eq!(store.len(), 2);
}

#[test]
fn retry_is_refused_unless_failed_or_cancelled() {
    let mut store = JobStore::new();
    store.create_job(pending(1, 100)).unwrap();
    assert_eq!(store.retry_job(1, 2, 1).err(), Some(RetryFailure::InvalidState));
    store.claim_pending_job(9, 200).unwrap();
    assert_eq!(store.retry_job(1, 2, 1).err(), Some(RetryFailure::InvalidState));
    store.complete_job(1, 0, 5, 300).unwrap();
    assert_eq!(store.retry_job(1, 2, 1).err(), Some(RetryFailure::InvalidState));
    assert_eq!(store.retry_job(77, 2, 1).err(), Some(RetryFailure::NotFound));
    store.create_job(pending(3, 100)).unwrap();
    store.cancel_job(3, 150).unwrap();
    assert_eq!(store.retry_job(3, 1, 1).err(), Some(RetryFailure::DuplicateId));
    assert_eq!(store.retry_job(3, 4, 1).unwrap().id, 4);
}

#[test]
fn list_returns_the_newest_first_up_to_the_limit() {
    let mut store = JobStore::new();
    for (id, at) in [(1u128, 10i64), (2, 30), (3, 20), (4, 30), (5, 5)] {
        store.create_job(pending(id, at)).unwrap();
    }
    let ids: Vec<u128> = store.list_jobs(None, 10).iter().map(|j| j.id).collect();
    assert_eq!(ids, vec![2, 4, 3, 1, 5]);
    let ids: Vec<u128> = store.list_jobs(None, 3).iter().map(|j| j.id).collect();
    assert_eq!(ids, vec![2, 4, 3]);
    assert!(store.list_jobs(None, 0).is_empty());
    store.claim_pending_job(9, 100).unwrap();
    let running: Vec<u128> =
        store.list_jobs(Some(JobStatus::Running), 10).iter().map(|j| j.id).collect();
    assert_eq!(running, vec![5]);
    let pending_ids: Vec<u128> =
        store.list_jobs(Some(JobStatus::Pending), 2).iter().map(|j| j.id).collect();
    assert_eq!(pending_ids, vec![2, 4]);
}
