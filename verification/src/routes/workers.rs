//! Worker management: register, heartbeat, claim, complete, deregister.

use vstd::prelude::*;
use crate::api::{failure, ApiFailure, ApiFailureView, STATUS_BAD_REQUEST, STATUS_NOT_FOUND};
use crate::ids::{format_id, id_text};
use crate::job_store::{after_claim, after_complete, claim_reply, lookup, TransitionError};
use crate::log_hub::{after_push, after_remove_stream};
use crate::models::{
    Job, JobResult, JobStatus, JobView, RegisterWorkerRequest, RegisterWorkerResponse,
    WorkerHeartbeat, WorkerInfo, WorkerStatus,
};
use crate::registry::{
    after_deregister, after_heartbeat, after_register, has_worker, registered, ArtifactStore,
};
use crate::routes::jobs::not_found_failure;
use crate::state::AppState;
use crate::text::join3;

verus! {

/// Registers a worker. A worker that proposes an identifier keeps it;
/// another one gets `new_id`. Its record, Online and without jobs, replaces
/// any earlier record of the same identifier. The token of the session is
/// the text of `token_id`.
pub fn register_worker(
    state: &mut AppState,
    request: &RegisterWorkerRequest,
    new_id: u128,
    token_id: u128,
    now: i64,
) -> (resp: RegisterWorkerResponse)
    requires
        old(state).wf(),
    ensures
        final(state).wf(),
        final(state).config == old(state).config,
        final(state).jobs@ == old(state).jobs@,
        final(state).log_streams@ == old(state).log_streams@,
        final(state).artifacts@ == old(state).artifacts@,
        resp.worker_id == match request.worker_id {
            Some(id) => id,
            None => new_id,
        },
        resp.token@ == id_text(token_id),
        final(state).workers@ == after_register(
            old(state).workers@,
            registered(resp.worker_id, request.hostname@, request.capacity, now),
        ),
{
    let worker_id = match request.worker_id {
        Some(id) => id,
        None => new_id,
    };
    let info = WorkerInfo {
        id: worker_id,
        hostname: request.hostname.clone(),
        capacity: request.capacity,
        current_jobs: 0,
        last_heartbeat: now,
        status: WorkerStatus::Online,
    };
    state.workers.register(info);
    RegisterWorkerResponse { worker_id, token: format_id(token_id) }
}

/// The failure reported for a worker that is not registered.
pub open spec fn worker_not_found_failure(worker_id: u128) -> ApiFailureView {
    failure(404, "Worker "@ + id_text(worker_id) + " not found"@, "worker_not_found"@)
}

/// Takes a worker's heartbeat: renews its load and heartbeat time and
/// marks it Busy at or above capacity, Online below. An unknown worker is
/// refused.
pub fn heartbeat(state: &mut AppState, request: &WorkerHeartbeat, now: i64) -> (r: Result<
    (),
    ApiFailure,
>)
    requires
        old(state).wf(),
    ensures
        final(state).wf(),
        final(state).config == old(state).config,
        final(state).jobs@ == old(state).jobs@,
        final(state).log_streams@ == old(state).log_streams@,
        final(state).artifacts@ == old(state).artifacts@,
        final(state).workers@ == after_heartbeat(
            old(state).workers@,
            request.worker_id,
            request.current_jobs,
            request.capacity,
            now,
        ),
        match r {
            Ok(()) => has_worker(old(state).workers@, request.worker_id),
            Err(f) => !has_worker(old(state).workers@, request.worker_id) && f@
                == worker_not_found_failure(request.worker_id),
        },
{
    if state.workers.heartbeat(request.worker_id, request.current_jobs, request.capacity, now) {
        Ok(())
    } else {
        let message = join3("Worker ", format_id(request.worker_id).as_str(), " not found");
        Err(ApiFailure::new(STATUS_NOT_FOUND, message.as_str(), "worker_not_found"))
    }
}

/// Hands the oldest Pending job to the worker, in one step, and returns it
/// as it stands after the claim: Running, assigned to the worker, started
/// at `now`. Returns nothing where no job is Pending.
pub fn claim_job(state: &mut AppState, worker_id: u128, now: i64) -> (claimed: Option<Job>)
    requires
        old(state).wf(),
    ensures
        final(state).wf(),
        final(state).config == old(state).config,
        final(state).workers@ == old(state).workers@,
        final(state).log_streams@ == old(state).log_streams@,
        final(state).artifacts@ == old(state).artifacts@,
        final(state).jobs@ == after_claim(old(state).jobs@, worker_id, now),
        match claimed {
            Some(job) => claim_reply(old(state).jobs@, worker_id, now) == Some(job@),
            None => claim_reply(old(state).jobs@, worker_id, now) is None,
        },
{
    state.jobs.claim_pending_job(worker_id, now)
}

/// What the watchers of a job are told when it has ended.
#[derive(Debug, Clone, Copy, PartialEq, Eq)]
pub struct CompletionNotice {
    pub job_id: u128,
    /// The status that the job ends in.
    pub status: JobStatus,
    /// The exit code that the worker reported.
    pub exit_code: i32,
    /// The build time that the worker reported, in milliseconds.
    pub build_millis: u64,
    /// The number of artifacts that the worker reported.
    pub artifacts_count: usize,
}

/// The notice for a reported result: the status that the job has after the
/// report, with the figures of the report.
pub open spec fn notice_for(job: JobView, exit_code: i32, build_millis: u64, artifacts: nat) -> CompletionNotice {
    CompletionNotice {
        job_id: job.id,
        status: job.status,
        exit_code,
        build_millis,
        artifacts_count: artifacts as usize,
    }
}

/// The failure reported for the completion of a job that was never
/// claimed.
pub open spec fn complete_failure() -> ApiFailureView {
    failure(400, "Job is pending and cannot be completed"@, "invalid_state"@)
}

/// The artifact records after those of a report were added, in order.
pub open spec fn with_artifacts(
    records: Seq<(u128, crate::models::ArtifactView)>,
    job_id: u128,
    artifacts: Seq<crate::models::ArtifactView>,
) -> Seq<(u128, crate::models::ArtifactView)> {
    records + Seq::new(artifacts.len(), |i: int| (job_id, artifacts[i]))
}

fn store_all(store: &mut ArtifactStore, job_id: u128, result: &JobResult)
    ensures
        final(store)@ == with_artifacts(old(store)@, job_id, result@.artifacts),
{
    let mut i: usize = 0;
    while i < result.artifacts.len()
        invariant
            i <= result.artifacts.len(),
            store@ == with_artifacts(old(store)@, job_id, result@.artifacts.take(i as int)),
        decreases result.artifacts.len() - i,
    {
        let ghost before = store@;
        store.store_artifact(job_id, result.artifacts[i].clone());
        i += 1;
        assert(store@ =~= with_artifacts(old(store)@, job_id, result@.artifacts.take(i as int)));
    }
    assert(result@.artifacts.take(i as int) =~= result@.artifacts);
}

/// Records the result that a worker reports. A Running job becomes
/// Completed for exit code zero and Failed otherwise, with the exit code,
/// the build time and `now` as its completion time. A job that is terminal
/// already is not changed: the report is accepted, but the terminal status
/// wins. Either way the artifacts of the report are recorded and the notice
/// for the job's watchers is returned. A job that does not exist, or is
/// still Pending, is refused and nothing changes. Which worker reports is
/// not looked at.
pub fn complete_job(state: &mut AppState, result: &JobResult, now: i64) -> (r: Result<
    CompletionNotice,
    ApiFailure,
>)
    requires
        old(state).wf(),
    ensures
        final(state).wf(),
        final(state).config == old(state).config,
        final(state).workers@ == old(state).workers@,
        final(state).log_streams@ == old(state).log_streams@,
        final(state).jobs@ == after_complete(
            old(state).jobs@,
            result.job_id,
            result.exit_code,
            result.build_millis,
            now,
        ),
        match r {
            Ok(notice) => {
                &&& lookup(old(state).jobs@, result.job_id) is Some
                &&& lookup(old(state).jobs@, result.job_id)->0.status != JobStatus::Pending
                &&& lookup(final(state).jobs@, result.job_id) is Some
                &&& notice == notice_for(
                    lookup(final(state).jobs@, result.job_id)->0,
                    result.exit_code,
                    result.build_millis,
                    result@.artifacts.len(),
                )
                &&& final(state).artifacts@ == with_artifacts(
                    old(state).artifacts@,
                    result.job_id,
                    result@.artifacts,
                )
            },
            Err(f) => {
                &&& final(state).artifacts@ == old(state).artifacts@
                &&& final(state).jobs@ == old(state).jobs@
                &&& match lookup(old(state).jobs@, result.job_id) {
                    None => f@ == not_found_failure(result.job_id),
                    Some(job) => job.status == JobStatus::Pending && f@ == complete_failure(),
                }
            },
        },
{
    match state.jobs.complete_job(result.job_id, result.exit_code, result.build_millis, now) {
        Ok(job) => {
            store_all(&mut state.artifacts, result.job_id, result);
            Ok(
                CompletionNotice {
                    job_id: job.id,
                    status: job.status,
                    exit_code: result.exit_code,
                    build_millis: result.build_millis,
                    artifacts_count: result.artifacts.len(),
                },
            )
        },
        Err(TransitionError::NotFound) => {
            let message = join3("Job ", format_id(result.job_id).as_str(), " not found");
            Err(ApiFailure::new(STATUS_NOT_FOUND, message.as_str(), "job_not_found"))
        },
        Err(TransitionError::InvalidState) => Err(
            ApiFailure::new(
                STATUS_BAD_REQUEST,
                "Job is pending and cannot be completed",
                "invalid_state",
            ),
        ),
    }
}

/// Tells the watchers of a job that it has ended and closes its stream:
/// the frame, which encodes the completion notice, is the last message of
/// the stream. Subscribers get what they still have queued, then the frame,
/// then the end of the stream; later subscribers find no stream. Returns
/// whether there was a stream.
pub fn close_log_stream(state: &mut AppState, job_id: u128, frame: &str) -> (had_stream: bool)
    requires
        old(state).wf(),
    ensures
        final(state).wf(),
        final(state).config == old(state).config,
        final(state).workers@ == old(state).workers@,
        final(state).jobs@ == old(state).jobs@,
        final(state).artifacts@ == old(state).artifacts@,
        had_stream == old(state).log_streams@.open.contains(job_id),
        final(state).log_streams@ == after_remove_stream(
            after_push(old(state).log_streams@, job_id, frame@),
            job_id,
        ),
{
    let had = state.log_streams.push(job_id, frame);
    state.log_streams.remove_stream(job_id);
    had
}

/// Marks a worker Offline. It is never removed from the table. Returns
/// whether the worker was known.
pub fn deregister_worker(state: &mut AppState, worker_id: u128) -> (known: bool)
    requires
        old(state).wf(),
    ensures
        final(state).wf(),
        final(state).config == old(state).config,
        final(state).jobs@ == old(state).jobs@,
        final(state).log_streams@ == old(state).log_streams@,
        final(state).artifacts@ == old(state).artifacts@,
        final(state).workers@ == after_deregister(old(state).workers@, worker_id),
        known == has_worker(old(state).workers@, worker_id),
{
    state.workers.deregister(worker_id)
}

} // verus!
