//! Job management: create, upload, start, list, read, cancel, retry.

use vstd::prelude::*;
use crate::api::{
    failure, ApiFailure, ApiFailureView, STATUS_BAD_GATEWAY, STATUS_BAD_REQUEST,
    STATUS_INTERNAL_SERVER_ERROR, STATUS_NOT_FOUND,
};
use crate::ids::{format_id, id_text};
use crate::job_store::{
    after_cancel, after_retry, can_retry, has_job, is_page, lookup, views, RetryFailure,
};
use crate::log_hub::after_create_stream;
use crate::models::{
    artifact_views, Artifact, CreateJobRequest, CreateJobResponse, Job, JobStatus, JobView,
    SourceType, UploadUrlResponse,
};
use crate::registry::artifacts_of;
use crate::state::AppState;
use crate::text::{clone_opt_string, join3, opt_view, second_piece, split_second};
use crate::urls::{
    object_url, object_url_text, public_url, public_url_text, storage_key, storage_key_text,
    stream_url, stream_url_text, upload_url, upload_url_text,
};

verus! {

/// The default number of jobs in a listing.
pub const DEFAULT_LIST_LIMIT: usize = 20;

/// The greatest number of jobs in a listing.
pub const MAX_LIST_LIMIT: usize = 100;

/// Whether every part of the state but the jobs and the log streams is the
/// same in `a` and `b`.
pub open spec fn rest_kept(a: AppState, b: AppState) -> bool {
    &&& a.config == b.config
    &&& a.workers@ == b.workers@
    &&& a.artifacts@ == b.artifacts@
}

/// Whether the whole state is the same in `a` and `b`.
pub open spec fn all_kept(a: AppState, b: AppState) -> bool {
    &&& rest_kept(a, b)
    &&& a.jobs@ == b.jobs@
    &&& a.log_streams@ == b.log_streams@
}

/// A request names its work properly when exactly one of command and
/// script is set.
pub open spec fn valid_work(command: Option<Seq<char>>, script: Option<Seq<char>>) -> bool {
    (command is Some) != (script is Some)
}

/// The failure reported for a request that does not name its work
/// properly.
pub open spec fn work_failure(command: Option<Seq<char>>, script: Option<Seq<char>>) -> ApiFailureView {
    if command is None && script is None {
        failure(400, "Either 'command' or 'script' is required"@, "validation_error"@)
    } else {
        failure(400, "Only one of 'command' and 'script' may be given"@, "validation_error"@)
    }
}

/// The failure reported where the store refuses a new job because its
/// identifier is taken.
pub open spec fn duplicate_failure() -> ApiFailureView {
    failure(500, "A job with this identifier exists already"@, "database_error"@)
}

/// The failure reported for a job that does not exist.
pub open spec fn not_found_failure(job_id: u128) -> ApiFailureView {
    failure(404, "Job "@ + id_text(job_id) + " not found"@, "job_not_found"@)
}

fn work_error(command: &Option<String>, script: &Option<String>) -> (f: ApiFailure)
    ensures
        f@ == work_failure(opt_view(*command), opt_view(*script)),
{
    if command.is_none() && script.is_none() {
        ApiFailure::new(
            STATUS_BAD_REQUEST,
            "Either 'command' or 'script' is required",
            "validation_error",
        )
    } else {
        ApiFailure::new(
            STATUS_BAD_REQUEST,
            "Only one of 'command' and 'script' may be given",
            "validation_error",
        )
    }
}

fn duplicate_error() -> (f: ApiFailure)
    ensures
        f@ == duplicate_failure(),
{
    ApiFailure::new(
        STATUS_INTERNAL_SERVER_ERROR,
        "A job with this identifier exists already",
        "database_error",
    )
}

fn not_found(job_id: u128) -> (f: ApiFailure)
    ensures
        f@ == not_found_failure(job_id),
{
    let message = join3("Job ", format_id(job_id).as_str(), " not found");
    ApiFailure::new(STATUS_NOT_FOUND, message.as_str(), "job_not_found")
}

/// Builds the Pending job that a request asks for, where the request names
/// its work properly.
fn build_job(
    id: u128,
    now: i64,
    customer_id: u128,
    command: &Option<String>,
    script: &Option<String>,
    source_type: SourceType,
    source_url: Option<String>,
) -> (job: Option<Job>)
    ensures
        match job {
            Some(j) => valid_work(opt_view(*command), opt_view(*script)) && j@ == JobView::fresh(
                id,
                now,
                customer_id,
                opt_view(*command),
                opt_view(*script),
                source_type,
                opt_view(source_url),
            ) && j@.wf(),
            None => !valid_work(opt_view(*command), opt_view(*script)),
        },
{
    match (command, script) {
        (Some(c), None) => Some(
            Job::with_command_at(id, now, customer_id, c.clone(), source_type, source_url),
        ),
        (None, Some(s)) => Some(
            Job::with_script_at(id, now, customer_id, s.clone(), source_type, source_url),
        ),
        _ => None,
    }
}

/// Creates a job from a request: a Pending job owned by `user_id`, under
/// the identifier `new_id`, created at `now`, with its log stream. A
/// request that names neither or both of command and script is refused.
pub fn create_job(
    state: &mut AppState,
    user_id: u128,
    request: &CreateJobRequest,
    new_id: u128,
    now: i64,
) -> (r: Result<CreateJobResponse, ApiFailure>)
    requires
        old(state).wf(),
    ensures
        final(state).wf(),
        rest_kept(*old(state), *final(state)),
        match r {
            Ok(resp) => {
                &&& valid_work(opt_view(request.command), opt_view(request.script))
                &&& !has_job(old(state).jobs@, new_id)
                &&& final(state).jobs@ == old(state).jobs@.push(
                    JobView::fresh(
                        new_id,
                        now,
                        user_id,
                        opt_view(request.command),
                        opt_view(request.script),
                        request.source_type,
                        opt_view(request.source_url),
                    ),
                )
                &&& final(state).log_streams@ == after_create_stream(
                    old(state).log_streams@,
                    new_id,
                )
                &&& resp.job_id == new_id
                &&& resp.status == JobStatus::Pending
                &&& resp.stream_url@ == stream_url_text(old(state).config.base_url@, new_id)
            },
            Err(f) => {
                &&& all_kept(*old(state), *final(state))
                &&& if !valid_work(opt_view(request.command), opt_view(request.script)) {
                    f@ == work_failure(opt_view(request.command), opt_view(request.script))
                } else {
                    has_job(old(state).jobs@, new_id) && f@ == duplicate_failure()
                }
            },
        },
{
    let job = match build_job(
        new_id,
        now,
        user_id,
        &request.command,
        &request.script,
        request.source_type,
        clone_opt_string(&request.source_url),
    ) {
        Some(job) => job,
        None => {
            return Err(work_error(&request.command, &request.script));
        },
    };
    match state.jobs.create_job(job) {
        Ok(()) => {},
        Err(_) => {
            return Err(duplicate_error());
        },
    }
    state.log_streams.create_stream(new_id);
    let url = stream_url(state.config.base_url.as_str(), new_id);
    Ok(CreateJobResponse { job_id: new_id, status: JobStatus::Pending, stream_url: url })
}

/// A request for an upload slot.
#[derive(Debug, Clone)]
pub struct UploadRequest {
    /// The command to execute (this or `script`).
    pub command: Option<String>,
    /// The script to execute (this or `command`).
    pub script: Option<String>,
    /// The commit that the archive is a snapshot of, for deduplication.
    pub commit_sha: Option<String>,
}

/// The URL whose existence decides whether an upload can be skipped: the
/// public URL of the archive, where the request names a commit. A request
/// without a commit has nothing to look for.
pub fn archive_probe_url(state: &AppState, request: &UploadRequest) -> (url: Option<String>)
    ensures
        match url {
            Some(u) => request.commit_sha is Some && u@ == public_url_text(
                state.config.supabase_url@,
                storage_key_text(opt_view(request.commit_sha), 0),
            ),
            None => request.commit_sha is None,
        },
{
    match &request.commit_sha {
        Some(sha) => {
            let key = storage_key(Some(sha.as_str()), 0);
            Some(public_url(state.config.supabase_url.as_str(), key.as_str()))
        },
        None => None,
    }
}

/// Opens an upload slot: creates a Pending job whose source is the archive
/// at the storage key of the request (named after the commit where one is
/// given, after the job otherwise) and tells where to upload and download
/// it. `archive_found` says whether the probe of [`archive_probe_url`]
/// found the archive; the upload can be skipped exactly where a commit was
/// named and the archive exists.
pub fn request_upload(
    state: &mut AppState,
    user_id: u128,
    request: &UploadRequest,
    new_id: u128,
    now: i64,
    archive_found: bool,
) -> (r: Result<UploadUrlResponse, ApiFailure>)
    requires
        old(state).wf(),
    ensures
        final(state).wf(),
        rest_kept(*old(state), *final(state)),
        final(state).log_streams@ == old(state).log_streams@,
        match r {
            Ok(resp) => {
                &&& valid_work(opt_view(request.command), opt_view(request.script))
                &&& !has_job(old(state).jobs@, new_id)
                &&& final(state).jobs@ == old(state).jobs@.push(
                    JobView::fresh(
                        new_id,
                        now,
                        user_id,
                        opt_view(request.command),
                        opt_view(request.script),
                        SourceType::Upload,
                        Some(resp.download_url@),
                    ),
                )
                &&& resp.job_id == new_id
                &&& resp.upload_url@ == upload_url_text(old(state).config.base_url@, new_id)
                &&& resp.download_url@ == public_url_text(
                    old(state).config.supabase_url@,
                    storage_key_text(opt_view(request.commit_sha), new_id),
                )
                &&& resp.upload_token@ == old(state).config.supabase_key@
                &&& resp.skip_upload == (request.commit_sha is Some && archive_found)
            },
            Err(f) => {
                &&& final(state).jobs@ == old(state).jobs@
                &&& if !valid_work(opt_view(request.command), opt_view(request.script)) {
                    f@ == work_failure(opt_view(request.command), opt_view(request.script))
                } else {
                    has_job(old(state).jobs@, new_id) && f@ == duplicate_failure()
                }
            },
        },
{
    let key = match &request.commit_sha {
        Some(sha) => storage_key(Some(sha.as_str()), new_id),
        None => storage_key(None, new_id),
    };
    let download = public_url(state.config.supabase_url.as_str(), key.as_str());
    let job = match build_job(
        new_id,
        now,
        user_id,
        &request.command,
        &request.script,
        SourceType::Upload,
        Some(download.clone()),
    ) {
        Some(job) => job,
        None => {
            return Err(work_error(&request.command, &request.script));
        },
    };
    match state.jobs.create_job(job) {
        Ok(()) => {},
        Err(_) => {
            return Err(duplicate_error());
        },
    }
    Ok(
        UploadUrlResponse {
            upload_url: upload_url(state.config.base_url.as_str(), new_id),
            download_url: download,
            job_id: new_id,
            upload_token: state.config.supabase_key.clone(),
            skip_upload: request.commit_sha.is_some() && archive_found,
        },
    )
}

/// The failure reported for a job whose status does not admit a start.
pub open spec fn start_failure(status: JobStatus) -> ApiFailureView {
    failure(
        400,
        "Job is in "@ + status.spec_label() + " status, expected pending or running"@,
        "invalid_state"@,
    )
}

/// Confirms that a job is ready to run, after its archive was uploaded. A
/// Pending job stays Pending and gets its log stream; a Running job was
/// claimed already, which is fine. A terminal job is refused.
pub fn start_job(state: &mut AppState, job_id: u128) -> (r: Result<CreateJobResponse, ApiFailure>)
    requires
        old(state).wf(),
    ensures
        final(state).wf(),
        rest_kept(*old(state), *final(state)),
        final(state).jobs@ == old(state).jobs@,
        match r {
            Ok(resp) => {
                &&& lookup(old(state).jobs@, job_id) is Some
                &&& !lookup(old(state).jobs@, job_id)->0.status.spec_is_terminal()
                &&& resp.job_id == job_id
                &&& resp.status == lookup(old(state).jobs@, job_id)->0.status
                &&& resp.stream_url@ == stream_url_text(old(state).config.base_url@, job_id)
                &&& final(state).log_streams@ == if resp.status == JobStatus::Pending {
                    after_create_stream(old(state).log_streams@, job_id)
                } else {
                    old(state).log_streams@
                }
            },
            Err(f) => {
                &&& final(state).log_streams@ == old(state).log_streams@
                &&& match lookup(old(state).jobs@, job_id) {
                    None => f@ == not_found_failure(job_id),
                    Some(job) => job.status.spec_is_terminal() && f@ == start_failure(job.status),
                }
            },
        },
{
    let job = match state.jobs.get_job(job_id) {
        Some(job) => job,
        None => {
            return Err(not_found(job_id));
        },
    };
    match job.status {
        JobStatus::Running => {},
        JobStatus::Pending => {
            state.log_streams.create_stream(job_id);
        },
        _ => {
            let message = join3(
                "Job is in ",
                job.status.label(),
                " status, expected pending or running",
            );
            return Err(ApiFailure::new(STATUS_BAD_REQUEST, message.as_str(), "invalid_state"));
        },
    }
    let url = stream_url(state.config.base_url.as_str(), job_id);
    Ok(CreateJobResponse { job_id, status: job.status, stream_url: url })
}

/// The query of a job listing.
#[derive(Debug, Clone)]
pub struct ListJobsQuery {
    /// Only jobs in the status of this wire name.
    pub status: Option<String>,
    /// At most this many jobs; 20 where none is given, and never more than
    /// 100.
    pub limit: Option<usize>,
}

/// The number of jobs that a listing returns at most.
pub open spec fn effective_limit(limit: Option<usize>) -> nat {
    match limit {
        Some(n) => if n < 100 {
            n as nat
        } else {
            100
        },
        None => 20,
    }
}

/// Lists the newest jobs, newest first. With a status given only jobs in
/// that status are listed; a name that denotes no status matches no job.
pub fn list_jobs(state: &AppState, query: &ListJobsQuery) -> (page: Vec<Job>)
    requires
        state.wf(),
    ensures
        match query.status {
            None => is_page(state.jobs@, None, effective_limit(query.limit), views(page@)),
            Some(name) => match JobStatus::named_by(name@) {
                Some(status) => is_page(
                    state.jobs@,
                    Some(status),
                    effective_limit(query.limit),
                    views(page@),
                ),
                None => page@.len() == 0,
            },
        },
{
    let limit = match query.limit {
        Some(n) => if n < MAX_LIST_LIMIT {
            n
        } else {
            MAX_LIST_LIMIT
        },
        None => DEFAULT_LIST_LIMIT,
    };
    match &query.status {
        None => state.jobs.list_jobs(None, limit),
        Some(name) => match JobStatus::from_name(name.as_str()) {
            Some(status) => state.jobs.list_jobs(Some(status), limit),
            None => Vec::new(),
        },
    }
}

/// Reads a job.
pub fn get_job(state: &AppState, job_id: u128) -> (r: Result<Job, ApiFailure>)
    requires
        state.wf(),
    ensures
        match r {
            Ok(job) => lookup(state.jobs@, job_id) == Some(job@),
            Err(f) => lookup(state.jobs@, job_id) is None && f@ == not_found_failure(job_id),
        },
{
    match state.jobs.get_job(job_id) {
        Some(job) => Ok(job),
        None => Err(not_found(job_id)),
    }
}

/// Reads the artifacts of a job, in the order in which they were recorded.
pub fn get_artifacts(state: &AppState, job_id: u128) -> (found: Vec<Artifact>)
    ensures
        artifact_views(found@) == artifacts_of(state.artifacts@, job_id),
{
    state.artifacts.get_job_artifacts(job_id)
}

/// The text that separates the address of the storage service from the
/// key of a public object.
pub open spec fn public_mark() -> Seq<char> {
    "/object/public/"@
}

/// The storage path that an archive is uploaded to: the key found in the
/// job's source URL behind the public mark, or, where the URL has no such
/// mark, the key named after the job.
pub open spec fn upload_path_text(source_url: Seq<char>, job_id: u128) -> Seq<char> {
    match second_piece(source_url, public_mark()) {
        Some(key) => key,
        None => storage_key_text(None, job_id),
    }
}

/// The failure reported for an upload to a job without source URL.
pub open spec fn no_source_failure() -> ApiFailureView {
    failure(400, "Job has no source URL"@, "no_source_url"@)
}

/// Where the archive of a job is to be put: the URL of the storage object
/// at the job's storage key. A job that does not exist, or has no source
/// URL, is refused.
pub fn upload_archive(state: &AppState, job_id: u128) -> (r: Result<String, ApiFailure>)
    requires
        state.wf(),
    ensures
        match r {
            Ok(url) => lookup(state.jobs@, job_id) is Some && lookup(
                state.jobs@,
                job_id,
            )->0.source_url is Some && url@ == object_url_text(
                state.config.supabase_url@,
                upload_path_text(lookup(state.jobs@, job_id)->0.source_url->0, job_id),
            ),
            Err(f) => match lookup(state.jobs@, job_id) {
                None => f@ == failure(404, "Job not found"@, "job_not_found"@),
                Some(job) => job.source_url is None && f@ == no_source_failure(),
            },
        },
{
    let job = match state.jobs.get_job(job_id) {
        Some(job) => job,
        None => {
            return Err(ApiFailure::new(STATUS_NOT_FOUND, "Job not found", "job_not_found"));
        },
    };
    let source_url = match job.source_url {
        Some(url) => url,
        None => {
            return Err(
                ApiFailure::new(STATUS_BAD_REQUEST, "Job has no source URL", "no_source_url"),
            );
        },
    };
    proof {
        reveal_strlit("/object/public/");
    }
    let path = match split_second(source_url.as_str(), "/object/public/") {
        Some(key) => key,
        None => storage_key(None, job_id),
    };
    Ok(object_url(state.config.supabase_url.as_str(), path.as_str()))
}

/// What the answer of the storage service to an upload means: success, or
/// a failure that carries the service's own words.
pub fn upload_outcome(accepted: bool, error_text: &str) -> (r: Result<(), ApiFailure>)
    ensures
        match r {
            Ok(()) => accepted,
            Err(f) => !accepted && f@ == failure(502, error_text@, "storage_upload_failed"@),
        },
{
    if accepted {
        Ok(())
    } else {
        Err(ApiFailure::new(STATUS_BAD_GATEWAY, error_text, "storage_upload_failed"))
    }
}

/// The failure reported for a cancel of a terminal job.
pub open spec fn cancel_failure(status: JobStatus) -> ApiFailureView {
    failure(
        400,
        "Cannot cancel job in "@ + status.spec_name() + " status"@,
        "invalid_state"@,
    )
}

/// Cancels a job: a Pending or Running job becomes Cancelled at `now`. A
/// terminal job is refused and stays as it is.
pub fn cancel_job(state: &mut AppState, job_id: u128, now: i64) -> (r: Result<(), ApiFailure>)
    requires
        old(state).wf(),
    ensures
        final(state).wf(),
        rest_kept(*old(state), *final(state)),
        final(state).log_streams@ == old(state).log_streams@,
        final(state).jobs@ == after_cancel(old(state).jobs@, job_id, now),
        match r {
            Ok(()) => lookup(old(state).jobs@, job_id) is Some && !lookup(
                old(state).jobs@,
                job_id,
            )->0.status.spec_is_terminal() && lookup(final(state).jobs@, job_id) == Some(
                lookup(old(state).jobs@, job_id)->0.cancelled(now),
            ),
            Err(f) => final(state).jobs@ == old(state).jobs@ && match lookup(
                old(state).jobs@,
                job_id,
            ) {
                None => f@ == not_found_failure(job_id),
                Some(job) => job.status.spec_is_terminal() && f@ == cancel_failure(job.status),
            },
        },
{
    let status = match state.jobs.get_job(job_id) {
        Some(job) => job.status,
        None => {
            return Err(not_found(job_id));
        },
    };
    match state.jobs.cancel_job(job_id, now) {
        Ok(_) => Ok(()),
        Err(_) => {
            let message = join3("Cannot cancel job in ", status.name(), " status");
            Err(ApiFailure::new(STATUS_BAD_REQUEST, message.as_str(), "invalid_state"))
        },
    }
}

/// The answer to a retry.
#[derive(Debug, Clone, Copy)]
pub struct RetryJobResponse {
    pub new_job_id: u128,
    pub original_job_id: u128,
}

/// The failure reported for a retry of a job that is neither Failed nor
/// Cancelled.
pub open spec fn retry_state_failure(status: JobStatus) -> ApiFailureView {
    failure(
        400,
        "Cannot retry job in "@ + status.spec_name() + " status (only failed/cancelled)"@,
        "invalid_state"@,
    )
}

/// Retries a Failed or Cancelled job: creates a fresh Pending job under
/// `new_id`, at `now`, with the owner, source, command and script of the
/// original job, which is left as it is. A job in any other status is refused
/// with `invalid_state`.
pub fn retry_job(state: &mut AppState, job_id: u128, new_id: u128, now: i64) -> (r: Result<
    RetryJobResponse,
    ApiFailure,
>)
    requires
        old(state).wf(),
    ensures
        final(state).wf(),
        rest_kept(*old(state), *final(state)),
        final(state).log_streams@ == old(state).log_streams@,
        final(state).jobs@ == after_retry(old(state).jobs@, job_id, new_id, now),
        match r {
            Ok(resp) => {
                &&& can_retry(old(state).jobs@, job_id, new_id)
                &&& resp.new_job_id == new_id
                &&& resp.original_job_id == job_id
                &&& final(state).jobs@ == old(state).jobs@.push(
                    lookup(old(state).jobs@, job_id)->0.retried(new_id, now),
                )
            },
            Err(f) => final(state).jobs@ == old(state).jobs@ && match lookup(
                old(state).jobs@,
                job_id,
            ) {
                None => f@ == not_found_failure(job_id),
                Some(job) => if !job.retryable() {
                    f@ == retry_state_failure(job.status)
                } else {
                    has_job(old(state).jobs@, new_id) && f@ == duplicate_failure()
                },
            },
        },
{
    let status = match state.jobs.get_job(job_id) {
        Some(job) => job.status,
        None => JobStatus::Pending,
    };
    match state.jobs.retry_job(job_id, new_id, now) {
        Ok(_) => Ok(RetryJobResponse { new_job_id: new_id, original_job_id: job_id }),
        Err(RetryFailure::NotFound) => Err(not_found(job_id)),
        Err(RetryFailure::InvalidState) => {
            let message = join3(
                "Cannot retry job in ",
                status.name(),
                " status (only failed/cancelled)",
            );
            Err(ApiFailure::new(STATUS_BAD_REQUEST, message.as_str(), "invalid_state"))
        },
        Err(RetryFailure::DuplicateId) => Err(duplicate_error()),
    }
}

} // verus!
