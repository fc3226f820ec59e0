//! Core domain types of the build service: jobs, workers, log entries and
//! artifacts, each with the mathematical view its contracts are stated over.

use vstd::prelude::*;
use crate::clock::now_micros;
use crate::ids::{is_random_id, new_id};
use crate::text::{clone_opt_string, opt_view, same_text};

verus! {

/// How the source tree reaches the VM.
#[derive(Debug, Clone, Copy, PartialEq, Eq, Structural)]
pub enum SourceType {
    /// Cloned from a git repository.
    Git,
    /// Downloaded from an uploaded archive.
    Upload,
}

impl Default for SourceType {
    fn default() -> (r: SourceType)
        ensures
            r == SourceType::Git,
    {
        SourceType::Git
    }
}

impl SourceType {
    /// The wire name of the variant.
    pub open spec fn spec_name(self) -> Seq<char> {
        match self {
            SourceType::Git => "git"@,
            SourceType::Upload => "upload"@,
        }
    }

    /// The wire name of the variant: `git` or `upload`.
    pub fn name(&self) -> (r: &'static str)
        ensures
            r@ == self.spec_name(),
    {
        match self {
            SourceType::Git => "git",
            SourceType::Upload => "upload",
        }
    }
}

/// Where a job stands in its life cycle.
#[derive(Debug, Clone, Copy, PartialEq, Eq, Structural)]
pub enum JobStatus {
    Pending,
    Running,
    Completed,
    Failed,
    Cancelled,
}

impl JobStatus {
    /// Completed, Failed and Cancelled admit no further status change.
    pub open spec fn spec_is_terminal(&self) -> bool {
        *self == JobStatus::Completed || *self == JobStatus::Failed || *self
            == JobStatus::Cancelled
    }

    /// Whether the status is one of Completed, Failed, Cancelled.
    #[verifier::when_used_as_spec(spec_is_terminal)]
    pub fn is_terminal(&self) -> (r: bool)
        ensures
            r == self.spec_is_terminal(),
    {
        match self {
            JobStatus::Completed | JobStatus::Failed | JobStatus::Cancelled => true,
            _ => false,
        }
    }

    /// The snake_case wire name of the status.
    pub open spec fn spec_name(self) -> Seq<char> {
        match self {
            JobStatus::Pending => "pending"@,
            JobStatus::Running => "running"@,
            JobStatus::Completed => "completed"@,
            JobStatus::Failed => "failed"@,
            JobStatus::Cancelled => "cancelled"@,
        }
    }

    /// The snake_case wire name of the status.
    pub fn name(&self) -> (r: &'static str)
        ensures
            r@ == self.spec_name(),
    {
        match self {
            JobStatus::Pending => "pending",
            JobStatus::Running => "running",
            JobStatus::Completed => "completed",
            JobStatus::Failed => "failed",
            JobStatus::Cancelled => "cancelled",
        }
    }

    /// The status that a wire name denotes, if any.
    pub open spec fn named_by(name: Seq<char>) -> Option<JobStatus> {
        if name == "pending"@ {
            Some(JobStatus::Pending)
        } else if name == "running"@ {
            Some(JobStatus::Running)
        } else if name == "completed"@ {
            Some(JobStatus::Completed)
        } else if name == "failed"@ {
            Some(JobStatus::Failed)
        } else if name == "cancelled"@ {
            Some(JobStatus::Cancelled)
        } else {
            None
        }
    }

    /// The status that a wire name denotes, if any.
    pub fn from_name(name: &str) -> (r: Option<JobStatus>)
        ensures
            r == Self::named_by(name@),
    {
        if same_text(name, "pending") {
            Some(JobStatus::Pending)
        } else if same_text(name, "running") {
            Some(JobStatus::Running)
        } else if same_text(name, "completed") {
            Some(JobStatus::Completed)
        } else if same_text(name, "failed") {
            Some(JobStatus::Failed)
        } else if same_text(name, "cancelled") {
            Some(JobStatus::Cancelled)
        } else {
            None
        }
    }

    /// The variant's own name, as shown in diagnostics and in the terminal
    /// stream frame.
    pub open spec fn spec_label(self) -> Seq<char> {
        match self {
            JobStatus::Pending => "Pending"@,
            JobStatus::Running => "Running"@,
            JobStatus::Completed => "Completed"@,
            JobStatus::Failed => "Failed"@,
            JobStatus::Cancelled => "Cancelled"@,
        }
    }

    /// The variant's own name, capitalised.
    pub fn label(&self) -> (r: &'static str)
        ensures
            r@ == self.spec_label(),
    {
        match self {
            JobStatus::Pending => "Pending",
            JobStatus::Running => "Running",
            JobStatus::Completed => "Completed",
            JobStatus::Failed => "Failed",
            JobStatus::Cancelled => "Cancelled",
        }
    }
}

/// A unit of work submitted by a customer.
///
/// Identifiers are 128-bit numbers, timestamps are microseconds since the
/// Unix epoch, and the billed build time is kept in whole milliseconds.
#[derive(Debug)]
pub struct Job {
    pub id: u128,
    pub customer_id: u128,
    pub source_type: SourceType,
    pub source_url: Option<String>,
    pub command: Option<String>,
    pub script: Option<String>,
    pub status: JobStatus,
    pub worker_id: Option<u128>,
    pub created_at: i64,
    pub started_at: Option<i64>,
    pub completed_at: Option<i64>,
    pub exit_code: Option<i32>,
    pub build_millis: Option<u64>,
}

/// The mathematical value of a [`Job`].
pub ghost struct JobView {
    pub id: u128,
    pub customer_id: u128,
    pub source_type: SourceType,
    pub source_url: Option<Seq<char>>,
    pub command: Option<Seq<char>>,
    pub script: Option<Seq<char>>,
    pub status: JobStatus,
    pub worker_id: Option<u128>,
    pub created_at: i64,
    pub started_at: Option<i64>,
    pub completed_at: Option<i64>,
    pub exit_code: Option<i32>,
    pub build_millis: Option<u64>,
}

impl View for Job {
    type V = JobView;

    open spec fn view(&self) -> JobView {
        JobView {
            id: self.id,
            customer_id: self.customer_id,
            source_type: self.source_type,
            source_url: opt_view(self.source_url),
            command: opt_view(self.command),
            script: opt_view(self.script),
            status: self.status,
            worker_id: self.worker_id,
            created_at: self.created_at,
            started_at: self.started_at,
            completed_at: self.completed_at,
            exit_code: self.exit_code,
            build_millis: self.build_millis,
        }
    }
}

impl JobView {
    /// The invariants of a job record: exactly one of command and script is
    /// set; a Pending job has no worker, no start and no result; a Running
    /// job has a worker and a start but no result; a terminal job has its
    /// completion time, and a Completed or Failed one has its result, with
    /// exit code zero exactly for Completed.
    pub open spec fn wf(self) -> bool {
        &&& (self.command is Some) != (self.script is Some)
        &&& self.status == JobStatus::Pending ==> {
            &&& self.worker_id is None
            &&& self.started_at is None
            &&& self.completed_at is None
            &&& self.exit_code is None
            &&& self.build_millis is None
        }
        &&& self.status == JobStatus::Running ==> {
            &&& self.worker_id is Some
            &&& self.started_at is Some
            &&& self.completed_at is None
            &&& self.exit_code is None
            &&& self.build_millis is None
        }
        &&& self.status.spec_is_terminal() ==> self.completed_at is Some
        &&& self.status == JobStatus::Completed ==> self.exit_code == Some(0i32)
        &&& self.status == JobStatus::Failed ==> self.exit_code is Some && self.exit_code
            != Some(0i32)
        &&& (self.status == JobStatus::Completed || self.status == JobStatus::Failed) ==> {
            &&& self.worker_id is Some
            &&& self.started_at is Some
            &&& self.build_millis is Some
        }
        &&& self.status == JobStatus::Cancelled ==> self.exit_code is None
            && self.build_millis is None
    }

    /// A job as it is created: Pending, unassigned, without result.
    pub open spec fn fresh(
        id: u128,
        created_at: i64,
        customer_id: u128,
        command: Option<Seq<char>>,
        script: Option<Seq<char>>,
        source_type: SourceType,
        source_url: Option<Seq<char>>,
    ) -> JobView {
        JobView {
            id,
            customer_id,
            source_type,
            source_url,
            command,
            script,
            status: JobStatus::Pending,
            worker_id: None,
            created_at,
            started_at: None,
            completed_at: None,
            exit_code: None,
            build_millis: None,
        }
    }

    /// The record after a worker claimed it at time `now`.
    pub open spec fn claimed(self, worker_id: u128, now: i64) -> JobView {
        JobView {
            status: JobStatus::Running,
            worker_id: Some(worker_id),
            started_at: Some(now),
            ..self
        }
    }

    /// The status a finished run earns: Completed for exit code zero, Failed
    /// for any other.
    pub open spec fn status_for_exit(exit_code: i32) -> JobStatus {
        if exit_code == 0 {
            JobStatus::Completed
        } else {
            JobStatus::Failed
        }
    }

    /// The record after its run ended at time `now`.
    pub open spec fn finished(self, exit_code: i32, build_millis: u64, now: i64) -> JobView {
        JobView {
            status: Self::status_for_exit(exit_code),
            completed_at: Some(now),
            exit_code: Some(exit_code),
            build_millis: Some(build_millis),
            ..self
        }
    }

    /// The record after it was cancelled at time `now`.
    pub open spec fn cancelled(self, now: i64) -> JobView {
        JobView { status: JobStatus::Cancelled, completed_at: Some(now), ..self }
    }

    /// Whether the record may spawn a retry: only a Failed or Cancelled one.
    pub open spec fn retryable(self) -> bool {
        self.status == JobStatus::Failed || self.status == JobStatus::Cancelled
    }

    /// The fresh Pending job that retries this one: a new identity and
    /// creation time, the same owner, source and work. Where both a script
    /// and a command are set, the script is kept.
    pub open spec fn retried(self, new_id: u128, now: i64) -> JobView {
        JobView::fresh(
            new_id,
            now,
            self.customer_id,
            if self.script is Some {
                None
            } else {
                self.command
            },
            self.script,
            self.source_type,
            self.source_url,
        )
    }

    /// The command or, where there is none, the script.
    pub open spec fn executable(self) -> Option<Seq<char>> {
        if self.command is Some {
            self.command
        } else {
            self.script
        }
    }
}

/// Why a job cannot be retried.
#[derive(Debug, Clone, Copy, PartialEq, Eq, Structural)]
pub enum RetryError {
    /// The job is neither Failed nor Cancelled.
    InvalidState,
    /// The job carries neither a command nor a script.
    NoWork,
}

impl Job {
    /// A Pending job with the given identity, creation time and command.
    pub fn with_command_at(
        id: u128,
        created_at: i64,
        customer_id: u128,
        command: String,
        source_type: SourceType,
        source_url: Option<String>,
    ) -> (job: Job)
        ensures
            job@ == JobView::fresh(
                id,
                created_at,
                customer_id,
                Some(command@),
                None,
                source_type,
                opt_view(source_url),
            ),
            job@.wf(),
    {
        Job {
            id,
            customer_id,
            source_type,
            source_url,
            command: Some(command),
            script: None,
            status: JobStatus::Pending,
            worker_id: None,
            created_at,
            started_at: None,
            completed_at: None,
            exit_code: None,
            build_millis: None,
        }
    }

    /// A Pending job with the given identity, creation time and script.
    pub fn with_script_at(
        id: u128,
        created_at: i64,
        customer_id: u128,
        script: String,
        source_type: SourceType,
        source_url: Option<String>,
    ) -> (job: Job)
        ensures
            job@ == JobView::fresh(
                id,
                created_at,
                customer_id,
                None,
                Some(script@),
                source_type,
                opt_view(source_url),
            ),
            job@.wf(),
    {
        Job {
            id,
            customer_id,
            source_type,
            source_url,
            command: None,
            script: Some(script),
            status: JobStatus::Pending,
            worker_id: None,
            created_at,
            started_at: None,
            completed_at: None,
            exit_code: None,
            build_millis: None,
        }
    }

    /// A new Pending job that runs a command. Its identity is freshly minted
    /// and its creation time read from the clock; everything else is given.
    #[must_use]
    pub fn with_command(
        customer_id: u128,
        command: String,
        source_type: SourceType,
        source_url: Option<String>,
    ) -> (job: Job)
        ensures
            job@ == JobView::fresh(
                job.id,
                job.created_at,
                customer_id,
                Some(command@),
                None,
                source_type,
                opt_view(source_url),
            ),
            job@.wf(),
            is_random_id(job.id),
            0 <= job.created_at,
    {
        let id = new_id();
        let now = now_micros();
        Job::with_command_at(id, now, customer_id, command, source_type, source_url)
    }

    /// A new Pending job that runs a script. Its identity is freshly minted
    /// and its creation time read from the clock; everything else is given.
    #[must_use]
    pub fn with_script(
        customer_id: u128,
        script: String,
        source_type: SourceType,
        source_url: Option<String>,
    ) -> (job: Job)
        ensures
            job@ == JobView::fresh(
                job.id,
                job.created_at,
                customer_id,
                None,
                Some(script@),
                source_type,
                opt_view(source_url),
            ),
            job@.wf(),
            is_random_id(job.id),
            0 <= job.created_at,
    {
        let id = new_id();
        let now = now_micros();
        Job::with_script_at(id, now, customer_id, script, source_type, source_url)
    }

    /// The text to execute: the command or, where there is none, the script.
    #[must_use]
    pub fn executable(&self) -> (work: Option<&str>)
        ensures
            match work {
                Some(w) => self@.executable() == Some(w@),
                None => self@.executable() is None,
            },
    {
        match &self.command {
            Some(c) => Some(c.as_str()),
            None => match &self.script {
                Some(s) => Some(s.as_str()),
                None => None,
            },
        }
    }

    /// Whether the record satisfies the invariants of a job.
    pub fn is_well_formed(&self) -> (ok: bool)
        ensures
            ok == self@.wf(),
    {
        let one_work = self.command.is_some() != self.script.is_some();
        let no_result = self.exit_code.is_none() && self.build_millis.is_none();
        let by_status = match self.status {
            JobStatus::Pending => self.worker_id.is_none() && self.started_at.is_none()
                && self.completed_at.is_none() && no_result,
            JobStatus::Running => self.worker_id.is_some() && self.started_at.is_some()
                && self.completed_at.is_none() && no_result,
            JobStatus::Completed => self.completed_at.is_some() && self.worker_id.is_some()
                && self.started_at.is_some() && self.build_millis.is_some() && match self.exit_code {
                Some(c) => c == 0,
                None => false,
            },
            JobStatus::Failed => self.completed_at.is_some() && self.worker_id.is_some()
                && self.started_at.is_some() && self.build_millis.is_some() && match self.exit_code {
                Some(c) => c != 0,
                None => false,
            },
            JobStatus::Cancelled => self.completed_at.is_some() && no_result,
        };
        one_work && by_status
    }

    /// Hands a Pending job to a worker: it becomes Running, assigned and
    /// started in one step. Any other job is left as it is.
    pub fn claim(&mut self, worker_id: u128, now: i64) -> (claimed: bool)
        ensures
            claimed == (old(self).status == JobStatus::Pending),
            claimed ==> final(self)@ == old(self)@.claimed(worker_id, now),
            !claimed ==> final(self)@ == old(self)@,
            old(self)@.wf() ==> final(self)@.wf(),
    {
        match self.status {
            JobStatus::Pending => {
                self.status = JobStatus::Running;
                self.worker_id = Some(worker_id);
                self.started_at = Some(now);
                true
            },
            _ => false,
        }
    }

    /// Records the end of a run on a Running job: Completed for exit code
    /// zero, Failed otherwise. Any other job is left as it is.
    pub fn finish(&mut self, exit_code: i32, build_millis: u64, now: i64) -> (applied: bool)
        ensures
            applied == (old(self).status == JobStatus::Running),
            applied ==> final(self)@ == old(self)@.finished(exit_code, build_millis, now),
            !applied ==> final(self)@ == old(self)@,
            old(self)@.wf() ==> final(self)@.wf(),
    {
        match self.status {
            JobStatus::Running => {
                self.status = if exit_code == 0 {
                    JobStatus::Completed
                } else {
                    JobStatus::Failed
                };
                self.completed_at = Some(now);
                self.exit_code = Some(exit_code);
                self.build_millis = Some(build_millis);
                true
            },
            _ => false,
        }
    }

    /// Cancels a Pending or Running job. A terminal job is left as it is.
    pub fn cancel(&mut self, now: i64) -> (applied: bool)
        ensures
            applied == !old(self).status.spec_is_terminal(),
            applied ==> final(self)@ == old(self)@.cancelled(now),
            !applied ==> final(self)@ == old(self)@,
            old(self)@.wf() ==> final(self)@.wf(),
    {
        match self.status {
            JobStatus::Pending | JobStatus::Running => {
                self.status = JobStatus::Cancelled;
                self.completed_at = Some(now);
                true
            },
            _ => false,
        }
    }

    /// The job that retries this one, under a new identity and creation
    /// time. Only a Failed or Cancelled job can be retried.
    pub fn retry(&self, new_id: u128, now: i64) -> (r: Result<Job, RetryError>)
        ensures
            match r {
                Ok(job) => self@.retryable() && self@.executable() is Some && job@
                    == self@.retried(new_id, now) && job@.wf(),
                Err(RetryError::InvalidState) => !self@.retryable(),
                Err(RetryError::NoWork) => self@.retryable() && self@.executable() is None,
            },
    {
        match self.status {
            JobStatus::Failed | JobStatus::Cancelled => {},
            _ => {
                return Err(RetryError::InvalidState);
            },
        }
        let source_url = clone_opt_string(&self.source_url);
        match &self.script {
            Some(script) => Ok(
                Job::with_script_at(
                    new_id,
                    now,
                    self.customer_id,
                    script.clone(),
                    self.source_type,
                    source_url,
                ),
            ),
            None => match &self.command {
                Some(command) => Ok(
                    Job::with_command_at(
                        new_id,
                        now,
                        self.customer_id,
                        command.clone(),
                        self.source_type,
                        source_url,
                    ),
                ),
                None => Err(RetryError::NoWork),
            },
        }
    }
}

impl Clone for Job {
    fn clone(&self) -> (r: Job)
        ensures
            r@ == self@,
    {
        Job {
            id: self.id,
            customer_id: self.customer_id,
            source_type: self.source_type,
            source_url: clone_opt_string(&self.source_url),
            command: clone_opt_string(&self.command),
            script: clone_opt_string(&self.script),
            status: self.status,
            worker_id: self.worker_id,
            created_at: self.created_at,
            started_at: self.started_at,
            completed_at: self.completed_at,
            exit_code: self.exit_code,
            build_millis: self.build_millis,
        }
    }
}

/// A request to create a job.
#[derive(Debug, Clone)]
pub struct CreateJobRequest {
    /// How the source is provided.
    pub source_type: SourceType,
    /// The git URL, or the download URL of an uploaded archive.
    pub source_url: Option<String>,
    /// The command to execute (this or `script`, not both).
    pub command: Option<String>,
    /// The script to execute (this or `command`, not both).
    pub script: Option<String>,
}

/// The answer to a request for an upload slot.
#[derive(Debug, Clone)]
pub struct UploadUrlResponse {
    /// Where the archive is to be uploaded.
    pub upload_url: String,
    /// Where the archive will be downloaded from.
    pub download_url: String,
    /// The job, created and waiting for its archive.
    pub job_id: u128,
    /// The token that authorises the upload.
    pub upload_token: String,
    /// Whether the archive exists already, so that the upload can be skipped.
    pub skip_upload: bool,
}

/// The answer to a request that created or started a job.
#[derive(Debug, Clone)]
pub struct CreateJobResponse {
    pub job_id: u128,
    pub status: JobStatus,
    pub stream_url: String,
}

/// Which output stream a log line came from.
#[derive(Debug, Clone, Copy, PartialEq, Eq, Structural)]
pub enum LogStream {
    Stdout,
    Stderr,
}

impl LogStream {
    /// The lower-case wire name of the stream.
    pub open spec fn spec_name(self) -> Seq<char> {
        match self {
            LogStream::Stdout => "stdout"@,
            LogStream::Stderr => "stderr"@,
        }
    }

    /// The lower-case wire name of the stream.
    pub fn name(&self) -> (r: &'static str)
        ensures
            r@ == self.spec_name(),
    {
        match self {
            LogStream::Stdout => "stdout",
            LogStream::Stderr => "stderr",
        }
    }
}

/// One line of output of a running job.
#[derive(Debug)]
pub struct LogEntry {
    pub job_id: u128,
    pub timestamp: i64,
    pub stream: LogStream,
    pub content: String,
}

/// The mathematical value of a [`LogEntry`].
pub ghost struct LogEntryView {
    pub job_id: u128,
    pub timestamp: i64,
    pub stream: LogStream,
    pub content: Seq<char>,
}

impl View for LogEntry {
    type V = LogEntryView;

    open spec fn view(&self) -> LogEntryView {
        LogEntryView {
            job_id: self.job_id,
            timestamp: self.timestamp,
            stream: self.stream,
            content: self.content@,
        }
    }
}

impl Clone for LogEntry {
    fn clone(&self) -> (r: LogEntry)
        ensures
            r@ == self@,
    {
        LogEntry {
            job_id: self.job_id,
            timestamp: self.timestamp,
            stream: self.stream,
            content: self.content.clone(),
        }
    }
}

/// Status of a worker.
#[derive(Debug, Clone, Copy, PartialEq, Eq, Structural)]
pub enum WorkerStatus {
    Online,
    Busy,
    Offline,
    Draining,
}

impl WorkerStatus {
    /// The lower-case name of the status.
    pub open spec fn spec_name(self) -> Seq<char> {
        match self {
            WorkerStatus::Online => "online"@,
            WorkerStatus::Busy => "busy"@,
            WorkerStatus::Offline => "offline"@,
            WorkerStatus::Draining => "draining"@,
        }
    }

    /// The lower-case name of the status.
    pub fn name(&self) -> (r: &'static str)
        ensures
            r@ == self.spec_name(),
    {
        match self {
            WorkerStatus::Online => "online",
            WorkerStatus::Busy => "busy",
            WorkerStatus::Offline => "offline",
            WorkerStatus::Draining => "draining",
        }
    }
}

/// A registered worker host.
#[derive(Debug)]
pub struct WorkerInfo {
    pub id: u128,
    pub hostname: String,
    pub capacity: u32,
    pub current_jobs: u32,
    pub last_heartbeat: i64,
    pub status: WorkerStatus,
}

/// The mathematical value of a [`WorkerInfo`].
pub ghost struct WorkerInfoView {
    pub id: u128,
    pub hostname: Seq<char>,
    pub capacity: u32,
    pub current_jobs: u32,
    pub last_heartbeat: i64,
    pub status: WorkerStatus,
}

impl View for WorkerInfo {
    type V = WorkerInfoView;

    open spec fn view(&self) -> WorkerInfoView {
        WorkerInfoView {
            id: self.id,
            hostname: self.hostname@,
            capacity: self.capacity,
            current_jobs: self.current_jobs,
            last_heartbeat: self.last_heartbeat,
            status: self.status,
        }
    }
}

impl Clone for WorkerInfo {
    fn clone(&self) -> (r: WorkerInfo)
        ensures
            r@ == self@,
    {
        WorkerInfo {
            id: self.id,
            hostname: self.hostname.clone(),
            capacity: self.capacity,
            current_jobs: self.current_jobs,
            last_heartbeat: self.last_heartbeat,
            status: self.status,
        }
    }
}

/// A worker's request for a job.
#[derive(Debug, Clone, Copy)]
pub struct ClaimJobRequest {
    pub worker_id: u128,
}

/// A file produced by a build.
#[derive(Debug)]
pub struct Artifact {
    pub name: String,
    pub path: String,
    pub size_bytes: u64,
    pub download_url: Option<String>,
}

/// The mathematical value of an [`Artifact`].
pub ghost struct ArtifactView {
    pub name: Seq<char>,
    pub path: Seq<char>,
    pub size_bytes: u64,
    pub download_url: Option<Seq<char>>,
}

impl View for Artifact {
    type V = ArtifactView;

    open spec fn view(&self) -> ArtifactView {
        ArtifactView {
            name: self.name@,
            path: self.path@,
            size_bytes: self.size_bytes,
            download_url: opt_view(self.download_url),
        }
    }
}

impl Clone for Artifact {
    fn clone(&self) -> (r: Artifact)
        ensures
            r@ == self@,
    {
        Artifact {
            name: self.name.clone(),
            path: self.path.clone(),
            size_bytes: self.size_bytes,
            download_url: clone_opt_string(&self.download_url),
        }
    }
}

/// The views of a vector of artifacts.
pub open spec fn artifact_views(artifacts: Seq<Artifact>) -> Seq<ArtifactView> {
    Seq::new(artifacts.len(), |i: int| artifacts[i]@)
}

/// A copy of a vector of artifacts.
pub fn clone_artifacts(artifacts: &Vec<Artifact>) -> (r: Vec<Artifact>)
    ensures
        artifact_views(r@) == artifact_views(artifacts@),
{
    let mut out: Vec<Artifact> = Vec::new();
    let mut i: usize = 0;
    while i < artifacts.len()
        invariant
            i <= artifacts.len(),
            out@.len() == i,
            forall|k: int| 0 <= k < i ==> (#[trigger] out@[k])@ == artifacts@[k]@,
        decreases artifacts.len() - i,
    {
        out.push(artifacts[i].clone());
        i += 1;
    }
    assert(artifact_views(out@) =~= artifact_views(artifacts@));
    out
}

/// What a worker reports when a run has ended. The build time is in
/// milliseconds.
#[derive(Debug)]
pub struct JobResult {
    pub job_id: u128,
    pub exit_code: i32,
    pub artifacts: Vec<Artifact>,
    pub build_millis: u64,
}

/// The mathematical value of a [`JobResult`].
pub ghost struct JobResultView {
    pub job_id: u128,
    pub exit_code: i32,
    pub artifacts: Seq<ArtifactView>,
    pub build_millis: u64,
}

impl View for JobResult {
    type V = JobResultView;

    open spec fn view(&self) -> JobResultView {
        JobResultView {
            job_id: self.job_id,
            exit_code: self.exit_code,
            artifacts: artifact_views(self.artifacts@),
            build_millis: self.build_millis,
        }
    }
}

impl Clone for JobResult {
    fn clone(&self) -> (r: JobResult)
        ensures
            r@ == self@,
    {
        JobResult {
            job_id: self.job_id,
            exit_code: self.exit_code,
            artifacts: clone_artifacts(&self.artifacts),
            build_millis: self.build_millis,
        }
    }
}

/// A worker's heartbeat.
#[derive(Debug, Clone, Copy)]
pub struct WorkerHeartbeat {
    pub worker_id: u128,
    pub current_jobs: u32,
    pub capacity: u32,
}

/// A worker's request to register. A worker that registered before
/// proposes the identifier it was given then.
#[derive(Debug, Clone)]
pub struct RegisterWorkerRequest {
    pub hostname: String,
    pub capacity: u32,
    pub worker_id: Option<u128>,
}

/// The answer to a registration.
#[derive(Debug, Clone)]
pub struct RegisterWorkerResponse {
    pub worker_id: u128,
    pub token: String,
}

/// One stored log line.
#[derive(Debug, Clone)]
pub struct JobLog {
    pub id: u128,
    pub job_id: u128,
    pub content: String,
    pub created_at: i64,
}

} // verus!
