//! The run of one job on a worker, as a state machine.
//!
//! The worker performs the action that the state asks for and hands back
//! the event that came of it. The machine decides what follows: fetch the
//! source, run the work, upload the log, list the artifacts, and release
//! the VM, which happens on every path that took one.

use vstd::prelude::*;
use crate::executor::{
    artifact_patterns, artifact_patterns_text, artifacts_in, build_millis, build_millis_between,
    collect_from_listing, exit_code_of, fetch_command, fetch_command_text, list_command,
    run_command, run_command_text, timeout_message, timeout_message_text,
};
use crate::models::{
    artifact_views, clone_artifacts, Artifact, ArtifactView, Job, JobResult, JobResultView,
    JobView,
};
use crate::text::{join2, lines_of};
use crate::worker_config::Config;

verus! {

/// Where the run of a job stands.
#[derive(Debug, Clone, Copy, PartialEq, Eq, Structural)]
pub enum Phase {
    /// The source is being brought into the VM.
    Fetching,
    /// The work is running.
    Running,
    /// The log file is being uploaded.
    UploadingLog,
    /// The artifacts of the pattern with this index are being listed.
    Listing(usize),
    /// The VM is being released.
    Releasing,
    /// The outcome is ready to be reported.
    Finished,
}

/// What came of the action that the worker performed.
#[derive(Debug)]
pub enum ExecEvent {
    /// The command ended with success and printed this.
    CommandSucceeded { stdout: String },
    /// The command ended without success and printed this to standard
    /// error.
    CommandFailed { stderr: String },
    /// The work ended, with or without an exit code.
    WorkExited { code: Option<i32> },
    /// The upload of the log file was attempted; whether it succeeded does
    /// not matter to the job.
    LogUploaded,
    /// The action could not be performed.
    IoError { message: String },
    /// The deadline of the job passed.
    DeadlineExpired,
    /// The VM was released.
    VmReleased,
}

/// The mathematical value of an [`ExecEvent`].
pub ghost enum ExecEventView {
    CommandSucceeded { stdout: Seq<char> },
    CommandFailed { stderr: Seq<char> },
    WorkExited { code: Option<i32> },
    LogUploaded,
    IoError { message: Seq<char> },
    DeadlineExpired,
    VmReleased,
}

impl View for ExecEvent {
    type V = ExecEventView;

    open spec fn view(&self) -> ExecEventView {
        match self {
            ExecEvent::CommandSucceeded { stdout } => ExecEventView::CommandSucceeded {
                stdout: stdout@,
            },
            ExecEvent::CommandFailed { stderr } => ExecEventView::CommandFailed {
                stderr: stderr@,
            },
            ExecEvent::WorkExited { code } => ExecEventView::WorkExited { code: *code },
            ExecEvent::LogUploaded => ExecEventView::LogUploaded,
            ExecEvent::IoError { message } => ExecEventView::IoError { message: message@ },
            ExecEvent::DeadlineExpired => ExecEventView::DeadlineExpired,
            ExecEvent::VmReleased => ExecEventView::VmReleased,
        }
    }
}

/// What the worker is to do next.
#[derive(Debug)]
pub enum ExecAction {
    /// Run this command in the VM to bring the source in.
    FetchSource { command: String },
    /// Run this command in the VM, with a terminal, and tee its output to
    /// the log file and to the orchestrator.
    RunWork { command: String },
    /// Upload the log file.
    UploadLog,
    /// Run this command in the VM to list artifacts.
    ListArtifacts { command: String },
    /// Release the VM in this slot.
    ReleaseVm { slot: usize },
    /// Report this outcome; the run is over.
    Report { outcome: Result<JobResult, String> },
}

/// The mathematical value of an outcome.
pub ghost enum OutcomeView {
    Success(JobResultView),
    Failure(Seq<char>),
}

/// The mathematical value of an [`ExecAction`].
pub ghost enum ExecActionView {
    FetchSource { command: Seq<char> },
    RunWork { command: Seq<char> },
    UploadLog,
    ListArtifacts { command: Seq<char> },
    ReleaseVm { slot: usize },
    Report { outcome: OutcomeView },
}

/// The view of an outcome.
pub open spec fn outcome_view(outcome: Result<JobResult, String>) -> OutcomeView {
    match outcome {
        Ok(result) => OutcomeView::Success(result@),
        Err(message) => OutcomeView::Failure(message@),
    }
}

impl View for ExecAction {
    type V = ExecActionView;

    open spec fn view(&self) -> ExecActionView {
        match self {
            ExecAction::FetchSource { command } => ExecActionView::FetchSource {
                command: command@,
            },
            ExecAction::RunWork { command } => ExecActionView::RunWork { command: command@ },
            ExecAction::UploadLog => ExecActionView::UploadLog,
            ExecAction::ListArtifacts { command } => ExecActionView::ListArtifacts {
                command: command@,
            },
            ExecAction::ReleaseVm { slot } => ExecActionView::ReleaseVm { slot: *slot },
            ExecAction::Report { outcome } => ExecActionView::Report {
                outcome: outcome_view(*outcome),
            },
        }
    }
}

/// The mathematical value of a run.
pub ghost struct ExecView {
    pub job: JobView,
    /// The slot of the VM; `None` where the pool had none to give.
    pub slot: Option<usize>,
    pub timeout_minutes: u64,
    pub started_at: i64,
    pub phase: Phase,
    pub exit_code: i32,
    pub artifacts: Seq<ArtifactView>,
    pub outcome: Option<OutcomeView>,
}

impl ExecView {
    /// The run with this failure as its outcome, about to release its VM.
    pub open spec fn failed(self, message: Seq<char>) -> ExecView {
        ExecView {
            phase: Phase::Releasing,
            outcome: Some(OutcomeView::Failure(message)),
            ..self
        }
    }

    /// The run after the listing of pattern `k` added `found`: on to the
    /// next pattern, or, after the last, to the release of the VM with the
    /// result of the job as the outcome.
    pub open spec fn listed(self, k: usize, found: Seq<ArtifactView>, now: i64) -> ExecView {
        if k + 1 < artifact_patterns_text().len() {
            ExecView {
                phase: Phase::Listing((k + 1) as usize),
                artifacts: self.artifacts + found,
                ..self
            }
        } else {
            ExecView {
                phase: Phase::Releasing,
                artifacts: self.artifacts + found,
                outcome: Some(
                    OutcomeView::Success(
                        JobResultView {
                            job_id: self.job.id,
                            exit_code: self.exit_code,
                            artifacts: self.artifacts + found,
                            build_millis: build_millis_between(self.started_at, now),
                        },
                    ),
                ),
                ..self
            }
        }
    }

    /// The run as it begins: with the source to fetch, or, where the pool
    /// had no VM or the job has no source URL, with its failure.
    pub open spec fn begun(job: JobView, slot: Option<usize>, timeout_minutes: u64, now: i64) -> ExecView {
        let base = ExecView {
            job,
            slot,
            timeout_minutes,
            started_at: now,
            phase: Phase::Fetching,
            exit_code: -1i32,
            artifacts: Seq::empty(),
            outcome: None,
        };
        if slot is None {
            ExecView {
                phase: Phase::Finished,
                outcome: Some(OutcomeView::Failure("No VMs available in pool"@)),
                ..base
            }
        } else if job.source_url is None {
            base.failed("No source URL provided"@)
        } else {
            base
        }
    }

    /// The run after an event.
    pub open spec fn after(self, event: ExecEventView, now: i64) -> ExecView {
        match self.phase {
            Phase::Finished => self,
            Phase::Releasing => match event {
                ExecEventView::VmReleased => ExecView { phase: Phase::Finished, ..self },
                _ => self,
            },
            _ => match event {
                ExecEventView::DeadlineExpired => self.failed(
                    timeout_message_text(self.timeout_minutes),
                ),
                ExecEventView::IoError { message } => self.failed(message),
                _ => match self.phase {
                    Phase::Fetching => match event {
                        ExecEventView::CommandSucceeded { stdout } => if self.job.executable()
                            is Some {
                            ExecView { phase: Phase::Running, ..self }
                        } else {
                            self.failed("Job has no command or script"@)
                        },
                        ExecEventView::CommandFailed { stderr } => self.failed(
                            "Failed to fetch source: "@ + stderr,
                        ),
                        _ => self,
                    },
                    Phase::Running => match event {
                        ExecEventView::WorkExited { code } => ExecView {
                            phase: Phase::UploadingLog,
                            exit_code: match code {
                                Some(c) => c,
                                None => -1i32,
                            },
                            ..self
                        },
                        _ => self,
                    },
                    Phase::UploadingLog => match event {
                        ExecEventView::LogUploaded => ExecView {
                            phase: Phase::Listing(0),
                            ..self
                        },
                        _ => self,
                    },
                    Phase::Listing(k) => match event {
                        ExecEventView::CommandSucceeded { stdout } => self.listed(
                            k,
                            artifacts_in(lines_of(stdout), artifact_patterns_text()[k as int]),
                            now,
                        ),
                        ExecEventView::CommandFailed { stderr } => self.listed(
                            k,
                            Seq::empty(),
                            now,
                        ),
                        _ => self,
                    },
                    _ => self,
                },
            },
        }
    }

    /// What the worker is to do in this state.
    pub open spec fn action(self) -> ExecActionView {
        match self.phase {
            Phase::Fetching => ExecActionView::FetchSource {
                command: fetch_command_text(self.job.source_type, self.job.source_url->0),
            },
            Phase::Running => ExecActionView::RunWork { command: run_command_text(self.job) },
            Phase::UploadingLog => ExecActionView::UploadLog,
            Phase::Listing(k) => ExecActionView::ListArtifacts {
                command: "ls -la "@ + artifact_patterns_text()[k as int] + " 2>/dev/null || true"@,
            },
            Phase::Releasing => ExecActionView::ReleaseVm { slot: self.slot->0 },
            Phase::Finished => ExecActionView::Report { outcome: self.outcome->0 },
        }
    }

    /// The invariant of a run: what each phase relies on.
    pub open spec fn wf(self) -> bool {
        &&& self.phase == Phase::Fetching ==> self.job.source_url is Some
        &&& self.phase == Phase::Running ==> self.job.executable() is Some
        &&& self.phase matches Phase::Listing(k) ==> k < artifact_patterns_text().len()
        &&& (self.phase == Phase::Releasing || self.phase == Phase::Finished) <==> self.outcome
            is Some
        &&& self.phase != Phase::Finished ==> self.slot is Some
    }
}

/// The run of one job.
pub struct Execution {
    job: Job,
    slot: Option<usize>,
    timeout_minutes: u64,
    started_at: i64,
    phase: Phase,
    exit_code: i32,
    artifacts: Vec<Artifact>,
    outcome: Option<Result<JobResult, String>>,
}

/// The view of an optional outcome.
pub open spec fn opt_outcome_view(outcome: Option<Result<JobResult, String>>) -> Option<
    OutcomeView,
> {
    match outcome {
        Some(o) => Some(outcome_view(o)),
        None => None,
    }
}

impl View for Execution {
    type V = ExecView;

    closed spec fn view(&self) -> ExecView {
        ExecView {
            job: self.job@,
            slot: self.slot,
            timeout_minutes: self.timeout_minutes,
            started_at: self.started_at,
            phase: self.phase,
            exit_code: self.exit_code,
            artifacts: artifact_views(self.artifacts@),
            outcome: opt_outcome_view(self.outcome),
        }
    }
}

impl Execution {
    /// Begins the run of a job in the VM of `slot`, the answer of the
    /// pool's acquire; with the deadline `timeout_minutes`, at time `now`.
    pub fn begin(job: &Job, slot: Option<usize>, timeout_minutes: u64, now: i64) -> (run: Execution)
        ensures
            run@ == ExecView::begun(job@, slot, timeout_minutes, now),
            run@.wf(),
    {
        let mut run = Execution {
            job: job.clone(),
            slot,
            timeout_minutes,
            started_at: now,
            phase: Phase::Fetching,
            exit_code: -1,
            artifacts: Vec::new(),
            outcome: None,
        };
        assert(artifact_views(run.artifacts@) =~= Seq::<ArtifactView>::empty());
        if slot.is_none() {
            run.phase = Phase::Finished;
            run.outcome = Some(Err(String::from_str("No VMs available in pool")));
        } else if job.source_url.is_none() {
            run.phase = Phase::Releasing;
            run.outcome = Some(Err(String::from_str("No source URL provided")));
        }
        run
    }

    /// Where the run stands.
    pub fn phase(&self) -> (phase: Phase)
        ensures
            phase == self@.phase,
    {
        self.phase
    }

    /// Whether the outcome is ready to be reported.
    pub fn is_finished(&self) -> (done: bool)
        ensures
            done == (self@.phase == Phase::Finished),
    {
        match self.phase {
            Phase::Finished => true,
            _ => false,
        }
    }

    fn fail(&mut self, message: String)
        ensures
            final(self)@ == old(self)@.failed(message@),
    {
        self.phase = Phase::Releasing;
        self.outcome = Some(Err(message));
    }

    fn add_listing(&mut self, k: usize, listing: Option<&str>, now: i64)
        requires
            k < 3,
        ensures
            final(self)@ == old(self)@.listed(
                k,
                match listing {
                    Some(text) => artifacts_in(lines_of(text@), artifact_patterns_text()[k as int]),
                    None => Seq::empty(),
                },
                now,
            ),
    {
        let ghost before = artifact_views(self.artifacts@);
        match listing {
            Some(text) => {
                let patterns = artifact_patterns();
                collect_from_listing(&mut self.artifacts, text, patterns[k]);
            },
            None => {
                assert(before + Seq::<ArtifactView>::empty() =~= before);
            },
        }
        if k + 1 < 3 {
            self.phase = Phase::Listing(k + 1);
        } else {
            self.phase = Phase::Releasing;
            self.outcome = Some(
                Ok(
                    JobResult {
                        job_id: self.job.id,
                        exit_code: self.exit_code,
                        artifacts: clone_artifacts(&self.artifacts),
                        build_millis: build_millis(self.started_at, now),
                    },
                ),
            );
        }
    }

    /// Takes the event that came of the last action, at time `now`, and
    /// moves the run on.
    pub fn handle(&mut self, event: ExecEvent, now: i64)
        requires
            old(self)@.wf(),
        ensures
            final(self)@ == old(self)@.after(event@, now),
            final(self)@.wf(),
    {
        match self.phase {
            Phase::Finished => {
                return ;
            },
            Phase::Releasing => {
                match event {
                    ExecEvent::VmReleased => {
                        self.phase = Phase::Finished;
                    },
                    _ => {},
                }
                return ;
            },
            _ => {},
        }
        match event {
            ExecEvent::DeadlineExpired => {
                self.fail(timeout_message(self.timeout_minutes));
            },
            ExecEvent::IoError { message } => {
                self.fail(message);
            },
            ExecEvent::CommandSucceeded { stdout } => {
                match self.phase {
                    Phase::Fetching => {
                        if self.job.executable().is_some() {
                            self.phase = Phase::Running;
                        } else {
                            self.fail(String::from_str("Job has no command or script"));
                        }
                    },
                    Phase::Listing(k) => {
                        self.add_listing(k, Some(stdout.as_str()), now);
                    },
                    _ => {},
                }
            },
            ExecEvent::CommandFailed { stderr } => {
                match self.phase {
                    Phase::Fetching => {
                        self.fail(join2("Failed to fetch source: ", stderr.as_str()));
                    },
                    Phase::Listing(k) => {
                        self.add_listing(k, None, now);
                    },
                    _ => {},
                }
            },
            ExecEvent::WorkExited { code } => {
                match self.phase {
                    Phase::Running => {
                        self.exit_code = exit_code_of(code);
                        self.phase = Phase::UploadingLog;
                    },
                    _ => {},
                }
            },
            ExecEvent::LogUploaded => {
                match self.phase {
                    Phase::UploadingLog => {
                        self.phase = Phase::Listing(0);
                    },
                    _ => {},
                }
            },
            ExecEvent::VmReleased => {},
        }
    }

    /// What the worker is to do next.
    pub fn next_action(&self) -> (action: ExecAction)
        requires
            self@.wf(),
        ensures
            action@ == self@.action(),
    {
        match self.phase {
            Phase::Fetching => match fetch_command(&self.job) {
                Some(command) => ExecAction::FetchSource { command },
                None => unreached(),
            },
            Phase::Running => match run_command(&self.job) {
                Some(command) => ExecAction::RunWork { command },
                None => unreached(),
            },
            Phase::UploadingLog => ExecAction::UploadLog,
            Phase::Listing(k) => {
                let patterns = artifact_patterns();
                ExecAction::ListArtifacts { command: list_command(patterns[k]) }
            },
            Phase::Releasing => match self.slot {
                Some(slot) => ExecAction::ReleaseVm { slot },
                None => unreached(),
            },
            Phase::Finished => match &self.outcome {
                Some(Ok(result)) => ExecAction::Report { outcome: Ok(result.clone()) },
                Some(Err(message)) => ExecAction::Report { outcome: Err(message.clone()) },
                None => unreached(),
            },
        }
    }
}

/// Runs jobs for one worker.
pub struct JobExecutor {
    pub worker_id: u128,
    pub config: Config,
}

impl JobExecutor {
    /// An executor for the worker with this identifier and configuration.
    pub fn new(worker_id: u128, config: Config) -> (executor: JobExecutor)
        ensures
            executor.worker_id == worker_id,
            executor.config == config,
    {
        JobExecutor { worker_id, config }
    }

    /// Begins the run of a job in the VM of `slot`, the answer of the
    /// pool's acquire, under the deadline of the configuration. The run is
    /// then driven by performing [`Execution::next_action`] and handing the
    /// result to [`Execution::handle`] until it is finished.
    pub fn execute(&self, job: &Job, slot: Option<usize>, now: i64) -> (run: Execution)
        ensures
            run@ == ExecView::begun(job@, slot, self.config.job_timeout_minutes, now),
            run@.wf(),
    {
        Execution::begin(job, slot, self.config.job_timeout_minutes, now)
    }
}

/// The run after a sequence of events, each with the time at which it was
/// handled.
pub open spec fn exec_run(start: ExecView, events: Seq<(ExecEventView, i64)>) -> ExecView
    decreases events.len(),
{
    if events.len() == 0 {
        start
    } else {
        exec_run(start, events.drop_last()).after(events.last().0, events.last().1)
    }
}

/// Every event keeps the invariant of the run, and an outcome, once it is
/// set, is never changed.
pub proof fn lemma_after_wf(run: ExecView, event: ExecEventView, now: i64)
    requires
        run.wf(),
    ensures
        run.after(event, now).wf(),
        run.outcome is Some ==> run.after(event, now).outcome == run.outcome,
        run.after(event, now).phase == Phase::Finished ==> run.phase == Phase::Finished || (
        run.phase == Phase::Releasing && event is VmReleased),
        run.after(event, now).slot == run.slot,
{
}

/// The invariant of a run holds after every sequence of events.
pub proof fn law_run_stays_well_formed(start: ExecView, events: Seq<(ExecEventView, i64)>)
    requires
        start.wf(),
    ensures
        exec_run(start, events).wf(),
        exec_run(start, events).slot == start.slot,
    decreases events.len(),
{
    if events.len() > 0 {
        law_run_stays_well_formed(start, events.drop_last());
        lemma_after_wf(exec_run(start, events.drop_last()), events.last().0, events.last().1);
    }
}

/// The VM is always released: whatever happens in a run that took a VM, be
/// it success, failure or the deadline, the outcome is reported only after
/// the release of the VM was asked for and confirmed.
pub proof fn law_report_follows_release(start: ExecView, events: Seq<(ExecEventView, i64)>)
    requires
        start.wf(),
        start.phase != Phase::Finished,
        exec_run(start, events).phase == Phase::Finished,
    ensures
        exists|j: int|
            0 <= j < events.len() && events[j].0 is VmReleased && exec_run(
                start,
                events.take(j),
            ).phase == Phase::Releasing && exec_run(start, events.take(j)).action()
                == (ExecActionView::ReleaseVm { slot: start.slot->0 }),
    decreases events.len(),
{
    if events.len() > 0 {
        let before = exec_run(start, events.drop_last());
        law_run_stays_well_formed(start, events.drop_last());
        lemma_after_wf(before, events.last().0, events.last().1);
        if before.phase == Phase::Finished {
            law_report_follows_release(start, events.drop_last());
            let j = choose|j: int|
                0 <= j < events.drop_last().len() && events.drop_last()[j].0 is VmReleased
                    && exec_run(start, events.drop_last().take(j)).phase == Phase::Releasing
                    && exec_run(start, events.drop_last().take(j)).action()
                    == (ExecActionView::ReleaseVm { slot: start.slot->0 });
            assert(events.drop_last().take(j) =~= events.take(j));
            assert(events[j] == events.drop_last()[j]);
        } else {
            let j = events.len() - 1;
            assert(events.take(j) =~= events.drop_last());
        }
    }
}

/// The deadline ends the run: in every phase before the release, the
/// expiry of the deadline makes the job fail with the message that names
/// the timeout, and sends the run to the release of its VM.
pub proof fn law_deadline_fails_the_job(run: ExecView, now: i64)
    requires
        run.wf(),
        run.phase != Phase::Releasing,
        run.phase != Phase::Finished,
    ensures
        run.after(ExecEventView::DeadlineExpired, now).phase == Phase::Releasing,
        run.after(ExecEventView::DeadlineExpired, now).outcome == Some(
            OutcomeView::Failure(timeout_message_text(run.timeout_minutes)),
        ),
        run.after(ExecEventView::DeadlineExpired, now).action() == (ExecActionView::ReleaseVm {
            slot: run.slot->0,
        }),
{
}

} // verus!
