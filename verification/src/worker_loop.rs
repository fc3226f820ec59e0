//! The control loop of a worker, as a state machine.
//!
//! The worker performs the action that the machine asks for and hands back
//! the event that came of it, together with the shutdown flag, which the
//! machine observes only between iterations: a job that was claimed is
//! always run and reported before the worker stops.

use vstd::prelude::*;
use crate::executor::{build_millis, build_millis_between, worker_failure_message};
use crate::ids::{format_id, hex_digits, id_text, nibble, parse_id, parsed_id};
use crate::models::{
    artifact_views, Artifact, ArtifactView, Job, JobResult, JobResultView, JobView, LogEntry,
    LogEntryView, LogStream,
};
use crate::text::{is_space, join2, trim, trimmed};

verus! {

/// Seconds to sleep when no job was pending.
pub const IDLE_SLEEP_SECONDS: u64 = 5;

/// Seconds to sleep when the claim failed.
pub const ERROR_SLEEP_SECONDS: u64 = 10;

/// Where the loop stands.
#[derive(Debug, Clone, Copy, PartialEq, Eq, Structural)]
pub enum LoopPhase {
    /// Between iterations.
    Idle,
    /// A heartbeat is being sent.
    Heartbeating,
    /// A claim is being made.
    Claiming,
    /// The claimed job is running.
    Executing { job_id: u128, started_at: i64 },
    /// The log line of a failed run is being pushed.
    ReportingFailure { job_id: u128, build_millis: u64 },
    /// The completion of the job is being reported.
    Completing,
    /// The loop sleeps before the next iteration.
    Sleeping,
    /// The worker is deregistering.
    Deregistering,
    /// The VM pool is being torn down.
    StoppingPool,
    /// The loop has ended.
    Stopped,
}

/// The state of the loop.
#[derive(Debug, Clone, Copy, PartialEq, Eq, Structural)]
pub struct WorkerLoop {
    pub worker_id: u128,
    pub capacity: u32,
    pub phase: LoopPhase,
}

/// What came of the action that the worker performed.
#[derive(Debug)]
pub enum LoopEvent {
    /// The loop starts.
    Started,
    /// The heartbeat was sent, or failed, which is only logged.
    HeartbeatDone,
    /// The claim was answered, with a job or without.
    Claimed { job: Option<Job> },
    /// The claim failed.
    ClaimFailed,
    /// The run of the job ended with this outcome.
    Executed { outcome: Result<JobResult, String> },
    /// The log line was pushed, or failed, which is only logged.
    LogPushed,
    /// The completion was reported, or failed, which is only logged.
    CompletionReported,
    /// The sleep is over.
    Woke,
    /// The worker deregistered, or failed to, which is only logged.
    Deregistered,
    /// The VM pool is torn down.
    PoolStopped,
}

/// The mathematical value of a [`LoopEvent`].
pub ghost enum LoopEventView {
    Started,
    HeartbeatDone,
    Claimed { job: Option<JobView> },
    ClaimFailed,
    ExecutedOk { result: JobResultView },
    ExecutedErr { message: Seq<char> },
    LogPushed,
    CompletionReported,
    Woke,
    Deregistered,
    PoolStopped,
}

impl View for LoopEvent {
    type V = LoopEventView;

    open spec fn view(&self) -> LoopEventView {
        match self {
            LoopEvent::Started => LoopEventView::Started,
            LoopEvent::HeartbeatDone => LoopEventView::HeartbeatDone,
            LoopEvent::Claimed { job } => LoopEventView::Claimed {
                job: match job {
                    Some(j) => Some(j@),
                    None => None,
                },
            },
            LoopEvent::ClaimFailed => LoopEventView::ClaimFailed,
            LoopEvent::Executed { outcome } => match outcome {
                Ok(result) => LoopEventView::ExecutedOk { result: result@ },
                Err(message) => LoopEventView::ExecutedErr { message: message@ },
            },
            LoopEvent::LogPushed => LoopEventView::LogPushed,
            LoopEvent::CompletionReported => LoopEventView::CompletionReported,
            LoopEvent::Woke => LoopEventView::Woke,
            LoopEvent::Deregistered => LoopEventView::Deregistered,
            LoopEvent::PoolStopped => LoopEventView::PoolStopped,
        }
    }
}

/// What the worker is to do next.
#[derive(Debug)]
pub enum LoopAction {
    /// Send a heartbeat.
    Heartbeat { worker_id: u128, current_jobs: u32, capacity: u32 },
    /// Ask for a job.
    Claim { worker_id: u128 },
    /// Run this job.
    Execute { job: Job },
    /// Push this log entry.
    PushLog { entry: LogEntry },
    /// Report this result.
    Complete { worker_id: u128, result: JobResult },
    /// Sleep for this many seconds.
    Sleep { seconds: u64 },
    /// Deregister from the orchestrator.
    Deregister { worker_id: u128 },
    /// Tear down the VM pool.
    StopPool,
    /// Leave the loop.
    Exit,
    /// Wait for the event of the action that is under way.
    Wait,
}

/// The mathematical value of a [`LoopAction`].
pub ghost enum LoopActionView {
    Heartbeat { worker_id: u128, current_jobs: u32, capacity: u32 },
    Claim { worker_id: u128 },
    Execute { job: JobView },
    PushLog { entry: LogEntryView },
    Complete { worker_id: u128, result: JobResultView },
    Sleep { seconds: u64 },
    Deregister { worker_id: u128 },
    StopPool,
    Exit,
    Wait,
}

impl View for LoopAction {
    type V = LoopActionView;

    open spec fn view(&self) -> LoopActionView {
        match self {
            LoopAction::Heartbeat { worker_id, current_jobs, capacity } => LoopActionView::Heartbeat {
                worker_id: *worker_id,
                current_jobs: *current_jobs,
                capacity: *capacity,
            },
            LoopAction::Claim { worker_id } => LoopActionView::Claim { worker_id: *worker_id },
            LoopAction::Execute { job } => LoopActionView::Execute { job: job@ },
            LoopAction::PushLog { entry } => LoopActionView::PushLog { entry: entry@ },
            LoopAction::Complete { worker_id, result } => LoopActionView::Complete {
                worker_id: *worker_id,
                result: result@,
            },
            LoopAction::Sleep { seconds } => LoopActionView::Sleep { seconds: *seconds },
            LoopAction::Deregister { worker_id } => LoopActionView::Deregister {
                worker_id: *worker_id,
            },
            LoopAction::StopPool => LoopActionView::StopPool,
            LoopAction::Exit => LoopActionView::Exit,
            LoopAction::Wait => LoopActionView::Wait,
        }
    }
}

/// The result reported for a job whose run failed on the worker.
pub open spec fn failure_result(job_id: u128, build_millis: u64) -> JobResultView {
    JobResultView { job_id, exit_code: -1i32, artifacts: Seq::empty(), build_millis }
}

/// The log entry pushed for a job whose run failed on the worker.
pub open spec fn failure_entry(job_id: u128, message: Seq<char>, now: i64) -> LogEntryView {
    LogEntryView {
        job_id,
        timestamp: now,
        stream: LogStream::Stderr,
        content: "Job execution failed on worker: "@ + message,
    }
}

impl WorkerLoop {
    /// The loop with this phase.
    pub open spec fn at(self, phase: LoopPhase) -> WorkerLoop {
        WorkerLoop { phase, ..self }
    }

    /// The beginning of an iteration: with the shutdown flag set the
    /// worker deregisters; otherwise it sends its heartbeat.
    pub open spec fn iteration(self, shutdown: bool) -> (WorkerLoop, LoopActionView) {
        if shutdown {
            (
                self.at(LoopPhase::Deregistering),
                LoopActionView::Deregister { worker_id: self.worker_id },
            )
        } else {
            (
                self.at(LoopPhase::Heartbeating),
                LoopActionView::Heartbeat {
                    worker_id: self.worker_id,
                    current_jobs: 0,
                    capacity: self.capacity,
                },
            )
        }
    }

    /// The state and the action that follow an event. The shutdown flag is
    /// looked at only where an iteration begins. An event that the phase
    /// does not wait for changes nothing.
    pub open spec fn next(self, event: LoopEventView, shutdown: bool, now: i64) -> (
        WorkerLoop,
        LoopActionView,
    ) {
        match (self.phase, event) {
            (LoopPhase::Idle, LoopEventView::Started) => self.iteration(shutdown),
            (LoopPhase::Heartbeating, LoopEventView::HeartbeatDone) => (
                self.at(LoopPhase::Claiming),
                LoopActionView::Claim { worker_id: self.worker_id },
            ),
            (LoopPhase::Claiming, LoopEventView::Claimed { job: Some(job) }) => (
                self.at(LoopPhase::Executing { job_id: job.id, started_at: now }),
                LoopActionView::Execute { job },
            ),
            (LoopPhase::Claiming, LoopEventView::Claimed { job: None }) => (
                self.at(LoopPhase::Sleeping),
                LoopActionView::Sleep { seconds: 5 },
            ),
            (LoopPhase::Claiming, LoopEventView::ClaimFailed) => (
                self.at(LoopPhase::Sleeping),
                LoopActionView::Sleep { seconds: 10 },
            ),
            (LoopPhase::Executing { job_id, started_at }, LoopEventView::ExecutedOk { result }) => (
                self.at(LoopPhase::Completing),
                LoopActionView::Complete {
                    worker_id: self.worker_id,
                    result: JobResultView { job_id, ..result },
                },
            ),
            (
                LoopPhase::Executing { job_id, started_at },
                LoopEventView::ExecutedErr { message },
            ) => (
                self.at(
                    LoopPhase::ReportingFailure {
                        job_id,
                        build_millis: build_millis_between(started_at, now),
                    },
                ),
                LoopActionView::PushLog { entry: failure_entry(job_id, message, now) },
            ),
            (LoopPhase::ReportingFailure { job_id, build_millis }, LoopEventView::LogPushed) => (
                self.at(LoopPhase::Completing),
                LoopActionView::Complete {
                    worker_id: self.worker_id,
                    result: failure_result(job_id, build_millis),
                },
            ),
            (LoopPhase::Completing, LoopEventView::CompletionReported) => self.iteration(shutdown),
            (LoopPhase::Sleeping, LoopEventView::Woke) => self.iteration(shutdown),
            (LoopPhase::Deregistering, LoopEventView::Deregistered) => (
                self.at(LoopPhase::StoppingPool),
                LoopActionView::StopPool,
            ),
            (LoopPhase::StoppingPool, LoopEventView::PoolStopped) => (
                self.at(LoopPhase::Stopped),
                LoopActionView::Exit,
            ),
            (LoopPhase::Stopped, _) => (self, LoopActionView::Exit),
            _ => (self, LoopActionView::Wait),
        }
    }

    /// The loop of a registered worker, before its first iteration.
    pub fn new(worker_id: u128, capacity: u32) -> (state: WorkerLoop)
        ensures
            state == (WorkerLoop { worker_id, capacity, phase: LoopPhase::Idle }),
    {
        WorkerLoop { worker_id, capacity, phase: LoopPhase::Idle }
    }

    fn begin_iteration(&mut self, shutdown: bool) -> (action: LoopAction)
        ensures
            (*final(self), action@) == old(self).iteration(shutdown),
    {
        if shutdown {
            self.phase = LoopPhase::Deregistering;
            LoopAction::Deregister { worker_id: self.worker_id }
        } else {
            self.phase = LoopPhase::Heartbeating;
            LoopAction::Heartbeat {
                worker_id: self.worker_id,
                current_jobs: 0,
                capacity: self.capacity,
            }
        }
    }

    /// Takes the event that came of the last action, with the shutdown flag
    /// as it stands and the time, and says what to do next.
    pub fn step(&mut self, event: LoopEvent, shutdown: bool, now: i64) -> (action: LoopAction)
        ensures
            (*final(self), action@) == old(self).next(event@, shutdown, now),
    {
        match self.phase {
            LoopPhase::Idle => match event {
                LoopEvent::Started => self.begin_iteration(shutdown),
                _ => LoopAction::Wait,
            },
            LoopPhase::Heartbeating => match event {
                LoopEvent::HeartbeatDone => {
                    self.phase = LoopPhase::Claiming;
                    LoopAction::Claim { worker_id: self.worker_id }
                },
                _ => LoopAction::Wait,
            },
            LoopPhase::Claiming => match event {
                LoopEvent::Claimed { job: Some(job) } => {
                    self.phase = LoopPhase::Executing { job_id: job.id, started_at: now };
                    LoopAction::Execute { job }
                },
                LoopEvent::Claimed { job: None } => {
                    self.phase = LoopPhase::Sleeping;
                    LoopAction::Sleep { seconds: IDLE_SLEEP_SECONDS }
                },
                LoopEvent::ClaimFailed => {
                    self.phase = LoopPhase::Sleeping;
                    LoopAction::Sleep { seconds: ERROR_SLEEP_SECONDS }
                },
                _ => LoopAction::Wait,
            },
            LoopPhase::Executing { job_id, started_at } => match event {
                LoopEvent::Executed { outcome: Ok(result) } => {
                    self.phase = LoopPhase::Completing;
                    let mut result = result;
                    result.job_id = job_id;
                    LoopAction::Complete { worker_id: self.worker_id, result }
                },
                LoopEvent::Executed { outcome: Err(message) } => {
                    self.phase = LoopPhase::ReportingFailure {
                        job_id,
                        build_millis: build_millis(started_at, now),
                    };
                    LoopAction::PushLog {
                        entry: LogEntry {
                            job_id,
                            timestamp: now,
                            stream: LogStream::Stderr,
                            content: worker_failure_message(message.as_str()),
                        },
                    }
                },
                _ => LoopAction::Wait,
            },
            LoopPhase::ReportingFailure { job_id, build_millis } => match event {
                LoopEvent::LogPushed => {
                    self.phase = LoopPhase::Completing;
                    let artifacts: Vec<Artifact> = Vec::new();
                    assert(artifact_views(artifacts@) =~= Seq::<ArtifactView>::empty());
                    LoopAction::Complete {
                        worker_id: self.worker_id,
                        result: JobResult { job_id, exit_code: -1, artifacts, build_millis },
                    }
                },
                _ => LoopAction::Wait,
            },
            LoopPhase::Completing => match event {
                LoopEvent::CompletionReported => self.begin_iteration(shutdown),
                _ => LoopAction::Wait,
            },
            LoopPhase::Sleeping => match event {
                LoopEvent::Woke => self.begin_iteration(shutdown),
                _ => LoopAction::Wait,
            },
            LoopPhase::Deregistering => match event {
                LoopEvent::Deregistered => {
                    self.phase = LoopPhase::StoppingPool;
                    LoopAction::StopPool
                },
                _ => LoopAction::Wait,
            },
            LoopPhase::StoppingPool => match event {
                LoopEvent::PoolStopped => {
                    self.phase = LoopPhase::Stopped;
                    LoopAction::Exit
                },
                _ => LoopAction::Wait,
            },
            LoopPhase::Stopped => LoopAction::Exit,
        }
    }
}

/// The identifier that the worker's identity file holds: the file's
/// content, without the white space around it, read as an identifier.
pub fn stored_worker_id(content: &str) -> (id: Option<u128>)
    ensures
        id == parsed_id(trimmed(content@)),
{
    let text = trim(content);
    parse_id(text.as_str())
}

/// The content of the worker's identity file: the identifier and a line
/// feed. Read back by [`stored_worker_id`] it gives the identifier again,
/// so that a worker keeps its identity across restarts.
pub fn worker_id_file(id: u128) -> (content: String)
    ensures
        content@ == id_text(id) + "\n"@,
        parsed_id(trimmed(content@)) == Some(id),
{
    let text = format_id(id);
    let content = join2(text.as_str(), "\n");
    proof {
        reveal_strlit("\n");
        let t = id_text(id);
        let whole = content@;
        assert(whole =~= t.push('\n'));
        assert(forall|k: int| 0 <= k < 16 ==> !is_space(#[trigger] hex_digits()[k]));
        assert(t[0] == hex_digits()[nibble(id, 0)]);
        assert(t[35] == hex_digits()[nibble(id, 31)]);
        assert(whole.drop_last() =~= t);
        assert(trimmed(whole) == trimmed(t));
        assert(trimmed(t) == t);
    }
    content
}

/// Whether the identifier that the orchestrator assigned is to be written
/// to the identity file: where it is not the one that the file holds.
pub fn must_save_worker_id(assigned: u128, stored: Option<u128>) -> (save: bool)
    ensures
        save == (stored != Some(assigned)),
{
    match stored {
        Some(id) => id != assigned,
        None => true,
    }
}

/// Every claimed job is reported: once a job is claimed, whatever comes of
/// its run, and whether or not shutdown was requested meanwhile, the worker
/// reports a completion for that very job before it does anything else; a
/// run that failed on the worker is reported with exit code -1, after a
/// log line on standard error that names the failure.
pub proof fn law_claimed_job_is_reported(
    state: WorkerLoop,
    job: JobView,
    result: JobResultView,
    message: Seq<char>,
    shutdown: bool,
    claimed_at: i64,
    ended_at: i64,
    pushed_at: i64,
)
    requires
        state.phase == LoopPhase::Claiming,
    ensures
        ({
            let (running, run) = state.next(
                LoopEventView::Claimed { job: Some(job) },
                shutdown,
                claimed_at,
            );
            let (done, report) = running.next(
                LoopEventView::ExecutedOk { result },
                shutdown,
                ended_at,
            );
            let (failing, log) = running.next(
                LoopEventView::ExecutedErr { message },
                shutdown,
                ended_at,
            );
            let (failed, failure) = failing.next(LoopEventView::LogPushed, shutdown, pushed_at);
            &&& run == (LoopActionView::Execute { job })
            &&& report matches LoopActionView::Complete { worker_id, result: r } && worker_id
                == state.worker_id && r.job_id == job.id && r.exit_code == result.exit_code
            &&& log == (LoopActionView::PushLog {
                entry: failure_entry(job.id, message, ended_at),
            })
            &&& failure == (LoopActionView::Complete {
                worker_id: state.worker_id,
                result: failure_result(job.id, build_millis_between(claimed_at, ended_at)),
            })
        }),
{
}

/// No claim after shutdown: once the shutdown flag is seen at the
/// beginning of an iteration, the worker deregisters, tears down its pool
/// and leaves; it asks for no further job.
pub proof fn law_shutdown_ends_the_loop(state: WorkerLoop, now: i64)
    requires
        state.phase == LoopPhase::Sleeping || state.phase == LoopPhase::Completing,
    ensures
        ({
            let wake = if state.phase == LoopPhase::Sleeping {
                LoopEventView::Woke
            } else {
                LoopEventView::CompletionReported
            };
            let (leaving, first) = state.next(wake, true, now);
            let (stopping, second) = leaving.next(LoopEventView::Deregistered, true, now);
            let (stopped, third) = stopping.next(LoopEventView::PoolStopped, true, now);
            &&& first == (LoopActionView::Deregister { worker_id: state.worker_id })
            &&& second == LoopActionView::StopPool
            &&& third == LoopActionView::Exit
            &&& stopped.phase == LoopPhase::Stopped
        }),
{
}

} // verus!
