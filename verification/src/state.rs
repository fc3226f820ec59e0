//! The state of the orchestrator: its configuration, the job store, the
//! table of workers, the log hub and the record of artifacts.

use vstd::prelude::*;
use crate::config::Config;
use crate::job_store::JobStore;
use crate::log_hub::{after_create_stream, after_remove_stream, LogHub, SubscriberView};
use crate::models::{ArtifactView, JobView, WorkerInfoView};
use crate::registry::{ArtifactStore, WorkerRegistry};

verus! {

/// The state shared by all handlers. The handlers take it by `&mut`, so
/// requests are served one at a time.
pub struct AppState {
    pub config: Config,
    pub jobs: JobStore,
    pub workers: WorkerRegistry,
    pub log_streams: LogHub,
    pub artifacts: ArtifactStore,
}

impl AppState {
    /// The invariant of the state: that of each of its parts.
    pub open spec fn wf(&self) -> bool {
        &&& self.jobs.wf()
        &&& self.workers.wf()
        &&& self.log_streams.wf()
    }

    /// A state without jobs, workers, streams or artifacts.
    pub fn new(config: Config) -> (state: AppState)
        ensures
            state.wf(),
            state.config == config,
            state.jobs@ == Seq::<JobView>::empty(),
            state.workers@ == Seq::<WorkerInfoView>::empty(),
            state.artifacts@ == Seq::<(u128, ArtifactView)>::empty(),
            state.log_streams@.open == Set::<u128>::empty(),
            state.log_streams@.slots == Seq::<Option<SubscriberView>>::empty(),
    {
        AppState {
            config,
            jobs: JobStore::new(),
            workers: WorkerRegistry::new(),
            log_streams: LogHub::new(),
            artifacts: ArtifactStore::new(),
        }
    }

    /// Creates the log stream of a job; an existing one is kept.
    pub fn create_log_stream(&mut self, job_id: u128)
        requires
            old(self).wf(),
        ensures
            final(self).wf(),
            final(self).log_streams@ == after_create_stream(old(self).log_streams@, job_id),
            final(self).jobs@ == old(self).jobs@,
            final(self).workers@ == old(self).workers@,
            final(self).artifacts@ == old(self).artifacts@,
            final(self).config == old(self).config,
    {
        self.log_streams.create_stream(job_id);
    }

    /// Whether the job has a log stream.
    pub fn get_log_stream(&self, job_id: u128) -> (exists: bool)
        ensures
            exists == self.log_streams@.open.contains(job_id),
    {
        self.log_streams.has_stream(job_id)
    }

    /// Removes the log stream of a job.
    pub fn remove_log_stream(&mut self, job_id: u128)
        requires
            old(self).wf(),
        ensures
            final(self).wf(),
            final(self).log_streams@ == after_remove_stream(old(self).log_streams@, job_id),
            final(self).jobs@ == old(self).jobs@,
            final(self).workers@ == old(self).workers@,
            final(self).artifacts@ == old(self).artifacts@,
            final(self).config == old(self).config,
    {
        self.log_streams.remove_stream(job_id);
    }
}

} // verus!
