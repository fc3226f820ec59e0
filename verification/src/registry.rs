//! The orchestrator's table of workers and its record of artifacts.

use vstd::prelude::*;
use crate::models::{Artifact, ArtifactView, WorkerInfo, WorkerInfoView, WorkerStatus};

verus! {

/// Whether a worker with this identifier is registered.
pub open spec fn has_worker(workers: Seq<WorkerInfoView>, id: u128) -> bool {
    exists|i: int| 0 <= i < workers.len() && workers[i].id == id
}

/// The index of the worker with this identifier, where there is one.
pub open spec fn worker_position(workers: Seq<WorkerInfoView>, id: u128) -> int {
    choose|i: int| 0 <= i < workers.len() && workers[i].id == id
}

/// The worker with this identifier, if any.
pub open spec fn find_worker(workers: Seq<WorkerInfoView>, id: u128) -> Option<WorkerInfoView> {
    if has_worker(workers, id) {
        Some(workers[worker_position(workers, id)])
    } else {
        None
    }
}

/// No two workers share an identifier.
pub open spec fn unique_workers(workers: Seq<WorkerInfoView>) -> bool {
    forall|i: int, j: int| 0 <= i < j < workers.len() ==> workers[i].id != workers[j].id
}

/// The status that a heartbeat earns: Busy at or above capacity, Online
/// below it.
pub open spec fn status_for_load(current_jobs: u32, capacity: u32) -> WorkerStatus {
    if current_jobs >= capacity {
        WorkerStatus::Busy
    } else {
        WorkerStatus::Online
    }
}

/// The record of a worker that has just registered.
pub open spec fn registered(id: u128, hostname: Seq<char>, capacity: u32, now: i64) -> WorkerInfoView {
    WorkerInfoView {
        id,
        hostname,
        capacity,
        current_jobs: 0,
        last_heartbeat: now,
        status: WorkerStatus::Online,
    }
}

/// The table after a registration: the record replaces the one of the same
/// identifier, or is added.
pub open spec fn after_register(workers: Seq<WorkerInfoView>, info: WorkerInfoView) -> Seq<
    WorkerInfoView,
> {
    if has_worker(workers, info.id) {
        workers.update(worker_position(workers, info.id), info)
    } else {
        workers.push(info)
    }
}

/// The table after a heartbeat: a known worker has its load, its heartbeat
/// time and its status renewed.
pub open spec fn after_heartbeat(
    workers: Seq<WorkerInfoView>,
    id: u128,
    current_jobs: u32,
    capacity: u32,
    now: i64,
) -> Seq<WorkerInfoView> {
    if has_worker(workers, id) {
        workers.update(
            worker_position(workers, id),
            WorkerInfoView {
                last_heartbeat: now,
                current_jobs,
                status: status_for_load(current_jobs, capacity),
                ..workers[worker_position(workers, id)]
            },
        )
    } else {
        workers
    }
}

/// The table after a worker deregistered: a known worker is Offline; none
/// is ever removed.
pub open spec fn after_deregister(workers: Seq<WorkerInfoView>, id: u128) -> Seq<WorkerInfoView> {
    if has_worker(workers, id) {
        workers.update(
            worker_position(workers, id),
            WorkerInfoView {
                status: WorkerStatus::Offline,
                ..workers[worker_position(workers, id)]
            },
        )
    } else {
        workers
    }
}

/// With unique identifiers a worker sits at one index.
pub proof fn lemma_worker_position(workers: Seq<WorkerInfoView>, i: int)
    requires
        unique_workers(workers),
        0 <= i < workers.len(),
    ensures
        has_worker(workers, workers[i].id),
        worker_position(workers, workers[i].id) == i,
{
    let p = worker_position(workers, workers[i].id);
    if p < i {
        assert(workers[p].id != workers[i].id);
    } else if i < p {
        assert(workers[i].id != workers[p].id);
    }
}

/// The workers known to the orchestrator.
pub struct WorkerRegistry {
    workers: Vec<WorkerInfo>,
}

impl View for WorkerRegistry {
    type V = Seq<WorkerInfoView>;

    closed spec fn view(&self) -> Seq<WorkerInfoView> {
        Seq::new(self.workers@.len(), |i: int| self.workers@[i]@)
    }
}

impl WorkerRegistry {
    /// The invariant of the table: identifiers are unique.
    pub open spec fn wf(&self) -> bool {
        unique_workers(self@)
    }

    /// An empty table.
    pub fn new() -> (r: WorkerRegistry)
        ensures
            r.wf(),
            r@ == Seq::<WorkerInfoView>::empty(),
    {
        let r = WorkerRegistry { workers: Vec::new() };
        assert(r@ =~= Seq::<WorkerInfoView>::empty());
        r
    }

    /// The number of workers ever registered.
    pub fn len(&self) -> (n: usize)
        ensures
            n == self@.len(),
    {
        self.workers.len()
    }

    fn index_of(&self, id: u128) -> (found: Option<usize>)
        requires
            self.wf(),
        ensures
            match found {
                Some(i) => i < self@.len() && self@[i as int].id == id && has_worker(self@, id)
                    && worker_position(self@, id) == i,
                None => !has_worker(self@, id),
            },
    {
        let mut i: usize = 0;
        while i < self.workers.len()
            invariant
                self.wf(),
                i <= self.workers.len(),
                forall|k: int| 0 <= k < i ==> self@[k].id != id,
            decreases self.workers.len() - i,
        {
            if self.workers[i].id == id {
                proof {
                    lemma_worker_position(self@, i as int);
                }
                return Some(i);
            }
            i += 1;
        }
        None
    }

    /// Whether a worker with this identifier is registered.
    pub fn contains(&self, id: u128) -> (yes: bool)
        requires
            self.wf(),
        ensures
            yes == has_worker(self@, id),
    {
        self.index_of(id).is_some()
    }

    /// The record of a worker, if it is registered.
    pub fn get(&self, id: u128) -> (found: Option<WorkerInfo>)
        requires
            self.wf(),
        ensures
            match found {
                Some(w) => find_worker(self@, id) == Some(w@),
                None => find_worker(self@, id) is None,
            },
    {
        match self.index_of(id) {
            Some(i) => Some(self.workers[i].clone()),
            None => None,
        }
    }

    fn put(&mut self, i: usize, info: WorkerInfo)
        requires
            old(self).wf(),
            i < old(self)@.len(),
            info.id == old(self)@[i as int].id,
        ensures
            final(self).wf(),
            final(self)@ == old(self)@.update(i as int, info@),
    {
        let ghost before = self@;
        self.workers.set(i, info);
        proof {
            assert(self@ =~= before.update(i as int, info@));
            assert forall|x: int, y: int| 0 <= x < y < self@.len() implies self@[x].id
                != self@[y].id by {
                assert(before[x].id != before[y].id);
            }
        }
    }

    /// Registers a worker: its record replaces the one of the same
    /// identifier, or is added to the table.
    pub fn register(&mut self, info: WorkerInfo)
        requires
            old(self).wf(),
        ensures
            final(self).wf(),
            final(self)@ == after_register(old(self)@, info@),
    {
        match self.index_of(info.id) {
            Some(i) => {
                self.put(i, info);
            },
            None => {
                let ghost before = self@;
                self.workers.push(info);
                proof {
                    assert(self@ =~= before.push(info@));
                    assert forall|x: int, y: int| 0 <= x < y < self@.len() implies self@[x].id
                        != self@[y].id by {
                        if y == before.len() {
                            assert(before[x].id != info.id);
                        } else {
                            assert(before[x].id != before[y].id);
                        }
                    }
                }
            },
        }
    }

    /// Takes a worker's heartbeat: its load and heartbeat time are renewed
    /// and it is Busy at or above capacity, Online below. Returns whether
    /// the worker is known; an unknown one changes nothing.
    pub fn heartbeat(&mut self, id: u128, current_jobs: u32, capacity: u32, now: i64) -> (known:
        bool)
        requires
            old(self).wf(),
        ensures
            final(self).wf(),
            final(self)@ == after_heartbeat(old(self)@, id, current_jobs, capacity, now),
            known == has_worker(old(self)@, id),
    {
        match self.index_of(id) {
            Some(i) => {
                let mut info = self.workers[i].clone();
                info.last_heartbeat = now;
                info.current_jobs = current_jobs;
                info.status = if current_jobs >= capacity {
                    WorkerStatus::Busy
                } else {
                    WorkerStatus::Online
                };
                self.put(i, info);
                true
            },
            None => false,
        }
    }

    /// Marks a worker Offline. Returns whether the worker is known; an
    /// unknown one changes nothing.
    pub fn deregister(&mut self, id: u128) -> (known: bool)
        requires
            old(self).wf(),
        ensures
            final(self).wf(),
            final(self)@ == after_deregister(old(self)@, id),
            known == has_worker(old(self)@, id),
    {
        match self.index_of(id) {
            Some(i) => {
                let mut info = self.workers[i].clone();
                info.status = WorkerStatus::Offline;
                self.put(i, info);
                true
            },
            None => false,
        }
    }
}

/// The artifacts recorded for a job, in the order in which they were
/// recorded.
pub open spec fn artifacts_of(records: Seq<(u128, ArtifactView)>, job_id: u128) -> Seq<
    ArtifactView,
>
    decreases records.len(),
{
    if records.len() == 0 {
        Seq::empty()
    } else if records.last().0 == job_id {
        artifacts_of(records.drop_last(), job_id).push(records.last().1)
    } else {
        artifacts_of(records.drop_last(), job_id)
    }
}

struct ArtifactRecord {
    job_id: u128,
    artifact: Artifact,
}

/// The artifacts that jobs produced.
pub struct ArtifactStore {
    records: Vec<ArtifactRecord>,
}

impl View for ArtifactStore {
    type V = Seq<(u128, ArtifactView)>;

    closed spec fn view(&self) -> Seq<(u128, ArtifactView)> {
        Seq::new(self.records@.len(), |i: int| (self.records@[i].job_id, self.records@[i].artifact@))
    }
}

impl ArtifactStore {
    /// A store without records.
    pub fn new() -> (r: ArtifactStore)
        ensures
            r@ == Seq::<(u128, ArtifactView)>::empty(),
    {
        let r = ArtifactStore { records: Vec::new() };
        assert(r@ =~= Seq::<(u128, ArtifactView)>::empty());
        r
    }

    /// Records an artifact of a job.
    pub fn store_artifact(&mut self, job_id: u128, artifact: Artifact)
        ensures
            final(self)@ == old(self)@.push((job_id, artifact@)),
    {
        let ghost before = self@;
        self.records.push(ArtifactRecord { job_id, artifact });
        assert(self@ =~= before.push((job_id, artifact@)));
    }

    /// The artifacts of a job, in the order in which they were recorded.
    pub fn get_job_artifacts(&self, job_id: u128) -> (found: Vec<Artifact>)
        ensures
            crate::models::artifact_views(found@) == artifacts_of(self@, job_id),
    {
        let mut found: Vec<Artifact> = Vec::new();
        let mut i: usize = 0;
        while i < self.records.len()
            invariant
                i <= self.records.len(),
                crate::models::artifact_views(found@) == artifacts_of(self@.take(i as int), job_id),
            decreases self.records.len() - i,
        {
            let ghost before = crate::models::artifact_views(found@);
            assert(self@.take(i + 1).drop_last() =~= self@.take(i as int));
            assert(self@.take(i + 1).last() == self@[i as int]);
            if self.records[i].job_id == job_id {
                found.push(self.records[i].artifact.clone());
                assert(crate::models::artifact_views(found@) =~= before.push(self@[i as int].1));
            }
            i += 1;
        }
        assert(self@.take(i as int) =~= self@);
        found
    }
}

} // verus!
