//! The job store: the single source of truth for job state.
//!
//! Every mutation goes through `&mut self`, so operations are serialised;
//! the claim of a pending job is one atomic step.

use vstd::prelude::*;
use crate::models::{Job, JobStatus, JobView};

verus! {

/// No two records share an identifier.
pub open spec fn unique_ids(jobs: Seq<JobView>) -> bool {
    forall|i: int, j: int| 0 <= i < j < jobs.len() ==> jobs[i].id != jobs[j].id
}

/// Every record is well formed and identifiers are unique.
pub open spec fn store_wf(jobs: Seq<JobView>) -> bool {
    &&& unique_ids(jobs)
    &&& forall|i: int| 0 <= i < jobs.len() ==> (#[trigger] jobs[i]).wf()
}

/// Whether a record with this identifier exists.
pub open spec fn has_job(jobs: Seq<JobView>, id: u128) -> bool {
    exists|i: int| 0 <= i < jobs.len() && jobs[i].id == id
}

/// The index of the record with this identifier, where there is one.
pub open spec fn position(jobs: Seq<JobView>, id: u128) -> int {
    choose|i: int| 0 <= i < jobs.len() && jobs[i].id == id
}

/// The record with this identifier, if any.
pub open spec fn lookup(jobs: Seq<JobView>, id: u128) -> Option<JobView> {
    if has_job(jobs, id) {
        Some(jobs[position(jobs, id)])
    } else {
        None
    }
}

/// Claim order: `a` goes before `b` when it was created earlier, or at the
/// same instant with the smaller identifier.
pub open spec fn goes_before(a: JobView, b: JobView) -> bool {
    a.created_at < b.created_at || (a.created_at == b.created_at && a.id <= b.id)
}

/// Whether any record is Pending.
pub open spec fn has_pending(jobs: Seq<JobView>) -> bool {
    exists|i: int| 0 <= i < jobs.len() && jobs[i].status == JobStatus::Pending
}

/// `k` is the index of a Pending record that goes before every other
/// Pending record.
pub open spec fn is_oldest_pending(jobs: Seq<JobView>, k: int) -> bool {
    &&& 0 <= k < jobs.len()
    &&& jobs[k].status == JobStatus::Pending
    &&& forall|i: int|
        0 <= i < jobs.len() && jobs[i].status == JobStatus::Pending ==> goes_before(
            jobs[k],
            #[trigger] jobs[i],
        )
}

/// The index of the Pending record that is claimed next.
pub open spec fn oldest_pending(jobs: Seq<JobView>) -> int {
    choose|k: int| is_oldest_pending(jobs, k)
}

/// What a claim returns: the oldest Pending record as it stands after the
/// claim, or nothing where no record is Pending.
pub open spec fn claim_reply(jobs: Seq<JobView>, worker_id: u128, now: i64) -> Option<JobView> {
    if has_pending(jobs) {
        Some(jobs[oldest_pending(jobs)].claimed(worker_id, now))
    } else {
        None
    }
}

/// The store after a claim: the oldest Pending record is Running and
/// assigned; every other record is untouched.
pub open spec fn after_claim(jobs: Seq<JobView>, worker_id: u128, now: i64) -> Seq<JobView> {
    if has_pending(jobs) {
        jobs.update(oldest_pending(jobs), jobs[oldest_pending(jobs)].claimed(worker_id, now))
    } else {
        jobs
    }
}

/// The store after a worker reported the end of a run. Only a Running job
/// takes the result; a terminal job keeps its state, and so does everything
/// else.
pub open spec fn after_complete(
    jobs: Seq<JobView>,
    id: u128,
    exit_code: i32,
    build_millis: u64,
    now: i64,
) -> Seq<JobView> {
    if has_job(jobs, id) && jobs[position(jobs, id)].status == JobStatus::Running {
        jobs.update(
            position(jobs, id),
            jobs[position(jobs, id)].finished(exit_code, build_millis, now),
        )
    } else {
        jobs
    }
}

/// The store after a cancel request. Only a Pending or Running job becomes
/// Cancelled.
pub open spec fn after_cancel(jobs: Seq<JobView>, id: u128, now: i64) -> Seq<JobView> {
    if has_job(jobs, id) && !jobs[position(jobs, id)].status.spec_is_terminal() {
        jobs.update(position(jobs, id), jobs[position(jobs, id)].cancelled(now))
    } else {
        jobs
    }
}

/// Whether a retry of `id` under the identifier `new_id` goes through: the
/// original job exists and is Failed or Cancelled, and `new_id` is not taken.
pub open spec fn can_retry(jobs: Seq<JobView>, id: u128, new_id: u128) -> bool {
    &&& has_job(jobs, id)
    &&& jobs[position(jobs, id)].retryable()
    &&& !has_job(jobs, new_id)
}

/// The store after a retry request: on success one fresh Pending record is
/// appended; the original job is never touched.
pub open spec fn after_retry(jobs: Seq<JobView>, id: u128, new_id: u128, now: i64) -> Seq<
    JobView,
> {
    if can_retry(jobs, id, new_id) {
        jobs.push(jobs[position(jobs, id)].retried(new_id, now))
    } else {
        jobs
    }
}

/// The store after a create request: a well-formed record with an unused
/// identifier is appended.
pub open spec fn after_create(jobs: Seq<JobView>, job: JobView) -> Seq<JobView> {
    if job.wf() && !has_job(jobs, job.id) {
        jobs.push(job)
    } else {
        jobs
    }
}

/// Listing order: `a` is shown before `b` when it was created later, or at
/// the same instant with the smaller identifier.
pub open spec fn newer(a: JobView, b: JobView) -> bool {
    a.created_at > b.created_at || (a.created_at == b.created_at && a.id < b.id)
}

/// Whether a record passes the status filter of a listing.
pub open spec fn passes(job: JobView, status: Option<JobStatus>) -> bool {
    match status {
        Some(s) => job.status == s,
        None => true,
    }
}

/// `page` is the listing of `jobs` under the filter and the limit: at most
/// `limit` records of the store that pass the filter, newest first, and
/// such that a passing record is left out only where the page is full and
/// holds nothing older than it.
pub open spec fn is_page(
    jobs: Seq<JobView>,
    status: Option<JobStatus>,
    limit: nat,
    page: Seq<JobView>,
) -> bool {
    &&& page.len() <= limit
    &&& forall|i: int|
        0 <= i < page.len() ==> jobs.contains(#[trigger] page[i]) && passes(page[i], status)
    &&& forall|i: int, j: int| 0 <= i < j < page.len() ==> newer(page[i], page[j])
    &&& forall|k: int|
        0 <= k < jobs.len() && passes(#[trigger] jobs[k], status) && !page.contains(jobs[k])
            ==> page.len() == limit && (limit > 0 ==> newer(page[page.len() - 1], jobs[k]))
}

/// With unique identifiers at most one index is the oldest Pending one.
pub proof fn lemma_oldest_pending_unique(jobs: Seq<JobView>, a: int, b: int)
    requires
        unique_ids(jobs),
        is_oldest_pending(jobs, a),
        is_oldest_pending(jobs, b),
    ensures
        a == b,
{
    assert(goes_before(jobs[a], jobs[b]));
    assert(goes_before(jobs[b], jobs[a]));
    if a < b {
        assert(jobs[a].id != jobs[b].id);
    } else if b < a {
        assert(jobs[b].id != jobs[a].id);
    }
}

/// With unique identifiers the record of an identifier sits at one index.
pub proof fn lemma_position(jobs: Seq<JobView>, i: int)
    requires
        unique_ids(jobs),
        0 <= i < jobs.len(),
    ensures
        has_job(jobs, jobs[i].id),
        position(jobs, jobs[i].id) == i,
        lookup(jobs, jobs[i].id) == Some(jobs[i]),
{
    let p = position(jobs, jobs[i].id);
    if p < i {
        assert(jobs[p].id != jobs[i].id);
    } else if i < p {
        assert(jobs[i].id != jobs[p].id);
    }
}

/// The views of a vector of jobs.
pub open spec fn views(jobs: Seq<Job>) -> Seq<JobView> {
    Seq::new(jobs.len(), |i: int| jobs[i]@)
}

/// Replacing a record by a well-formed one of the same identifier keeps the
/// store well formed and every other record in place.
pub proof fn lemma_update_wf(jobs: Seq<JobView>, i: int, job: JobView)
    requires
        store_wf(jobs),
        0 <= i < jobs.len(),
        job.wf(),
        job.id == jobs[i].id,
    ensures
        store_wf(jobs.update(i, job)),
        forall|id: u128| has_job(jobs.update(i, job), id) == has_job(jobs, id),
        forall|id: u128| has_job(jobs, id) ==> position(jobs.update(i, job), id) == position(jobs, id),
{
    let after = jobs.update(i, job);
    assert forall|k: int| 0 <= k < after.len() implies (#[trigger] after[k]).wf() by {
        if k != i {
            assert(jobs[k].wf());
        }
    }
    assert forall|x: int, y: int| 0 <= x < y < after.len() implies after[x].id != after[y].id by {
        assert(jobs[x].id != jobs[y].id);
    }
    assert forall|id: u128| has_job(after, id) == has_job(jobs, id) by {
        if has_job(jobs, id) {
            let p = position(jobs, id);
            assert(after[p].id == id);
        }
        if has_job(after, id) {
            let p = position(after, id);
            assert(jobs[p].id == id);
        }
    }
    assert forall|id: u128| has_job(jobs, id) implies position(after, id) == position(jobs, id) by {
        let p = position(jobs, id);
        assert(after[p].id == id);
        lemma_position(after, p);
    }
}

/// Appending a well-formed record with an unused identifier keeps the store
/// well formed and every earlier record in place.
pub proof fn lemma_push_wf(jobs: Seq<JobView>, job: JobView)
    requires
        store_wf(jobs),
        job.wf(),
        !has_job(jobs, job.id),
    ensures
        store_wf(jobs.push(job)),
        forall|id: u128| has_job(jobs, id) ==> has_job(jobs.push(job), id) && position(
            jobs.push(job),
            id,
        ) == position(jobs, id),
        forall|id: u128| has_job(jobs.push(job), id) ==> has_job(jobs, id) || id == job.id,
{
    let after = jobs.push(job);
    assert forall|x: int, y: int| 0 <= x < y < after.len() implies after[x].id != after[y].id by {
        if y == jobs.len() {
            assert(jobs[x].id != job.id);
        } else {
            assert(jobs[x].id != jobs[y].id);
        }
    }
    assert forall|k: int| 0 <= k < after.len() implies (#[trigger] after[k]).wf() by {
        if k < jobs.len() {
            assert(jobs[k].wf());
        }
    }
    assert forall|id: u128| has_job(jobs, id) implies has_job(after, id) && position(after, id)
        == position(jobs, id) by {
        let p = position(jobs, id);
        assert(after[p].id == id);
        lemma_position(after, p);
    }
    assert forall|id: u128| has_job(after, id) implies has_job(jobs, id) || id == job.id by {
        let p = position(after, id);
        if p < jobs.len() {
            assert(jobs[p].id == id);
        }
    }
}

/// Why the store refused a record.
#[derive(Debug, Clone, Copy, PartialEq, Eq, Structural)]
pub enum StoreError {
    /// A record with the same identifier exists.
    DuplicateId,
    /// The record breaks an invariant of jobs.
    Malformed,
}

/// Why a transition was refused.
#[derive(Debug, Clone, Copy, PartialEq, Eq, Structural)]
pub enum TransitionError {
    /// No record has the identifier.
    NotFound,
    /// The record's status does not admit the transition.
    InvalidState,
}

/// Why a retry was refused.
#[derive(Debug, Clone, Copy, PartialEq, Eq, Structural)]
pub enum RetryFailure {
    /// No record has the identifier of the original job.
    NotFound,
    /// The original job is neither Failed nor Cancelled.
    InvalidState,
    /// The identifier proposed for the new job is taken.
    DuplicateId,
}

/// The jobs known to the orchestrator, in order of creation.
pub struct JobStore {
    jobs: Vec<Job>,
}

impl View for JobStore {
    type V = Seq<JobView>;

    closed spec fn view(&self) -> Seq<JobView> {
        views(self.jobs@)
    }
}

impl JobStore {
    /// The invariant of the store: well-formed records, unique identifiers.
    pub open spec fn wf(&self) -> bool {
        store_wf(self@)
    }

    /// An empty store.
    pub fn new() -> (store: JobStore)
        ensures
            store@ == Seq::<JobView>::empty(),
            store.wf(),
    {
        let store = JobStore { jobs: Vec::new() };
        assert(views(store.jobs@) =~= Seq::<JobView>::empty());
        store
    }

    /// The number of records.
    pub fn len(&self) -> (n: usize)
        ensures
            n == self@.len(),
    {
        self.jobs.len()
    }

    fn find(&self, id: u128) -> (found: Option<usize>)
        requires
            self.wf(),
        ensures
            match found {
                Some(i) => i < self@.len() && self@[i as int].id == id && has_job(self@, id)
                    && position(self@, id) == i,
                None => !has_job(self@, id),
            },
    {
        let mut i: usize = 0;
        while i < self.jobs.len()
            invariant
                self.wf(),
                i <= self.jobs.len(),
                forall|k: int| 0 <= k < i ==> views(self.jobs@)[k].id != id,
            decreases self.jobs.len() - i,
        {
            if self.jobs[i].id == id {
                proof {
                    lemma_position(views(self.jobs@), i as int);
                }
                return Some(i);
            }
            i += 1;
        }
        None
    }

    /// Adds a record. A malformed record or one whose identifier is taken is
    /// refused and the store stays as it was.
    pub fn create_job(&mut self, job: Job) -> (r: Result<(), StoreError>)
        requires
            old(self).wf(),
        ensures
            final(self).wf(),
            match r {
                Ok(()) => job@.wf() && !has_job(old(self)@, job.id) && final(self)@ == old(
                    self,
                )@.push(job@),
                Err(StoreError::Malformed) => !job@.wf() && final(self)@ == old(self)@,
                Err(StoreError::DuplicateId) => job@.wf() && has_job(old(self)@, job.id)
                    && final(self)@ == old(self)@,
            },
    {
        if !job.is_well_formed() {
            return Err(StoreError::Malformed);
        }
        if self.find(job.id).is_some() {
            return Err(StoreError::DuplicateId);
        }
        let ghost before = views(self.jobs@);
        self.jobs.push(job);
        proof {
            let after = views(self.jobs@);
            assert(after =~= before.push(job@));
            assert forall|i: int, j: int| 0 <= i < j < after.len() implies after[i].id
                != after[j].id by {
                if j == before.len() {
                    assert(before[i].id != job.id);
                }
            }
        }
        Ok(())
    }

    /// The record with this identifier, if any.
    pub fn get_job(&self, id: u128) -> (found: Option<Job>)
        requires
            self.wf(),
        ensures
            match found {
                Some(job) => lookup(self@, id) == Some(job@),
                None => lookup(self@, id) is None,
            },
    {
        match self.find(id) {
            Some(i) => Some(self.jobs[i].clone()),
            None => None,
        }
    }

    /// Hands the oldest Pending job to a worker, in one step: the job
    /// becomes Running, assigned to `worker_id` and started at `now`, and
    /// the updated record is returned. Ties on the creation time go to the
    /// smaller identifier. Where no job is Pending, nothing changes.
    pub fn claim_pending_job(&mut self, worker_id: u128, now: i64) -> (claimed: Option<Job>)
        requires
            old(self).wf(),
        ensures
            final(self).wf(),
            final(self)@ == after_claim(old(self)@, worker_id, now),
            match claimed {
                Some(job) => claim_reply(old(self)@, worker_id, now) == Some(job@),
                None => claim_reply(old(self)@, worker_id, now) is None,
            },
    {
        let ghost before = views(self.jobs@);
        let mut best: Option<usize> = None;
        let mut i: usize = 0;
        while i < self.jobs.len()
            invariant
                i <= self.jobs.len(),
                before == views(self.jobs@),
                store_wf(before),
                match best {
                    Some(b) => b < i && before[b as int].status == JobStatus::Pending
                        && forall|k: int|
                        0 <= k < i && before[k].status == JobStatus::Pending ==> goes_before(
                            before[b as int],
                            #[trigger] before[k],
                        ),
                    None => forall|k: int|
                        0 <= k < i ==> (#[trigger] before[k]).status != JobStatus::Pending,
                },
            decreases self.jobs.len() - i,
        {
            let job = &self.jobs[i];
            assert(job@ == before[i as int]);
            if job.status == JobStatus::Pending {
                let better = match best {
                    Some(b) => {
                        let cur = &self.jobs[b];
                        assert(cur@ == before[b as int]);
                        job.created_at < cur.created_at || (job.created_at == cur.created_at
                            && job.id < cur.id)
                    },
                    None => true,
                };
                if better {
                    best = Some(i);
                }
            }
            i += 1;
        }
        match best {
            Some(b) => {
                proof {
                    assert(is_oldest_pending(before, b as int));
                    assert(has_pending(before));
                    lemma_oldest_pending_unique(before, b as int, oldest_pending(before));
                }
                let mut job = self.jobs[b].clone();
                let ok = job.claim(worker_id, now);
                assert(ok);
                let reply = job.clone();
                self.jobs.set(b, job);
                proof {
                    let after = views(self.jobs@);
                    assert(after =~= before.update(b as int, before[b as int].claimed(worker_id, now)));
                    assert forall|k: int| 0 <= k < after.len() implies (#[trigger] after[k]).wf() by {
                        if k != b as int {
                            assert(before[k].wf());
                        }
                    }
                    assert forall|x: int, y: int| 0 <= x < y < after.len() implies after[x].id
                        != after[y].id by {
                        assert(before[x].id != before[y].id);
                    }
                }
                Some(reply)
            },
            None => {
                assert(!has_pending(before));
                None
            },
        }
    }
    fn put(&mut self, i: usize, job: Job)
        requires
            old(self).wf(),
            i < old(self)@.len(),
            job@.wf(),
            job.id == old(self)@[i as int].id,
        ensures
            final(self).wf(),
            final(self)@ == old(self)@.update(i as int, job@),
    {
        let ghost before = views(self.jobs@);
        self.jobs.set(i, job);
        proof {
            assert(views(self.jobs@) =~= before.update(i as int, job@));
            lemma_update_wf(before, i as int, job@);
        }
    }

    /// Records the end of a run. A Running job becomes Completed (exit code
    /// zero) or Failed and takes the result; the updated record is returned.
    /// A job that is already terminal is returned as it stands: the terminal
    /// status wins. A Pending job was never claimed, so the report is refused.
    pub fn complete_job(
        &mut self,
        id: u128,
        exit_code: i32,
        build_millis: u64,
        now: i64,
    ) -> (r: Result<Job, TransitionError>)
        requires
            old(self).wf(),
        ensures
            final(self).wf(),
            final(self)@ == after_complete(old(self)@, id, exit_code, build_millis, now),
            match r {
                Ok(job) => lookup(old(self)@, id) is Some && lookup(old(self)@, id)->0.status
                    != JobStatus::Pending && lookup(final(self)@, id) == Some(job@),
                Err(TransitionError::NotFound) => lookup(old(self)@, id) is None,
                Err(TransitionError::InvalidState) => lookup(old(self)@, id) is Some && lookup(
                    old(self)@,
                    id,
                )->0.status == JobStatus::Pending,
            },
    {
        let i = match self.find(id) {
            Some(i) => i,
            None => {
                return Err(TransitionError::NotFound);
            },
        };
        let mut job = self.jobs[i].clone();
        match job.status {
            JobStatus::Pending => Err(TransitionError::InvalidState),
            JobStatus::Running => {
                let ghost before = self@;
                job.finish(exit_code, build_millis, now);
                let reply = job.clone();
                self.put(i, job);
                proof {
                    lemma_update_wf(before, i as int, reply@);
                }
                Ok(reply)
            },
            _ => Ok(job),
        }
    }

    /// Cancels a Pending or Running job and returns the updated record. A
    /// terminal job is left as it is and the request refused.
    pub fn cancel_job(&mut self, id: u128, now: i64) -> (r: Result<Job, TransitionError>)
        requires
            old(self).wf(),
        ensures
            final(self).wf(),
            final(self)@ == after_cancel(old(self)@, id, now),
            match r {
                Ok(job) => lookup(old(self)@, id) is Some && !lookup(
                    old(self)@,
                    id,
                )->0.status.spec_is_terminal() && job@ == lookup(old(self)@, id)->0.cancelled(now)
                    && lookup(final(self)@, id) == Some(job@),
                Err(TransitionError::NotFound) => lookup(old(self)@, id) is None,
                Err(TransitionError::InvalidState) => lookup(old(self)@, id) is Some && lookup(
                    old(self)@,
                    id,
                )->0.status.spec_is_terminal(),
            },
    {
        let i = match self.find(id) {
            Some(i) => i,
            None => {
                return Err(TransitionError::NotFound);
            },
        };
        let mut job = self.jobs[i].clone();
        let ghost before = self@;
        if job.cancel(now) {
            let reply = job.clone();
            self.put(i, job);
            proof {
                lemma_update_wf(before, i as int, reply@);
            }
            Ok(reply)
        } else {
            Err(TransitionError::InvalidState)
        }
    }

    /// Retries a Failed or Cancelled job: appends a fresh Pending job under
    /// `new_id`, created at `now`, with the owner, source and work of the
    /// original job, and returns it. The original job is not changed.
    pub fn retry_job(&mut self, id: u128, new_id: u128, now: i64) -> (r: Result<Job, RetryFailure>)
        requires
            old(self).wf(),
        ensures
            final(self).wf(),
            final(self)@ == after_retry(old(self)@, id, new_id, now),
            match r {
                Ok(job) => can_retry(old(self)@, id, new_id) && job@ == lookup(
                    old(self)@,
                    id,
                )->0.retried(new_id, now),
                Err(RetryFailure::NotFound) => lookup(old(self)@, id) is None,
                Err(RetryFailure::InvalidState) => lookup(old(self)@, id) is Some && !lookup(
                    old(self)@,
                    id,
                )->0.retryable(),
                Err(RetryFailure::DuplicateId) => lookup(old(self)@, id) is Some && lookup(
                    old(self)@,
                    id,
                )->0.retryable() && has_job(old(self)@, new_id),
            },
    {
        let i = match self.find(id) {
            Some(i) => i,
            None => {
                return Err(RetryFailure::NotFound);
            },
        };
        assert(self@[i as int].wf());
        let fresh = match self.jobs[i].retry(new_id, now) {
            Ok(job) => job,
            Err(_) => {
                return Err(RetryFailure::InvalidState);
            },
        };
        let reply = fresh.clone();
        match self.create_job(fresh) {
            Ok(()) => Ok(reply),
            Err(_) => Err(RetryFailure::DuplicateId),
        }
    }
    /// The newest jobs, newest first, at most `limit` of them; with a
    /// status given, only the jobs in that status.
    pub fn list_jobs(&self, status: Option<JobStatus>, limit: usize) -> (page: Vec<Job>)
        requires
            self.wf(),
        ensures
            is_page(self@, status, limit as nat, views(page@)),
    {
        let ghost jobs = self@;
        let mut page: Vec<Job> = Vec::new();
        let mut last: Option<usize> = None;
        let mut done = false;
        while page.len() < limit && !done
            invariant
                self.wf(),
                jobs == self@,
                page@.len() <= limit,
                page@.len() == 0 <==> last is None,
                last is Some ==> last->0 < jobs.len() && views(page@)[page@.len() - 1]
                    == jobs[last->0 as int],
                forall|i: int|
                    0 <= i < page@.len() ==> jobs.contains(#[trigger] views(page@)[i]) && passes(
                        views(page@)[i],
                        status,
                    ),
                forall|i: int, j: int|
                    0 <= i < j < page@.len() ==> newer(views(page@)[i], views(page@)[j]),
                forall|k: int|
                    0 <= k < jobs.len() && passes(#[trigger] jobs[k], status) && !views(
                        page@,
                    ).contains(jobs[k]) ==> page@.len() == 0 || newer(
                        views(page@)[page@.len() - 1],
                        jobs[k],
                    ),
                done ==> forall|k: int|
                    0 <= k < jobs.len() && passes(#[trigger] jobs[k], status) ==> views(
                        page@,
                    ).contains(jobs[k]),
            decreases limit - page@.len() + (if done { 0int } else { 1int }),
        {
            let next = self.newest_after(status, last);
            match next {
                Some(n) => {
                    let ghost before = views(page@);
                    page.push(self.jobs[n].clone());
                    proof {
                        let after = views(page@);
                        assert(after =~= before.push(jobs[n as int]));
                        assert(jobs.contains(jobs[n as int]));
                        assert forall|i: int| 0 <= i < after.len() implies jobs.contains(
                            #[trigger] after[i],
                        ) && passes(after[i], status) by {
                            if i < before.len() {
                                assert(after[i] == before[i]);
                            }
                        }
                        assert forall|i: int, j: int| 0 <= i < j < after.len() implies newer(
                            after[i],
                            after[j],
                        ) by {
                            if j < before.len() {
                                assert(after[i] == before[i] && after[j] == before[j]);
                            } else if i < before.len() - 1 {
                                assert(newer(before[i], before[before.len() - 1]));
                            }
                        }
                        assert forall|k: int|
                            0 <= k < jobs.len() && passes(#[trigger] jobs[k], status)
                                && !after.contains(jobs[k]) implies newer(
                            after[after.len() - 1],
                            jobs[k],
                        ) by {
                            assert(after[after.len() - 1] == jobs[n as int]);
                            if before.contains(jobs[k]) {
                                let w = choose|w: int| 0 <= w < before.len() && before[w] == jobs[k];
                                assert(after[w] == jobs[k]);
                            }
                            if k == n as int {
                                assert(after[after.len() - 1] == jobs[k]);
                            }
                        }
                    }
                    last = Some(n);
                },
                None => {
                    proof {
                        let cur = views(page@);
                        assert forall|k: int|
                            0 <= k < jobs.len() && passes(#[trigger] jobs[k], status) implies cur.contains(
                            jobs[k],
                        ) by {
                            if !cur.contains(jobs[k]) && cur.len() > 0 {
                                assert(newer(cur[cur.len() - 1], jobs[k]));
                            }
                        }
                    }
                    done = true;
                },
            }
        }
        page
    }

    /// The index of the newest record that passes the filter and comes
    /// strictly after the record at `last` in listing order (or anywhere,
    /// where `last` is `None`).
    fn newest_after(&self, status: Option<JobStatus>, last: Option<usize>) -> (found: Option<usize>)
        requires
            self.wf(),
            last is Some ==> last->0 < self@.len(),
        ensures
            match found {
                Some(n) => {
                    &&& n < self@.len()
                    &&& passes(self@[n as int], status)
                    &&& last is Some ==> newer(self@[last->0 as int], self@[n as int])
                    &&& forall|k: int|
                        0 <= k < self@.len() && passes(#[trigger] self@[k], status) && (last is Some
                            ==> newer(self@[last->0 as int], self@[k])) ==> k == n || newer(
                            self@[n as int],
                            self@[k],
                        )
                },
                None => forall|k: int|
                    0 <= k < self@.len() && passes(#[trigger] self@[k], status) ==> last is Some
                        && !newer(self@[last->0 as int], self@[k]),
            },
    {
        let ghost jobs = self@;
        let mut best: Option<usize> = None;
        let mut i: usize = 0;
        while i < self.jobs.len()
            invariant
                self.wf(),
                jobs == self@,
                i <= self.jobs.len(),
                last is Some ==> last->0 < jobs.len(),
                match best {
                    Some(n) => {
                        &&& n < i
                        &&& passes(jobs[n as int], status)
                        &&& last is Some ==> newer(jobs[last->0 as int], jobs[n as int])
                        &&& forall|k: int|
                            0 <= k < i && passes(#[trigger] jobs[k], status) && (last is Some
                                ==> newer(jobs[last->0 as int], jobs[k])) ==> k == n || newer(
                                jobs[n as int],
                                jobs[k],
                            )
                    },
                    None => forall|k: int|
                        0 <= k < i && passes(#[trigger] jobs[k], status) ==> last is Some
                            && !newer(jobs[last->0 as int], jobs[k]),
                },
            decreases self.jobs.len() - i,
        {
            let job = &self.jobs[i];
            assert(job@ == jobs[i as int]);
            let wanted = match status {
                Some(s) => job.status == s,
                None => true,
            };
            let below = match last {
                Some(l) => {
                    let top = &self.jobs[l];
                    assert(top@ == jobs[l as int]);
                    top.created_at > job.created_at || (top.created_at == job.created_at && top.id
                        < job.id)
                },
                None => true,
            };
            if wanted && below {
                let better = match best {
                    Some(n) => {
                        let cur = &self.jobs[n];
                        assert(cur@ == jobs[n as int]);
                        assert(jobs[n as int].id != jobs[i as int].id);
                        job.created_at > cur.created_at || (job.created_at == cur.created_at
                            && job.id < cur.id)
                    },
                    None => true,
                };
                if better {
                    best = Some(i);
                }
            }
            i += 1;
        }
        best
    }
}

} // verus!
