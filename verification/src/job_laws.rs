//! Laws of the job store, stated over every sequence of requests.
//!
//! A request is a value of [`ApiCall`]; [`step`] is what the store's methods
//! do to its records, in the words of their own contracts; [`run`] applies a
//! sequence of requests in order. Requests reach the store one at a time, so
//! a set of concurrent requests is one of its orderings, and a law that
//! holds of every sequence holds of every interleaving.

use vstd::prelude::*;
use crate::job_store::{
    after_cancel, after_claim, after_complete, after_create, after_retry, can_retry, claim_reply,
    goes_before, has_job, has_pending, is_oldest_pending, lemma_oldest_pending_unique,
    lemma_position, lemma_push_wf, lemma_update_wf, lookup, oldest_pending, position, store_wf,
};
use crate::models::{JobStatus, JobView};

verus! {

/// A request that can change the store.
pub ghost enum ApiCall {
    Create { job: JobView },
    Claim { worker_id: u128, now: i64 },
    Complete { id: u128, exit_code: i32, build_millis: u64, now: i64 },
    Cancel { id: u128, now: i64 },
    Retry { id: u128, new_id: u128, now: i64 },
}

/// The records after one request.
pub open spec fn step(jobs: Seq<JobView>, call: ApiCall) -> Seq<JobView> {
    match call {
        ApiCall::Create { job } => after_create(jobs, job),
        ApiCall::Claim { worker_id, now } => after_claim(jobs, worker_id, now),
        ApiCall::Complete { id, exit_code, build_millis, now } => after_complete(
            jobs,
            id,
            exit_code,
            build_millis,
            now,
        ),
        ApiCall::Cancel { id, now } => after_cancel(jobs, id, now),
        ApiCall::Retry { id, new_id, now } => after_retry(jobs, id, new_id, now),
    }
}

/// The records after a sequence of requests, applied in order.
pub open spec fn run(jobs: Seq<JobView>, calls: Seq<ApiCall>) -> Seq<JobView>
    decreases calls.len(),
{
    if calls.len() == 0 {
        jobs
    } else {
        step(run(jobs, calls.drop_last()), calls.last())
    }
}

/// The job that the `i`-th request hands out, where it is a claim that
/// finds a Pending job.
pub open spec fn handed_out(jobs: Seq<JobView>, calls: Seq<ApiCall>, i: int) -> Option<JobView> {
    match calls[i] {
        ApiCall::Claim { worker_id, now } => claim_reply(run(jobs, calls.take(i)), worker_id, now),
        _ => None,
    }
}

/// Among the first `n` records, one Pending record goes before all others.
proof fn lemma_min_pending(jobs: Seq<JobView>, n: int) -> (k: int)
    requires
        0 <= n <= jobs.len(),
        exists|i: int| 0 <= i < n && jobs[i].status == JobStatus::Pending,
    ensures
        0 <= k < n,
        jobs[k].status == JobStatus::Pending,
        forall|i: int|
            0 <= i < n && jobs[i].status == JobStatus::Pending ==> goes_before(
                jobs[k],
                #[trigger] jobs[i],
            ),
    decreases n,
{
    if exists|i: int| 0 <= i < n - 1 && jobs[i].status == JobStatus::Pending {
        let k = lemma_min_pending(jobs, n - 1);
        if jobs[n - 1].status == JobStatus::Pending && !goes_before(jobs[k], jobs[n - 1]) {
            n - 1
        } else {
            k
        }
    } else {
        n - 1
    }
}

/// Where a record is Pending, `oldest_pending` names the Pending record
/// that goes before every other.
pub proof fn lemma_oldest_pending(jobs: Seq<JobView>)
    requires
        has_pending(jobs),
    ensures
        is_oldest_pending(jobs, oldest_pending(jobs)),
{
    let k = lemma_min_pending(jobs, jobs.len() as int);
    assert(is_oldest_pending(jobs, k));
}

/// After a record is replaced by one of the same identifier, a lookup finds
/// the new record under that identifier and what it found before under any
/// other.
pub proof fn lemma_lookup_update(jobs: Seq<JobView>, i: int, job: JobView, id: u128)
    requires
        store_wf(jobs),
        0 <= i < jobs.len(),
        job.wf(),
        job.id == jobs[i].id,
    ensures
        lookup(jobs.update(i, job), id) == if id == job.id {
            Some(job)
        } else {
            lookup(jobs, id)
        },
{
    lemma_update_wf(jobs, i, job);
    lemma_position(jobs, i);
    if has_job(jobs, id) {
        let p = position(jobs, id);
        if id != job.id {
            assert(p != i);
        }
    }
}

/// After a record is appended under an unused identifier, a lookup finds it
/// under that identifier and what it found before under any other.
pub proof fn lemma_lookup_push(jobs: Seq<JobView>, job: JobView, id: u128)
    requires
        store_wf(jobs),
        job.wf(),
        !has_job(jobs, job.id),
    ensures
        lookup(jobs.push(job), id) == if id == job.id {
            Some(job)
        } else {
            lookup(jobs, id)
        },
{
    lemma_push_wf(jobs, job);
    let after = jobs.push(job);
    if id == job.id {
        lemma_position(after, jobs.len() as int);
    }
}

/// What one request does to the record of an identifier: the store stays
/// well formed; a record never disappears; a record that is not Pending
/// does not become Pending; a terminal record does not change at all; and a
/// claim that hands out a job leaves it Running.
pub proof fn lemma_step(jobs: Seq<JobView>, call: ApiCall, id: u128)
    requires
        store_wf(jobs),
    ensures
        store_wf(step(jobs, call)),
        has_job(jobs, id) ==> has_job(step(jobs, call), id),
        lookup(jobs, id) is Some && lookup(jobs, id)->0.status != JobStatus::Pending ==> lookup(
            step(jobs, call),
            id,
        ) is Some && lookup(step(jobs, call), id)->0.status != JobStatus::Pending,
        lookup(jobs, id) is Some && lookup(jobs, id)->0.status.spec_is_terminal() ==> lookup(
            step(jobs, call),
            id,
        ) == lookup(jobs, id),
        call matches ApiCall::Claim { worker_id, now } ==> (claim_reply(jobs, worker_id, now)
            matches Some(j) ==> lookup(jobs, j.id) is Some && lookup(jobs, j.id)->0.status
            == JobStatus::Pending && lookup(step(jobs, call), j.id) == Some(j) && j.status
            == JobStatus::Running),
{
    match call {
        ApiCall::Create { job } => {
            if job.wf() && !has_job(jobs, job.id) {
                lemma_push_wf(jobs, job);
                lemma_lookup_push(jobs, job, id);
            }
        },
        ApiCall::Claim { worker_id, now } => {
            if has_pending(jobs) {
                lemma_oldest_pending(jobs);
                let k = oldest_pending(jobs);
                let j = jobs[k].claimed(worker_id, now);
                assert(jobs[k].wf());
                lemma_update_wf(jobs, k, j);
                lemma_lookup_update(jobs, k, j, id);
                lemma_lookup_update(jobs, k, j, j.id);
                lemma_position(jobs, k);
            }
        },
        ApiCall::Complete { id: target, exit_code, build_millis, now } => {
            if has_job(jobs, target) && jobs[position(jobs, target)].status == JobStatus::Running {
                let p = position(jobs, target);
                let j = jobs[p].finished(exit_code, build_millis, now);
                assert(jobs[p].wf());
                lemma_update_wf(jobs, p, j);
                lemma_lookup_update(jobs, p, j, id);
            }
        },
        ApiCall::Cancel { id: target, now } => {
            if has_job(jobs, target) && !jobs[position(jobs, target)].status.spec_is_terminal() {
                let p = position(jobs, target);
                let j = jobs[p].cancelled(now);
                assert(jobs[p].wf());
                lemma_update_wf(jobs, p, j);
                lemma_lookup_update(jobs, p, j, id);
            }
        },
        ApiCall::Retry { id: target, new_id, now } => {
            if can_retry(jobs, target, new_id) {
                let j = jobs[position(jobs, target)].retried(new_id, now);
                assert(jobs[position(jobs, target)].wf());
                lemma_push_wf(jobs, j);
                lemma_lookup_push(jobs, j, id);
            }
        },
    }
}

/// The store stays well formed under every sequence of requests: in every
/// reachable state each job has exactly one of command and script, a
/// Pending job is unassigned, a Running job has its worker and start time,
/// and identifiers are unique.
pub proof fn law_store_stays_well_formed(jobs: Seq<JobView>, calls: Seq<ApiCall>)
    requires
        store_wf(jobs),
    ensures
        store_wf(run(jobs, calls)),
    decreases calls.len(),
{
    if calls.len() > 0 {
        law_store_stays_well_formed(jobs, calls.drop_last());
        lemma_step(run(jobs, calls.drop_last()), calls.last(), 0);
    }
}

/// State monotonicity: no sequence of requests changes a terminal job. A
/// job that is Completed, Failed or Cancelled keeps its status, and every
/// other field, whatever is asked of the store afterwards.
pub proof fn law_terminal_is_final(jobs: Seq<JobView>, calls: Seq<ApiCall>, id: u128)
    requires
        store_wf(jobs),
        lookup(jobs, id) is Some,
        lookup(jobs, id)->0.status.spec_is_terminal(),
    ensures
        lookup(run(jobs, calls), id) == lookup(jobs, id),
    decreases calls.len(),
{
    if calls.len() > 0 {
        law_terminal_is_final(jobs, calls.drop_last(), id);
        law_store_stays_well_formed(jobs, calls.drop_last());
        lemma_step(run(jobs, calls.drop_last()), calls.last(), id);
    }
}

/// A job that has left Pending never returns to it, whatever requests
/// follow.
pub proof fn law_pending_is_left_once(jobs: Seq<JobView>, calls: Seq<ApiCall>, id: u128)
    requires
        store_wf(jobs),
        lookup(jobs, id) is Some,
        lookup(jobs, id)->0.status != JobStatus::Pending,
    ensures
        lookup(run(jobs, calls), id) is Some,
        lookup(run(jobs, calls), id)->0.status != JobStatus::Pending,
    decreases calls.len(),
{
    if calls.len() > 0 {
        law_pending_is_left_once(jobs, calls.drop_last(), id);
        law_store_stays_well_formed(jobs, calls.drop_last());
        lemma_step(run(jobs, calls.drop_last()), calls.last(), id);
    }
}

/// Running a sequence up to `j` is running it up to `i <= j` and then the
/// requests from `i` to `j`.
proof fn lemma_run_split(jobs: Seq<JobView>, calls: Seq<ApiCall>, i: int, j: int)
    requires
        0 <= i <= j <= calls.len(),
    ensures
        run(jobs, calls.take(j)) == run(run(jobs, calls.take(i)), calls.subrange(i, j)),
    decreases j - i,
{
    if i == j {
        assert(calls.subrange(i, j).len() == 0);
    } else {
        lemma_run_split(jobs, calls, i, j - 1);
        assert(calls.take(j).drop_last() =~= calls.take(j - 1));
        assert(calls.subrange(i, j).drop_last() =~= calls.subrange(i, j - 1));
        assert(calls.take(j).last() == calls.subrange(i, j).last());
    }
}

/// Uniqueness of claim: in any sequence of requests, claims among them or
/// all of them, no job is handed out twice. Whatever two distinct requests
/// return, they are different jobs.
pub proof fn law_claim_is_unique(jobs: Seq<JobView>, calls: Seq<ApiCall>, a: int, b: int)
    requires
        store_wf(jobs),
        0 <= a < b < calls.len(),
        handed_out(jobs, calls, a) is Some,
        handed_out(jobs, calls, b) is Some,
    ensures
        handed_out(jobs, calls, a)->0.id != handed_out(jobs, calls, b)->0.id,
{
    let first = handed_out(jobs, calls, a)->0;
    let second = handed_out(jobs, calls, b)->0;
    let before_a = run(jobs, calls.take(a));
    let after_a = run(jobs, calls.take(a + 1));
    let before_b = run(jobs, calls.take(b));
    law_store_stays_well_formed(jobs, calls.take(a));
    law_store_stays_well_formed(jobs, calls.take(a + 1));
    law_store_stays_well_formed(jobs, calls.take(b));
    assert(calls.take(a + 1).drop_last() =~= calls.take(a));
    assert(calls.take(a + 1).last() == calls[a]);
    assert(after_a == step(before_a, calls[a]));
    lemma_step(before_a, calls[a], first.id);
    assert(lookup(after_a, first.id) == Some(first));
    lemma_run_split(jobs, calls, a + 1, b);
    law_pending_is_left_once(after_a, calls.subrange(a + 1, b), first.id);
    lemma_step(before_b, calls[b], second.id);
}

/// The records after a run of claims alone.
pub open spec fn claims_of(workers: Seq<(u128, i64)>) -> Seq<ApiCall> {
    Seq::new(workers.len(), |i: int| ApiCall::Claim { worker_id: workers[i].0, now: workers[i].1 })
}

/// A race for a single job: where exactly one job is Pending and any number
/// of workers claim, in any order, the first claim to arrive gets the job,
/// now Running and assigned to that worker, and every other claim gets
/// nothing.
pub proof fn law_single_pending_job_is_claimed_once(
    jobs: Seq<JobView>,
    workers: Seq<(u128, i64)>,
    k: int,
    i: int,
)
    requires
        store_wf(jobs),
        0 <= k < jobs.len(),
        jobs[k].status == JobStatus::Pending,
        forall|x: int| 0 <= x < jobs.len() && x != k ==> jobs[x].status != JobStatus::Pending,
        0 <= i < workers.len(),
    ensures
        i == 0 ==> handed_out(jobs, claims_of(workers), i) == Some(
            jobs[k].claimed(workers[0].0, workers[0].1),
        ),
        i > 0 ==> handed_out(jobs, claims_of(workers), i) is None,
        i > 0 ==> lookup(run(jobs, claims_of(workers).take(i)), jobs[k].id) == Some(
            jobs[k].claimed(workers[0].0, workers[0].1),
        ),
{
    let calls = claims_of(workers);
    assert(is_oldest_pending(jobs, k));
    lemma_oldest_pending(jobs);
    lemma_oldest_pending_unique(jobs, k, oldest_pending(jobs));
    assert(calls.take(0).len() == 0);
    if i > 0 {
        lemma_no_pending_after_first(jobs, workers, k, i);
    }
}

/// After the first of a run of claims on a store with one Pending job, no
/// job is Pending and the store no longer changes.
proof fn lemma_no_pending_after_first(
    jobs: Seq<JobView>,
    workers: Seq<(u128, i64)>,
    k: int,
    i: int,
)
    requires
        store_wf(jobs),
        0 <= k < jobs.len(),
        jobs[k].status == JobStatus::Pending,
        forall|x: int| 0 <= x < jobs.len() && x != k ==> jobs[x].status != JobStatus::Pending,
        1 <= i <= workers.len(),
    ensures
        run(jobs, claims_of(workers).take(i)) == jobs.update(
            k,
            jobs[k].claimed(workers[0].0, workers[0].1),
        ),
        !has_pending(run(jobs, claims_of(workers).take(i))),
        lookup(run(jobs, claims_of(workers).take(i)), jobs[k].id) == Some(
            jobs[k].claimed(workers[0].0, workers[0].1),
        ),
    decreases i,
{
    let calls = claims_of(workers);
    let won = jobs[k].claimed(workers[0].0, workers[0].1);
    let target = jobs.update(k, won);
    assert(calls.take(i).drop_last() =~= calls.take(i - 1));
    assert(calls.take(i).last() == calls[i - 1]);
    if i == 1 {
        assert(calls.take(0).len() == 0);
        assert(is_oldest_pending(jobs, k));
        lemma_oldest_pending(jobs);
        lemma_oldest_pending_unique(jobs, k, oldest_pending(jobs));
    } else {
        lemma_no_pending_after_first(jobs, workers, k, i - 1);
    }
    assert(!has_pending(target)) by {
        if has_pending(target) {
            let x = choose|x: int| 0 <= x < target.len() && target[x].status == JobStatus::Pending;
            if x != k {
                assert(jobs[x].status != JobStatus::Pending);
            }
        }
    }
    lemma_lookup_update(jobs, k, won, jobs[k].id);
}

/// Retry lineage: the job that a retry creates is Pending, unassigned and
/// without result, and has the owner, source, command and script of the
/// original job.
pub proof fn law_retry_lineage(original: JobView, new_id: u128, now: i64)
    requires
        original.wf(),
    ensures
        original.retried(new_id, now).id == new_id,
        original.retried(new_id, now).status == JobStatus::Pending,
        original.retried(new_id, now).customer_id == original.customer_id,
        original.retried(new_id, now).source_type == original.source_type,
        original.retried(new_id, now).source_url == original.source_url,
        original.retried(new_id, now).command == original.command,
        original.retried(new_id, now).script == original.script,
        original.retried(new_id, now).wf(),
{
}

/// A retry goes through exactly for a Failed or Cancelled original job; it then
/// adds one job under the new identifier and changes no existing record.
/// For an original job in any other status the store is left as it was.
pub proof fn law_retry_only_from_failed_or_cancelled(
    jobs: Seq<JobView>,
    id: u128,
    new_id: u128,
    now: i64,
)
    requires
        store_wf(jobs),
        has_job(jobs, id),
        !has_job(jobs, new_id),
    ensures
        lookup(jobs, id)->0.retryable() ==> after_retry(jobs, id, new_id, now) == jobs.push(
            lookup(jobs, id)->0.retried(new_id, now),
        ) && lookup(after_retry(jobs, id, new_id, now), id) == lookup(jobs, id),
        !lookup(jobs, id)->0.retryable() ==> after_retry(jobs, id, new_id, now) == jobs,
{
    let original = jobs[position(jobs, id)];
    assert(original.wf());
    if original.retryable() {
        lemma_lookup_push(jobs, original.retried(new_id, now), id);
    }
}

/// Claims go oldest first: of two claims in a row, the first hands out a
/// job that goes before the job of the second, by creation time and then
/// by identifier.
pub proof fn law_claims_go_oldest_first(
    jobs: Seq<JobView>,
    first_worker: u128,
    first_now: i64,
    second_worker: u128,
    second_now: i64,
)
    requires
        store_wf(jobs),
        claim_reply(jobs, first_worker, first_now) is Some,
        claim_reply(after_claim(jobs, first_worker, first_now), second_worker, second_now)
            is Some,
    ensures
        ({
            let first = claim_reply(jobs, first_worker, first_now)->0;
            let second = claim_reply(
                after_claim(jobs, first_worker, first_now),
                second_worker,
                second_now,
            )->0;
            &&& first.id != second.id
            &&& first.created_at < second.created_at || (first.created_at == second.created_at
                && first.id < second.id)
        }),
{
    let claim = ApiCall::Claim { worker_id: first_worker, now: first_now };
    let after = after_claim(jobs, first_worker, first_now);
    lemma_oldest_pending(jobs);
    let a = oldest_pending(jobs);
    lemma_step(jobs, claim, jobs[a].id);
    lemma_oldest_pending(after);
    let b = oldest_pending(after);
    assert(after[b].status == JobStatus::Pending);
    assert(b != a);
    assert(after[b] == jobs[b]);
    assert(goes_before(jobs[a], jobs[b]));
    if a < b {
        assert(jobs[a].id != jobs[b].id);
    } else {
        assert(jobs[b].id != jobs[a].id);
    }
}

} // verus!
