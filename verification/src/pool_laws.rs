//! Laws of the VM pool, stated over every sequence of operations.

use vstd::prelude::*;
use crate::vm_pool::{
    acquire_reply, after_acquire, after_begin_release, after_finish_release, after_set_ip,
    can_begin_release, first_ready, has_ready, lemma_first_ready, with_state, PooledVmView,
    VmState,
};

verus! {

/// An operation on the pool.
pub ghost enum PoolOp {
    Acquire,
    BeginRelease { slot: int },
    FinishRelease { slot: int },
    SetIp { slot: int, ip: Seq<char> },
}

/// The pool after one operation, in the words of the methods' contracts.
pub open spec fn pool_step(vms: Seq<PooledVmView>, op: PoolOp) -> Seq<PooledVmView> {
    match op {
        PoolOp::Acquire => after_acquire(vms),
        PoolOp::BeginRelease { slot } => after_begin_release(vms, slot),
        PoolOp::FinishRelease { slot } => after_finish_release(vms, slot),
        PoolOp::SetIp { slot, ip } => after_set_ip(vms, slot, ip),
    }
}

/// The pool after a sequence of operations, applied in order.
pub open spec fn pool_run(vms: Seq<PooledVmView>, ops: Seq<PoolOp>) -> Seq<PooledVmView>
    decreases ops.len(),
{
    if ops.len() == 0 {
        vms
    } else {
        pool_run(pool_step(vms, ops[0]), ops.drop_first())
    }
}

/// The number of slots that are InUse.
pub open spec fn in_use(vms: Seq<PooledVmView>) -> nat
    decreases vms.len(),
{
    if vms.len() == 0 {
        0
    } else {
        in_use(vms.drop_last()) + if vms.last().state == VmState::InUse {
            1nat
        } else {
            0nat
        }
    }
}

/// By how much one operation changes the number of active executions: an
/// execution becomes active with the acquire that hands it a slot and ends
/// with the beginning of that slot's release.
pub open spec fn execution_change(vms: Seq<PooledVmView>, op: PoolOp) -> int {
    match op {
        PoolOp::Acquire => if has_ready(vms) {
            1
        } else {
            0
        },
        PoolOp::BeginRelease { slot } => if can_begin_release(vms, slot) {
            -1
        } else {
            0
        },
        _ => 0,
    }
}

/// The number of active executions after a sequence of operations, given
/// their number before it.
pub open spec fn active_executions(vms: Seq<PooledVmView>, ops: Seq<PoolOp>, active: int) -> int
    decreases ops.len(),
{
    if ops.len() == 0 {
        active
    } else {
        active_executions(
            pool_step(vms, ops[0]),
            ops.drop_first(),
            active + execution_change(vms, ops[0]),
        )
    }
}

/// Changing the state of one slot changes the count of InUse slots by that
/// slot alone.
pub proof fn lemma_in_use_with_state(vms: Seq<PooledVmView>, i: int, state: VmState)
    requires
        0 <= i < vms.len(),
    ensures
        in_use(with_state(vms, i, state)) == in_use(vms) - (if vms[i].state == VmState::InUse {
            1int
        } else {
            0int
        }) + (if state == VmState::InUse {
            1int
        } else {
            0int
        }),
    decreases vms.len(),
{
    let after = with_state(vms, i, state);
    if i == vms.len() - 1 {
        assert(after.drop_last() =~= vms.drop_last());
    } else {
        lemma_in_use_with_state(vms.drop_last(), i, state);
        assert(after.drop_last() =~= with_state(vms.drop_last(), i, state));
        assert(after.last() == vms.last());
    }
}

/// Changing the address of a slot leaves the count of InUse slots alone.
proof fn lemma_in_use_set_ip(vms: Seq<PooledVmView>, slot: int, ip: Seq<char>)
    ensures
        in_use(after_set_ip(vms, slot, ip)) == in_use(vms),
    decreases vms.len(),
{
    let after = after_set_ip(vms, slot, ip);
    if 0 <= slot < vms.len() {
        if slot == vms.len() - 1 {
            assert(after.drop_last() =~= vms.drop_last());
        } else {
            lemma_in_use_set_ip(vms.drop_last(), slot, ip);
            assert(after.drop_last() =~= after_set_ip(vms.drop_last(), slot, ip));
            assert(after.last() == vms.last());
        }
    }
}

/// One operation changes the number of InUse slots exactly as it changes
/// the number of active executions.
pub proof fn lemma_step_in_use(vms: Seq<PooledVmView>, op: PoolOp)
    ensures
        in_use(pool_step(vms, op)) == in_use(vms) + execution_change(vms, op),
{
    match op {
        PoolOp::Acquire => {
            if has_ready(vms) {
                lemma_first_ready(vms);
                lemma_in_use_with_state(vms, first_ready(vms), VmState::InUse);
            }
        },
        PoolOp::BeginRelease { slot } => {
            if can_begin_release(vms, slot) {
                lemma_in_use_with_state(vms, slot, VmState::Resetting);
            }
        },
        PoolOp::FinishRelease { slot } => {
            if 0 <= slot < vms.len() && vms[slot].state == VmState::Resetting {
                lemma_in_use_with_state(vms, slot, VmState::Ready);
            }
        },
        PoolOp::SetIp { slot, ip } => {
            lemma_in_use_set_ip(vms, slot, ip);
        },
    }
}

/// Pool safety: across every interleaving of acquires and releases, the
/// number of slots InUse equals the number of active executions.
pub proof fn law_in_use_equals_active_executions(
    vms: Seq<PooledVmView>,
    ops: Seq<PoolOp>,
    active: int,
)
    requires
        in_use(vms) == active,
    ensures
        in_use(pool_run(vms, ops)) == active_executions(vms, ops, active),
    decreases ops.len(),
{
    if ops.len() > 0 {
        lemma_step_in_use(vms, ops[0]);
        law_in_use_equals_active_executions(
            pool_step(vms, ops[0]),
            ops.drop_first(),
            active + execution_change(vms, ops[0]),
        );
    }
}

/// Every operation keeps the number of slots and their names, changes the
/// state of at most one slot, and moves that slot one step along the cycle
/// Ready, InUse, Resetting, Ready.
pub proof fn law_slots_follow_the_cycle(vms: Seq<PooledVmView>, op: PoolOp)
    ensures
        pool_step(vms, op).len() == vms.len(),
        forall|i: int|
            0 <= i < vms.len() ==> (#[trigger] pool_step(vms, op)[i]).name == vms[i].name,
        forall|i: int|
            0 <= i < vms.len() ==> (#[trigger] pool_step(vms, op)[i]).state == vms[i].state
                || pool_step(vms, op)[i].state == vms[i].state.successor(),
        forall|i: int, j: int|
            0 <= i < j < vms.len() ==> pool_step(vms, op)[i].state == vms[i].state || pool_step(
                vms,
                op,
            )[j].state == vms[j].state,
{
    if has_ready(vms) {
        lemma_first_ready(vms);
    }
}

/// A slot is in one state at a time, and an acquire hands out only a slot
/// that was Ready: a slot that is InUse is handed to nobody else until its
/// release has finished.
pub proof fn law_in_use_slot_is_not_handed_out(vms: Seq<PooledVmView>, slot: int)
    requires
        0 <= slot < vms.len(),
        vms[slot].state != VmState::Ready,
    ensures
        acquire_reply(vms) != Some(slot),
        after_acquire(vms)[slot] == vms[slot],
{
    if has_ready(vms) {
        lemma_first_ready(vms);
    }
}

/// Two acquires in a row never hand out the same slot.
pub proof fn law_acquires_hand_out_distinct_slots(vms: Seq<PooledVmView>)
    requires
        acquire_reply(vms) is Some,
        acquire_reply(after_acquire(vms)) is Some,
    ensures
        acquire_reply(vms) != acquire_reply(after_acquire(vms)),
{
    lemma_first_ready(vms);
    lemma_first_ready(after_acquire(vms));
}

} // verus!
