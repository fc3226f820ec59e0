//! Laws of the log hub, stated over every sequence of operations.

use vstd::prelude::*;
use crate::log_hub::{
    after_create_stream, after_poll, after_push, after_remove_stream, after_subscribe,
    after_unsubscribe, first_free, hub_wf, lemma_first_free, poll_reply, DeliveryView, HubView,
    SubscriberState, STREAM_CAPACITY,
};

verus! {

/// An operation on the hub.
pub ghost enum HubOp {
    CreateStream { job_id: u128 },
    Push { job_id: u128, msg: Seq<char> },
    Subscribe { job_id: u128 },
    RemoveStream { job_id: u128 },
    Poll { slot: int },
    Unsubscribe { slot: int },
}

/// The hub after one operation, in the words of the methods' contracts.
pub open spec fn hub_step(h: HubView, op: HubOp) -> HubView {
    match op {
        HubOp::CreateStream { job_id } => after_create_stream(h, job_id),
        HubOp::Push { job_id, msg } => after_push(h, job_id, msg),
        HubOp::Subscribe { job_id } => after_subscribe(h, job_id),
        HubOp::RemoveStream { job_id } => after_remove_stream(h, job_id),
        HubOp::Poll { slot } => after_poll(h, slot),
        HubOp::Unsubscribe { slot } => after_unsubscribe(h, slot),
    }
}

/// Whether a slot is taken.
pub open spec fn taken(h: HubView, slot: int) -> bool {
    0 <= slot < h.slots.len() && h.slots[slot] is Some
}

/// The messages that the subscriber in `slot` receives while `ops` run, in
/// the order in which its polls return them, up to the moment it gives up
/// the slot.
pub open spec fn received(h: HubView, ops: Seq<HubOp>, slot: int) -> Seq<Seq<char>>
    decreases ops.len(),
{
    if ops.len() == 0 || !taken(h, slot) {
        Seq::empty()
    } else {
        let rest = received(hub_step(h, ops[0]), ops.drop_first(), slot);
        match ops[0] {
            HubOp::Poll { slot: polled } => if polled == slot {
                match poll_reply(h, slot) {
                    DeliveryView::Message(m) => seq![m] + rest,
                    _ => rest,
                }
            } else {
                rest
            },
            _ => rest,
        }
    }
}

/// The messages pushed to the stream of the subscriber in `slot` while it
/// is attached to that stream, in push order, as `ops` run.
pub open spec fn pushed_while_attached(h: HubView, ops: Seq<HubOp>, slot: int) -> Seq<Seq<char>>
    decreases ops.len(),
{
    if ops.len() == 0 || !taken(h, slot) {
        Seq::empty()
    } else {
        let rest = pushed_while_attached(hub_step(h, ops[0]), ops.drop_first(), slot);
        match ops[0] {
            HubOp::Push { job_id, msg } => if h.open.contains(job_id) && h.slots[slot]->0.job_id
                == job_id && h.slots[slot]->0.state == SubscriberState::Live {
                seq![msg] + rest
            } else {
                rest
            },
            _ => rest,
        }
    }
}

/// `a` is an initial segment of `b`.
pub open spec fn is_prefix(a: Seq<Seq<char>>, b: Seq<Seq<char>>) -> bool {
    &&& a.len() <= b.len()
    &&& forall|i: int| 0 <= i < a.len() ==> a[i] == b[i]
}

/// The invariant of the hub holds after every operation.
pub proof fn lemma_hub_step_wf(h: HubView, op: HubOp)
    requires
        hub_wf(h),
    ensures
        hub_wf(hub_step(h, op)),
{
    let after = hub_step(h, op);
    match op {
        HubOp::Subscribe { job_id } => {
            lemma_first_free(h.slots);
            assert forall|i: int| 0 <= i < after.slots.len() implies (#[trigger] after.slots[i] matches Some(
                sub,
            ) ==> {
                &&& sub.queue.len() <= STREAM_CAPACITY
                &&& sub.state == SubscriberState::Live ==> after.open.contains(sub.job_id)
                &&& sub.state == SubscriberState::Evicted ==> sub.queue.len() == 0
            }) by {
                if i < h.slots.len() && i != first_free(h.slots) {
                    assert(after.slots[i] == h.slots[i]);
                }
            }
        },
        _ => {
            assert forall|i: int| 0 <= i < after.slots.len() implies (#[trigger] after.slots[i] matches Some(
                sub,
            ) ==> {
                &&& sub.queue.len() <= STREAM_CAPACITY
                &&& sub.state == SubscriberState::Live ==> after.open.contains(sub.job_id)
                &&& sub.state == SubscriberState::Evicted ==> sub.queue.len() == 0
            }) by {
            }
        },
    }
}

/// An evicted subscriber receives nothing more.
proof fn lemma_evicted_receives_nothing(h: HubView, ops: Seq<HubOp>, slot: int)
    requires
        hub_wf(h),
        taken(h, slot),
        h.slots[slot]->0.state == SubscriberState::Evicted,
    ensures
        received(h, ops, slot) == Seq::<Seq<char>>::empty(),
    decreases ops.len(),
{
    if ops.len() > 0 {
        let next = hub_step(h, ops[0]);
        lemma_hub_step_wf(h, ops[0]);
        lemma_first_free(h.slots);
        if taken(next, slot) {
            assert(next.slots[slot]->0.state == SubscriberState::Evicted);
            lemma_evicted_receives_nothing(next, ops.drop_first(), slot);
        }
        let rest = received(next, ops.drop_first(), slot);
        assert(rest == Seq::<Seq<char>>::empty());
        assert(poll_reply(h, slot) == DeliveryView::Evicted);
        assert(received(h, ops, slot) == rest);
    }
}

/// Log ordering: what a subscriber receives is an initial segment of what
/// it had queued followed by the messages pushed to its stream while it
/// was attached, in push order. Eviction and removal of the stream can cut
/// the sequence short; nothing is reordered, repeated or skipped.
pub proof fn law_delivery_preserves_push_order(h: HubView, ops: Seq<HubOp>, slot: int)
    requires
        hub_wf(h),
        taken(h, slot),
    ensures
        is_prefix(
            received(h, ops, slot),
            h.slots[slot]->0.queue + pushed_while_attached(h, ops, slot),
        ),
    decreases ops.len(),
{
    if ops.len() > 0 {
        let sub = h.slots[slot]->0;
        let next = hub_step(h, ops[0]);
        let tail = ops.drop_first();
        lemma_hub_step_wf(h, ops[0]);
        lemma_first_free(h.slots);
        if taken(next, slot) {
            let sub2 = next.slots[slot]->0;
            law_delivery_preserves_push_order(next, tail, slot);
            let got = received(next, tail, slot);
            let fed = pushed_while_attached(next, tail, slot);
            assert(is_prefix(got, sub2.queue + fed));
            match ops[0] {
                HubOp::Poll { slot: polled } => {
                    if polled == slot {
                        match poll_reply(h, slot) {
                            DeliveryView::Message(m) => {
                                assert(sub.queue == seq![m] + sub2.queue);
                                assert(sub.queue + fed =~= seq![m] + (sub2.queue + fed));
                                assert forall|i: int| 0 <= i < (seq![m] + got).len() implies (seq![m]
                                    + got)[i] == (sub.queue + fed)[i] by {
                                    if i > 0 {
                                        assert((seq![m] + got)[i] == got[i - 1]);
                                        assert((sub2.queue + fed)[i - 1] == got[i - 1]);
                                    }
                                }
                            },
                            _ => {
                                assert(sub2 == sub);
                            },
                        }
                    } else {
                        assert(sub2 == sub);
                    }
                },
                HubOp::Push { job_id, msg } => {
                    if h.open.contains(job_id) && sub.job_id == job_id && sub.state
                        == SubscriberState::Live {
                        if sub.queue.len() >= STREAM_CAPACITY {
                            lemma_evicted_receives_nothing(next, tail, slot);
                        } else {
                            assert(sub2.queue == sub.queue.push(msg));
                            assert(sub2.queue + fed =~= sub.queue + (seq![msg] + fed));
                        }
                    } else {
                        assert(sub2 == sub);
                    }
                },
                HubOp::RemoveStream { job_id } => {
                    assert(sub2.queue == sub.queue);
                },
                HubOp::Subscribe { job_id } => {
                    assert(sub2 == sub);
                },
                HubOp::CreateStream { job_id } => {
                    assert(sub2 == sub);
                },
                HubOp::Unsubscribe { slot: left } => {
                    assert(sub2 == sub);
                },
            }
        } else {
            assert(received(next, tail, slot) == Seq::<Seq<char>>::empty());
            match ops[0] {
                HubOp::Poll { slot: polled } => {
                    if polled == slot {
                        assert(!(poll_reply(h, slot) is Message));
                    }
                },
                _ => {},
            }
        }
    }
}

/// The hub after a sequence of operations, applied in order.
pub open spec fn hub_run(h: HubView, ops: Seq<HubOp>) -> HubView
    decreases ops.len(),
{
    if ops.len() == 0 {
        h
    } else {
        hub_run(hub_step(h, ops[0]), ops.drop_first())
    }
}

/// Whether the subscriber in `slot` holds its slot all the while `ops`
/// run.
pub open spec fn stays(h: HubView, ops: Seq<HubOp>, slot: int) -> bool
    decreases ops.len(),
{
    taken(h, slot) && (ops.len() == 0 || stays(hub_step(h, ops[0]), ops.drop_first(), slot))
}

/// A subscriber that was evicted and holds its slot is evicted still.
proof fn lemma_evicted_stays_evicted(h: HubView, ops: Seq<HubOp>, slot: int)
    requires
        hub_wf(h),
        stays(h, ops, slot),
        h.slots[slot]->0.state == SubscriberState::Evicted,
    ensures
        hub_run(h, ops).slots[slot]->0.state == SubscriberState::Evicted,
    decreases ops.len(),
{
    if ops.len() > 0 {
        let next = hub_step(h, ops[0]);
        lemma_hub_step_wf(h, ops[0]);
        lemma_first_free(h.slots);
        assert(stays(next, ops.drop_first(), slot));
        assert(taken(next, slot));
        lemma_evicted_stays_evicted(next, ops.drop_first(), slot);
    }
}

/// Nothing is lost: for a subscriber that keeps its slot and is not
/// evicted, what it has received, followed by what it still has queued, is
/// exactly what it had queued at first followed by every message pushed to
/// its stream while it was attached, in push order.
pub proof fn law_every_push_is_delivered_or_queued(h: HubView, ops: Seq<HubOp>, slot: int)
    requires
        hub_wf(h),
        stays(h, ops, slot),
        hub_run(h, ops).slots[slot]->0.state != SubscriberState::Evicted,
    ensures
        taken(hub_run(h, ops), slot),
        received(h, ops, slot) + hub_run(h, ops).slots[slot]->0.queue == h.slots[slot]->0.queue
            + pushed_while_attached(h, ops, slot),
    decreases ops.len(),
{
    let sub = h.slots[slot]->0;
    if ops.len() == 0 {
        assert(received(h, ops, slot) + sub.queue =~= sub.queue + pushed_while_attached(
            h,
            ops,
            slot,
        ));
    } else {
        let next = hub_step(h, ops[0]);
        let tail = ops.drop_first();
        lemma_hub_step_wf(h, ops[0]);
        lemma_first_free(h.slots);
        assert(stays(next, tail, slot));
        assert(taken(next, slot));
        let sub2 = next.slots[slot]->0;
        if sub2.state == SubscriberState::Evicted {
            lemma_evicted_stays_evicted(next, tail, slot);
        }
        law_every_push_is_delivered_or_queued(next, tail, slot);
        let last = hub_run(next, tail).slots[slot]->0.queue;
        let got = received(next, tail, slot);
        let fed = pushed_while_attached(next, tail, slot);
        assert(got + last == sub2.queue + fed);
        match ops[0] {
            HubOp::Poll { slot: polled } => {
                if polled == slot {
                    match poll_reply(h, slot) {
                        DeliveryView::Message(m) => {
                            assert(sub.queue =~= seq![m] + sub2.queue);
                            assert((seq![m] + got) + last =~= seq![m] + (got + last));
                            assert(sub.queue + fed =~= seq![m] + (sub2.queue + fed));
                        },
                        _ => {
                            assert(sub2 == sub);
                        },
                    }
                } else {
                    assert(sub2 == sub);
                }
            },
            HubOp::Push { job_id, msg } => {
                if h.open.contains(job_id) && sub.job_id == job_id && sub.state
                    == SubscriberState::Live {
                    assert(sub2.queue == sub.queue.push(msg));
                    assert(sub2.queue + fed =~= sub.queue + (seq![msg] + fed));
                } else {
                    assert(sub2 == sub);
                }
            },
            HubOp::RemoveStream { job_id } => {
                assert(sub2.queue == sub.queue);
            },
            HubOp::Subscribe { job_id } => {
                assert(sub2 == sub);
            },
            HubOp::CreateStream { job_id } => {
                assert(sub2 == sub);
            },
            HubOp::Unsubscribe { slot: left } => {
                assert(sub2 == sub);
            },
        }
    }
}

/// A subscriber that joins sees only what is pushed after it joined: what
/// it receives is an initial segment of the later pushes to its stream.
pub proof fn law_late_joiner_sees_later_pushes_only(h: HubView, job_id: u128, ops: Seq<HubOp>)
    requires
        hub_wf(h),
        h.open.contains(job_id),
    ensures
        taken(after_subscribe(h, job_id), first_free(h.slots)),
        is_prefix(
            received(after_subscribe(h, job_id), ops, first_free(h.slots)),
            pushed_while_attached(after_subscribe(h, job_id), ops, first_free(h.slots)),
        ),
{
    let slot = first_free(h.slots);
    let joined = after_subscribe(h, job_id);
    lemma_first_free(h.slots);
    lemma_hub_step_wf(h, HubOp::Subscribe { job_id });
    law_delivery_preserves_push_order(joined, ops, slot);
    assert(joined.slots[slot]->0.queue + pushed_while_attached(joined, ops, slot)
        =~= pushed_while_attached(joined, ops, slot));
}

/// After its stream is removed a job admits no subscriber, and pushes for
/// it are dropped without effect.
pub proof fn law_removed_stream_is_gone(h: HubView, job_id: u128, msg: Seq<char>)
    requires
        hub_wf(h),
    ensures
        !after_remove_stream(h, job_id).open.contains(job_id),
        after_subscribe(after_remove_stream(h, job_id), job_id) == after_remove_stream(h, job_id),
        after_push(after_remove_stream(h, job_id), job_id, msg) == after_remove_stream(h, job_id),
{
}

/// Creating a stream is idempotent.
pub proof fn law_create_stream_is_idempotent(h: HubView, job_id: u128)
    ensures
        after_create_stream(after_create_stream(h, job_id), job_id) == after_create_stream(
            h,
            job_id,
        ),
{
    assert(h.open.insert(job_id).insert(job_id) =~= h.open.insert(job_id));
}

} // verus!
