//! The log fan-out hub: one stream per job, any number of subscribers.
//!
//! A stream exists from its creation to its removal. A subscriber joins an
//! existing stream and from then on gets, in push order, every message that
//! is pushed to it. Each subscriber has a bounded queue of undelivered
//! messages; one that falls a full queue behind is evicted. When a stream
//! is removed its subscribers drain what they still have queued and are
//! then told that the stream is closed.

use vstd::prelude::*;

verus! {

/// How many undelivered messages a subscriber may have queued.
pub const STREAM_CAPACITY: usize = 1000;

/// Where a subscriber stands.
#[derive(Debug, Clone, Copy, PartialEq, Eq, Structural)]
pub enum SubscriberState {
    /// Attached to an existing stream.
    Live,
    /// Dropped for lagging a full queue behind.
    Evicted,
    /// The stream was removed; the queue is being drained.
    Closed,
}

/// The mathematical value of one subscriber.
pub ghost struct SubscriberView {
    pub job_id: u128,
    pub queue: Seq<Seq<char>>,
    pub state: SubscriberState,
}

/// The mathematical value of the hub: the jobs that have a stream, and the
/// subscriber slots, free (`None`) or taken.
pub ghost struct HubView {
    pub open: Set<u128>,
    pub slots: Seq<Option<SubscriberView>>,
}

/// What a poll hands to a subscriber, as a mathematical value.
pub ghost enum DeliveryView {
    Message(Seq<char>),
    Pending,
    Evicted,
    Closed,
    Unknown,
}

/// What a poll hands to a subscriber.
#[derive(Debug)]
pub enum Delivery {
    /// The next message, in push order.
    Message(String),
    /// Nothing is queued; the stream still exists.
    Pending,
    /// The subscriber lagged a full queue behind and was dropped.
    Evicted,
    /// The stream was removed and everything queued has been delivered.
    Closed,
    /// The slot is not taken.
    Unknown,
}

impl View for Delivery {
    type V = DeliveryView;

    open spec fn view(&self) -> DeliveryView {
        match self {
            Delivery::Message(m) => DeliveryView::Message(m@),
            Delivery::Pending => DeliveryView::Pending,
            Delivery::Evicted => DeliveryView::Evicted,
            Delivery::Closed => DeliveryView::Closed,
            Delivery::Unknown => DeliveryView::Unknown,
        }
    }
}

/// A fresh subscriber of a job's stream.
pub open spec fn joined(job_id: u128) -> SubscriberView {
    SubscriberView { job_id, queue: Seq::empty(), state: SubscriberState::Live }
}

/// What a push to `job_id` does to one subscriber: a live subscriber of
/// that job queues the message, or is evicted where its queue is full.
pub open spec fn fan_out(sub: SubscriberView, job_id: u128, msg: Seq<char>) -> SubscriberView {
    if sub.job_id == job_id && sub.state == SubscriberState::Live {
        if sub.queue.len() >= STREAM_CAPACITY {
            SubscriberView { queue: Seq::empty(), state: SubscriberState::Evicted, ..sub }
        } else {
            SubscriberView { queue: sub.queue.push(msg), ..sub }
        }
    } else {
        sub
    }
}

/// What the removal of the stream of `job_id` does to one subscriber: a
/// live subscriber of that job is closed and keeps its queue.
pub open spec fn close_out(sub: SubscriberView, job_id: u128) -> SubscriberView {
    if sub.job_id == job_id && sub.state == SubscriberState::Live {
        SubscriberView { state: SubscriberState::Closed, ..sub }
    } else {
        sub
    }
}

/// The invariant of the hub: a live subscriber's stream exists, no queue
/// exceeds the capacity, and an evicted subscriber has nothing queued.
pub open spec fn hub_wf(h: HubView) -> bool {
    forall|i: int|
        0 <= i < h.slots.len() ==> (#[trigger] h.slots[i] matches Some(sub) ==> {
            &&& sub.queue.len() <= STREAM_CAPACITY
            &&& sub.state == SubscriberState::Live ==> h.open.contains(sub.job_id)
            &&& sub.state == SubscriberState::Evicted ==> sub.queue.len() == 0
        })
}

/// The hub after a stream is created: an idempotent insert.
pub open spec fn after_create_stream(h: HubView, job_id: u128) -> HubView {
    HubView { open: h.open.insert(job_id), ..h }
}

/// The hub after a push: where the job has a stream, the message is fanned
/// out to its subscribers; where it has none, the message is dropped.
pub open spec fn after_push(h: HubView, job_id: u128, msg: Seq<char>) -> HubView {
    if h.open.contains(job_id) {
        HubView {
            slots: Seq::new(h.slots.len(), |i: int| fan_out_slot(h.slots[i], job_id, msg)),
            ..h
        }
    } else {
        h
    }
}

/// The hub after a stream is removed: its subscribers are closed.
pub open spec fn after_remove_stream(h: HubView, job_id: u128) -> HubView {
    HubView {
        open: h.open.remove(job_id),
        slots: Seq::new(h.slots.len(), |i: int| close_out_slot(h.slots[i], job_id)),
    }
}

/// `i` is the first free slot, or the number of slots where none is free.
pub open spec fn is_first_free(slots: Seq<Option<SubscriberView>>, i: int) -> bool {
    &&& 0 <= i <= slots.len()
    &&& i < slots.len() ==> slots[i] is None
    &&& forall|k: int| 0 <= k < i ==> (#[trigger] slots[k]) is Some
}

/// The first free slot, or the number of slots where none is free.
pub open spec fn first_free(slots: Seq<Option<SubscriberView>>) -> int {
    choose|i: int| is_first_free(slots, i)
}

/// Every sequence of slots has its first free slot, and only one.
pub proof fn lemma_first_free(slots: Seq<Option<SubscriberView>>)
    ensures
        is_first_free(slots, first_free(slots)),
        forall|i: int| is_first_free(slots, i) ==> i == first_free(slots),
{
    let i = lemma_free_from(slots, 0);
    assert(is_first_free(slots, i));
    assert forall|j: int| is_first_free(slots, j) implies j == first_free(slots) by {
        let f = first_free(slots);
        if j < f {
            assert(slots[j] is Some);
        } else if f < j {
            assert(slots[f] is Some);
        }
    }
}

proof fn lemma_free_from(slots: Seq<Option<SubscriberView>>, from: int) -> (i: int)
    requires
        0 <= from <= slots.len(),
        forall|k: int| 0 <= k < from ==> (#[trigger] slots[k]) is Some,
    ensures
        is_first_free(slots, i),
    decreases slots.len() - from,
{
    if from == slots.len() || slots[from] is None {
        from
    } else {
        lemma_free_from(slots, from + 1)
    }
}

/// The slot a subscription gets: the first free one, where the job has a
/// stream.
pub open spec fn subscribe_reply(h: HubView, job_id: u128) -> Option<int> {
    if h.open.contains(job_id) {
        Some(first_free(h.slots))
    } else {
        None
    }
}

/// The hub after a subscription request.
pub open spec fn after_subscribe(h: HubView, job_id: u128) -> HubView {
    if h.open.contains(job_id) {
        if first_free(h.slots) < h.slots.len() {
            HubView { slots: h.slots.update(first_free(h.slots), Some(joined(job_id))), ..h }
        } else {
            HubView { slots: h.slots.push(Some(joined(job_id))), ..h }
        }
    } else {
        h
    }
}

/// What a poll returns for the content of a slot.
pub open spec fn slot_reply(slot: Option<SubscriberView>) -> DeliveryView {
    match slot {
        Some(sub) => if sub.state == SubscriberState::Evicted {
            DeliveryView::Evicted
        } else if sub.queue.len() > 0 {
            DeliveryView::Message(sub.queue[0])
        } else if sub.state == SubscriberState::Closed {
            DeliveryView::Closed
        } else {
            DeliveryView::Pending
        },
        None => DeliveryView::Unknown,
    }
}

/// The content of a slot after a poll: a delivered message leaves the
/// queue; an evicted or closed-out subscriber gives up the slot.
pub open spec fn slot_after_poll(slot: Option<SubscriberView>) -> Option<SubscriberView> {
    match slot_reply(slot) {
        DeliveryView::Message(_) => Some(
            SubscriberView { queue: slot->0.queue.drop_first(), ..slot->0 },
        ),
        DeliveryView::Pending => slot,
        _ => None,
    }
}

/// What a poll of a slot returns.
pub open spec fn poll_reply(h: HubView, slot: int) -> DeliveryView {
    if 0 <= slot < h.slots.len() {
        slot_reply(h.slots[slot])
    } else {
        DeliveryView::Unknown
    }
}

/// The hub after a poll.
pub open spec fn after_poll(h: HubView, slot: int) -> HubView {
    if 0 <= slot < h.slots.len() {
        HubView { slots: h.slots.update(slot, slot_after_poll(h.slots[slot])), ..h }
    } else {
        h
    }
}

/// The hub after a subscriber leaves: its slot is free.
pub open spec fn after_unsubscribe(h: HubView, slot: int) -> HubView {
    if 0 <= slot < h.slots.len() {
        HubView { slots: h.slots.update(slot, None), ..h }
    } else {
        h
    }
}

struct Subscriber {
    job_id: u128,
    queue: Vec<String>,
    state: SubscriberState,
}

impl View for Subscriber {
    type V = SubscriberView;

    closed spec fn view(&self) -> SubscriberView {
        SubscriberView {
            job_id: self.job_id,
            queue: Seq::new(self.queue@.len(), |i: int| self.queue@[i]@),
            state: self.state,
        }
    }
}

impl Subscriber {
    fn accept(&mut self, job_id: u128, msg: &str)
        requires
            old(self)@.queue.len() <= STREAM_CAPACITY,
        ensures
            final(self)@ == fan_out(old(self)@, job_id, msg@),
    {
        if self.job_id == job_id && self.state == SubscriberState::Live {
            if self.queue.len() >= STREAM_CAPACITY {
                self.queue.clear();
                self.state = SubscriberState::Evicted;
                assert(self@.queue =~= Seq::<Seq<char>>::empty());
            } else {
                self.queue.push(String::from_str(msg));
                assert(self@.queue =~= old(self)@.queue.push(msg@));
            }
        }
    }
}

/// What a push to `job_id` does to one slot.
pub open spec fn fan_out_slot(slot: Option<SubscriberView>, job_id: u128, msg: Seq<char>) -> Option<
    SubscriberView,
> {
    match slot {
        Some(sub) => Some(fan_out(sub, job_id, msg)),
        None => None,
    }
}

/// What the removal of the stream of `job_id` does to one slot.
pub open spec fn close_out_slot(slot: Option<SubscriberView>, job_id: u128) -> Option<
    SubscriberView,
> {
    match slot {
        Some(sub) => Some(close_out(sub, job_id)),
        None => None,
    }
}

fn accept_in_slot(slot: &mut Option<Subscriber>, job_id: u128, msg: &str)
    requires
        slot_view(*old(slot)) matches Some(sub) ==> sub.queue.len() <= STREAM_CAPACITY,
    ensures
        slot_view(*final(slot)) == fan_out_slot(slot_view(*old(slot)), job_id, msg@),
{
    match slot {
        Some(sub) => {
            sub.accept(job_id, msg);
        },
        None => {},
    }
}

fn close_in_slot(slot: &mut Option<Subscriber>, job_id: u128)
    ensures
        slot_view(*final(slot)) == close_out_slot(slot_view(*old(slot)), job_id),
{
    match slot {
        Some(sub) => {
            if sub.job_id == job_id && sub.state == SubscriberState::Live {
                sub.state = SubscriberState::Closed;
            }
        },
        None => {},
    }
}

fn poll_slot(slot: &mut Option<Subscriber>) -> (r: Delivery)
    ensures
        r@ == slot_reply(slot_view(*old(slot))),
        slot_view(*final(slot)) == slot_after_poll(slot_view(*old(slot))),
{
    let reply = match slot {
        Some(sub) => {
            if sub.state == SubscriberState::Evicted {
                Delivery::Evicted
            } else if sub.queue.len() > 0 {
                let ghost before = sub@.queue;
                let msg = sub.queue.remove(0);
                assert(sub@.queue =~= before.drop_first());
                assert(msg@ == before[0]);
                Delivery::Message(msg)
            } else if sub.state == SubscriberState::Closed {
                Delivery::Closed
            } else {
                Delivery::Pending
            }
        },
        None => Delivery::Unknown,
    };
    match reply {
        Delivery::Evicted | Delivery::Closed => {
            *slot = None;
        },
        _ => {},
    }
    reply
}

/// The hub itself.
pub struct LogHub {
    streams: Vec<u128>,
    slots: Vec<Option<Subscriber>>,
}

spec fn slot_view(s: Option<Subscriber>) -> Option<SubscriberView> {
    match s {
        Some(sub) => Some(sub@),
        None => None,
    }
}

impl View for LogHub {
    type V = HubView;

    closed spec fn view(&self) -> HubView {
        HubView {
            open: self.streams@.to_set(),
            slots: Seq::new(self.slots@.len(), |i: int| slot_view(self.slots@[i])),
        }
    }
}

impl LogHub {
    /// The invariant of the hub.
    pub closed spec fn wf(&self) -> bool {
        &&& hub_wf(self@)
        &&& self.streams@.no_duplicates()
    }

    /// The invariant of the hub implies the invariant of its value.
    pub proof fn lemma_wf(&self)
        requires
            self.wf(),
        ensures
            hub_wf(self@),
    {
    }

    /// A hub without streams and without subscribers.
    pub fn new() -> (hub: LogHub)
        ensures
            hub.wf(),
            hub@.open == Set::<u128>::empty(),
            hub@.slots == Seq::<Option<SubscriberView>>::empty(),
    {
        let hub = LogHub { streams: Vec::new(), slots: Vec::new() };
        assert(hub@.open =~= Set::<u128>::empty());
        assert(hub@.slots =~= Seq::<Option<SubscriberView>>::empty());
        hub
    }

    fn stream_index(&self, job_id: u128) -> (found: Option<usize>)
        ensures
            match found {
                Some(i) => i < self.streams@.len() && self.streams@[i as int] == job_id
                    && self@.open.contains(job_id),
                None => !self@.open.contains(job_id),
            },
    {
        let mut i: usize = 0;
        while i < self.streams.len()
            invariant
                i <= self.streams.len(),
                forall|k: int| 0 <= k < i ==> self.streams@[k] != job_id,
            decreases self.streams.len() - i,
        {
            if self.streams[i] == job_id {
                assert(self.streams@.contains(job_id));
                return Some(i);
            }
            i += 1;
        }
        None
    }

    /// Whether the job has a stream.
    pub fn has_stream(&self, job_id: u128) -> (yes: bool)
        ensures
            yes == self@.open.contains(job_id),
    {
        self.stream_index(job_id).is_some()
    }

    /// Creates the stream of a job. Where it exists already nothing changes.
    pub fn create_stream(&mut self, job_id: u128)
        requires
            old(self).wf(),
        ensures
            final(self).wf(),
            final(self)@ == after_create_stream(old(self)@, job_id),
    {
        if self.stream_index(job_id).is_none() {
            let ghost before = self.streams@;
            self.streams.push(job_id);
            proof {
                before.lemma_push_to_set_commute(job_id);
                assert(self.streams@ == before.push(job_id));
                assert(self@.slots =~= old(self)@.slots);
            }
        } else {
            assert(old(self)@.open.insert(job_id) =~= old(self)@.open);
        }
    }
    /// Pushes a message to the stream of a job. Every live subscriber of
    /// the job queues it; one whose queue is full is evicted instead. Where
    /// the job has no stream the message is dropped. Returns whether the job
    /// has a stream.
    pub fn push(&mut self, job_id: u128, msg: &str) -> (accepted: bool)
        requires
            old(self).wf(),
        ensures
            final(self).wf(),
            final(self)@ == after_push(old(self)@, job_id, msg@),
            accepted == old(self)@.open.contains(job_id),
    {
        if self.stream_index(job_id).is_none() {
            return false;
        }
        let ghost before = self@;
        let ghost was = self.slots@;
        let mut i: usize = 0;
        while i < self.slots.len()
            invariant
                i <= self.slots@.len(),
                self.slots@.len() == was.len(),
                self.streams@ == old(self).streams@,
                was == old(self).slots@,
                old(self).wf(),
                forall|k: int|
                    0 <= k < i ==> slot_view(#[trigger] self.slots@[k]) == fan_out_slot(
                        slot_view(was[k]),
                        job_id,
                        msg@,
                    ),
                forall|k: int| i <= k < was.len() ==> #[trigger] self.slots@[k] == was[k],
            decreases self.slots@.len() - i,
        {
            assert(slot_view(was[i as int]) == old(self)@.slots[i as int]);
            accept_in_slot(&mut self.slots[i], job_id, msg);
            i += 1;
        }
        proof {
            assert(self@.open == before.open);
            assert forall|k: int| 0 <= k < was.len() implies #[trigger] self@.slots[k]
                == fan_out_slot(before.slots[k], job_id, msg@) by {
                assert(slot_view(self.slots@[k]) == fan_out_slot(slot_view(was[k]), job_id, msg@));
            }
            assert(self@.slots =~= after_push(before, job_id, msg@).slots);
            assert forall|k: int| 0 <= k < self@.slots.len() implies (#[trigger] self@.slots[k] matches Some(
                sub,
            ) ==> {
                &&& sub.queue.len() <= STREAM_CAPACITY
                &&& sub.state == SubscriberState::Live ==> self@.open.contains(sub.job_id)
                &&& sub.state == SubscriberState::Evicted ==> sub.queue.len() == 0
            }) by {
                assert(self@.slots[k] == fan_out_slot(before.slots[k], job_id, msg@));
            }
        }
        true
    }
    /// Subscribes to the stream of a job. Where the stream exists the
    /// subscriber takes the first free slot, with nothing queued, and the
    /// slot is returned; it sees the messages pushed from now on. Where the
    /// job has no stream, `None` is returned and nothing changes.
    pub fn subscribe(&mut self, job_id: u128) -> (slot: Option<usize>)
        requires
            old(self).wf(),
        ensures
            final(self).wf(),
            final(self)@ == after_subscribe(old(self)@, job_id),
            match slot {
                Some(i) => subscribe_reply(old(self)@, job_id) == Some(i as int),
                None => subscribe_reply(old(self)@, job_id) is None,
            },
    {
        if self.stream_index(job_id).is_none() {
            return None;
        }
        let ghost before = self@;
        let mut i: usize = 0;
        while i < self.slots.len() && self.slots[i].is_some()
            invariant
                i <= self.slots@.len(),
                forall|k: int| 0 <= k < i ==> (#[trigger] self.slots@[k]) is Some,
            decreases self.slots@.len() - i,
        {
            i += 1;
        }
        proof {
            assert forall|k: int| 0 <= k < i implies (#[trigger] before.slots[k]) is Some by {
                assert(self.slots@[k] is Some);
            }
            assert(is_first_free(before.slots, i as int));
            lemma_first_free(before.slots);
        }
        let sub = Subscriber { job_id, queue: Vec::new(), state: SubscriberState::Live };
        assert(sub@.queue =~= Seq::<Seq<char>>::empty());
        assert(sub@ == joined(job_id));
        if i < self.slots.len() {
            self.slots.set(i, Some(sub));
            assert(self@.slots =~= before.slots.update(i as int, Some(joined(job_id))));
        } else {
            self.slots.push(Some(sub));
            assert(self@.slots =~= before.slots.push(Some(joined(job_id))));
        }
        Some(i)
    }

    /// Removes the stream of a job. Its live subscribers are closed out:
    /// each still gets what it has queued and is then told that the stream
    /// is closed. Later subscriptions find no stream.
    pub fn remove_stream(&mut self, job_id: u128)
        requires
            old(self).wf(),
        ensures
            final(self).wf(),
            final(self)@ == after_remove_stream(old(self)@, job_id),
    {
        let ghost before = self@;
        let ghost names = self.streams@;
        match self.stream_index(job_id) {
            Some(i) => {
                self.streams.remove(i);
                proof {
                    let now = self.streams@;
                    assert(now == names.remove(i as int));
                    assert forall|x: int, y: int|
                        0 <= x < now.len() && 0 <= y < now.len() && x != y implies now[x]
                        != now[y] by {
                        let px = if x < i { x } else { x + 1 };
                        let py = if y < i { y } else { y + 1 };
                        assert(now[x] == names[px] && now[y] == names[py]);
                    }
                    assert forall|v: u128| now.contains(v) <==> (names.contains(v) && v
                        != job_id) by {
                        if now.contains(v) {
                            let x = choose|x: int| 0 <= x < now.len() && now[x] == v;
                            let px = if x < i { x } else { x + 1 };
                            assert(names[px] == v);
                        }
                        if names.contains(v) && v != job_id {
                            let px = choose|px: int| 0 <= px < names.len() && names[px] == v;
                            let x = if px < i { px } else { px - 1 };
                            assert(now[x] == v);
                        }
                    }
                    assert(now.to_set() =~= names.to_set().remove(job_id));
                }
            },
            None => {
                assert(names.to_set().remove(job_id) =~= names.to_set());
            },
        }
        let ghost was = self.slots@;
        let mut i: usize = 0;
        while i < self.slots.len()
            invariant
                i <= self.slots@.len(),
                self.slots@.len() == was.len(),
                self.streams@.to_set() == before.open.remove(job_id),
                self.streams@.no_duplicates(),
                was == old(self).slots@,
                forall|k: int|
                    0 <= k < i ==> slot_view(#[trigger] self.slots@[k]) == close_out_slot(
                        slot_view(was[k]),
                        job_id,
                    ),
                forall|k: int| i <= k < was.len() ==> #[trigger] self.slots@[k] == was[k],
            decreases self.slots@.len() - i,
        {
            close_in_slot(&mut self.slots[i], job_id);
            i += 1;
        }
        proof {
            assert forall|k: int| 0 <= k < was.len() implies #[trigger] self@.slots[k]
                == close_out_slot(before.slots[k], job_id) by {
                assert(slot_view(self.slots@[k]) == close_out_slot(slot_view(was[k]), job_id));
            }
            assert(self@.slots =~= after_remove_stream(before, job_id).slots);
            assert forall|k: int| 0 <= k < self@.slots.len() implies (#[trigger] self@.slots[k] matches Some(
                sub,
            ) ==> {
                &&& sub.queue.len() <= STREAM_CAPACITY
                &&& sub.state == SubscriberState::Live ==> self@.open.contains(sub.job_id)
                &&& sub.state == SubscriberState::Evicted ==> sub.queue.len() == 0
            }) by {
                assert(self@.slots[k] == close_out_slot(before.slots[k], job_id));
            }
        }
    }

    /// Takes the next delivery of a subscriber: its oldest queued message;
    /// or `Pending` where nothing is queued and the stream exists; or
    /// `Closed` where nothing is queued and the stream was removed; or
    /// `Evicted` where the subscriber had lagged a full queue behind. After
    /// `Closed` and `Evicted` the slot is free. A slot that is not taken
    /// gives `Unknown`.
    pub fn poll(&mut self, slot: usize) -> (r: Delivery)
        requires
            old(self).wf(),
        ensures
            final(self).wf(),
            final(self)@ == after_poll(old(self)@, slot as int),
            r@ == poll_reply(old(self)@, slot as int),
    {
        if slot >= self.slots.len() {
            return Delivery::Unknown;
        }
        let ghost before = self@;
        let r = poll_slot(&mut self.slots[slot]);
        proof {
            assert(self@.slots =~= before.slots.update(slot as int, slot_after_poll(before.slots[slot as int])));
            assert forall|k: int| 0 <= k < self@.slots.len() implies (#[trigger] self@.slots[k] matches Some(
                sub,
            ) ==> {
                &&& sub.queue.len() <= STREAM_CAPACITY
                &&& sub.state == SubscriberState::Live ==> self@.open.contains(sub.job_id)
                &&& sub.state == SubscriberState::Evicted ==> sub.queue.len() == 0
            }) by {
                if k != slot as int {
                    assert(self@.slots[k] == before.slots[k]);
                }
            }
        }
        r
    }

    /// Gives up a subscription: the slot is free, whatever was queued.
    pub fn unsubscribe(&mut self, slot: usize)
        requires
            old(self).wf(),
        ensures
            final(self).wf(),
            final(self)@ == after_unsubscribe(old(self)@, slot as int),
    {
        if slot < self.slots.len() {
            let ghost before = self@;
            self.slots.set(slot, None);
            proof {
                assert(self@.slots =~= before.slots.update(slot as int, None));
                assert forall|k: int| 0 <= k < self@.slots.len() implies (#[trigger] self@.slots[k] matches Some(
                    sub,
                ) ==> {
                    &&& sub.queue.len() <= STREAM_CAPACITY
                    &&& sub.state == SubscriberState::Live ==> self@.open.contains(sub.job_id)
                    &&& sub.state == SubscriberState::Evicted ==> sub.queue.len() == 0
                }) by {
                    if k != slot as int {
                        assert(self@.slots[k] == before.slots[k]);
                    }
                }
            }
        }
    }
}

} // verus!
