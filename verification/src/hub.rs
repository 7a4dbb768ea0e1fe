//! The hub: one bounded channel from every publisher to every consumer.
//!
//! The hub keeps the last `capacity` events. A consumer holds a handle that
//! remembers how far it has read. A publisher never waits: when a consumer
//! is too slow, the oldest events are overwritten, and that consumer's next
//! read reports how many it has lost and goes on from the oldest event that
//! is still there.

use vstd::arithmetic::div_mod::{lemma_fundamental_div_mod, lemma_mod_bound, lemma_small_mod};
use vstd::prelude::*;

verus! {

/// How many events a hub keeps where nothing else was asked for.
pub const DEFAULT_CAPACITY: usize = 64;

/// What a read from the hub brings.
pub enum Received<'a, T> {
    /// The next event.
    Event(&'a T),
    /// So many events were overwritten before the handle came to them.
    Lagged(u64),
    /// Nothing new yet.
    Empty,
}

/// What a read brings, as a value.
pub enum ReceivedView<T> {
    Event(T),
    Lagged(nat),
    Empty,
}

impl<'a, T> View for Received<'a, T> {
    type V = ReceivedView<T>;

    open spec fn view(&self) -> ReceivedView<T> {
        match *self {
            Received::Event(event) => ReceivedView::Event(*event),
            Received::Lagged(lost) => ReceivedView::Lagged(lost as nat),
            Received::Empty => ReceivedView::Empty,
        }
    }
}

/// The hub as a value: every event that it ever took, in order, of which
/// the last `capacity` are still there.
pub struct HubModel<T> {
    pub capacity: nat,
    pub history: Seq<T>,
    pub subscribers: nat,
}

impl<T> HubModel<T> {
    /// A hub that has seen nothing.
    pub open spec fn empty(capacity: nat) -> HubModel<T> {
        HubModel { capacity, history: Seq::empty(), subscribers: 0 }
    }

    /// The position of the oldest event that is still there.
    pub open spec fn oldest(self) -> nat {
        if self.history.len() > self.capacity {
            (self.history.len() - self.capacity) as nat
        } else {
            0
        }
    }

    /// The hub after `event` was published: with no subscriber the event is
    /// dropped.
    pub open spec fn publish(self, event: T) -> HubModel<T> {
        if self.subscribers == 0 {
            self
        } else {
            HubModel { history: self.history.push(event), ..self }
        }
    }

    /// The hub after one more consumer has subscribed.
    pub open spec fn subscribe(self) -> HubModel<T> {
        HubModel { subscribers: self.subscribers + 1, ..self }
    }

    /// The hub after one consumer has left.
    pub open spec fn unsubscribe(self) -> HubModel<T> {
        HubModel {
            subscribers: if self.subscribers > 0 {
                (self.subscribers - 1) as nat
            } else {
                0
            },
            ..self
        }
    }

    /// What a handle at `position` reads.
    pub open spec fn read(self, position: nat) -> ReceivedView<T> {
        if position < self.oldest() {
            ReceivedView::Lagged((self.oldest() - position) as nat)
        } else if position < self.history.len() {
            ReceivedView::Event(self.history[position as int])
        } else {
            ReceivedView::Empty
        }
    }

    /// Where a handle at `position` stands after it has read.
    pub open spec fn advance(self, position: nat) -> nat {
        if position < self.oldest() {
            self.oldest()
        } else if position < self.history.len() {
            position + 1
        } else {
            position
        }
    }
}

/// A consumer's place in the hub's events.
#[derive(Debug)]
pub struct ReceiveHandle {
    next: u64,
}

impl View for ReceiveHandle {
    type V = nat;

    closed spec fn view(&self) -> nat {
        self.next as nat
    }
}

/// The hub.
pub struct Hub<T> {
    capacity: usize,
    ring: Vec<T>,
    published: u64,
    subscribers: usize,
    history: Ghost<Seq<T>>,
}

impl<T> View for Hub<T> {
    type V = HubModel<T>;

    closed spec fn view(&self) -> HubModel<T> {
        HubModel {
            capacity: self.capacity as nat,
            history: self.history@,
            subscribers: self.subscribers as nat,
        }
    }
}

impl<T> Hub<T> {
    /// What holds of every hub that this module hands out.
    pub closed spec fn wf(&self) -> bool {
        &&& self.capacity > 0
        &&& self.published == self.history@.len()
        &&& self.ring.len() == (if self.published < self.capacity {
            self.published as int
        } else {
            self.capacity as int
        })
        &&& forall|position: int|
            self@.oldest() <= position < self.published ==> self.ring[position % (
            self.capacity as int)] == self.history@[position]
    }

    /// A hub that keeps the last `capacity` events.
    pub fn new(capacity: usize) -> (hub: Hub<T>)
        requires
            capacity > 0,
        ensures
            hub.wf(),
            hub@ == HubModel::<T>::empty(capacity as nat),
    {
        Hub { capacity, ring: Vec::new(), published: 0, subscribers: 0, history: Ghost(Seq::empty()) }
    }

    /// How many events the hub keeps.
    pub fn capacity(&self) -> (capacity: usize)
        ensures
            capacity == self@.capacity,
    {
        self.capacity
    }

    /// How many consumers are subscribed.
    pub fn receiver_count(&self) -> (count: usize)
        ensures
            count == self@.subscribers,
    {
        self.subscribers
    }

    /// How many events the hub has taken since it was made.
    pub fn published(&self) -> (count: u64)
        requires
            self.wf(),
        ensures
            count == self@.history.len(),
    {
        self.published
    }

    /// Hands `event` to every consumer that is subscribed, and says how many
    /// there are. With none the event is dropped, which is no error. The
    /// publisher never waits for a consumer.
    pub fn publish(&mut self, event: T) -> (receivers: usize)
        requires
            old(self).wf(),
            old(self)@.history.len() < u64::MAX,
        ensures
            final(self).wf(),
            final(self)@ == old(self)@.publish(event),
            receivers == old(self)@.subscribers,
    {
        if self.subscribers == 0 {
            return 0;
        }
        let ghost before = *self;
        let ghost capacity = self.capacity as int;
        let slot = (self.published % (self.capacity as u64)) as usize;
        let full = self.ring.len() >= self.capacity;
        if full {
            self.ring[slot] = event;
        } else {
            self.ring.push(event);
        }
        self.published = self.published + 1;
        self.history = Ghost(self.history@.push(event));
        proof {
            assert forall|position: int|
                self@.oldest() <= position < self.published implies self.ring[position % capacity]
                == self.history@[position] by {
                lemma_mod_bound(position, capacity);
                if !full {
                    lemma_small_mod(position as nat, capacity as nat);
                }
                if position < before.published {
                    assert(before@.oldest() <= position);
                    assert(before.ring[position % capacity] == before.history@[position]);
                    if full {
                        lemma_slots_differ(position, before.published as int, capacity);
                    }
                }
            }
        }
        self.subscribers
    }

    /// Subscribes a consumer. Its handle starts behind the last event that
    /// the hub has taken, so it reads what is published from now on.
    pub fn subscribe(&mut self) -> (handle: ReceiveHandle)
        requires
            old(self).wf(),
            old(self)@.subscribers < usize::MAX,
        ensures
            final(self).wf(),
            final(self)@ == old(self)@.subscribe(),
            handle@ == old(self)@.history.len(),
    {
        self.subscribers = self.subscribers + 1;
        ReceiveHandle { next: self.published }
    }

    /// Takes a consumer's handle back.
    pub fn unsubscribe(&mut self, handle: ReceiveHandle)
        requires
            old(self).wf(),
        ensures
            final(self).wf(),
            final(self)@ == old(self)@.unsubscribe(),
    {
        if self.subscribers > 0 {
            self.subscribers = self.subscribers - 1;
        }
    }

    /// Reads the next event for `handle` and moves the handle on. A handle
    /// whose next event was overwritten learns how many events it lost and
    /// moves to the oldest one that is still there.
    pub fn recv<'a>(&'a self, handle: &mut ReceiveHandle) -> (received: Received<'a, T>)
        requires
            self.wf(),
        ensures
            received@ == self@.read(old(handle)@),
            final(handle)@ == self@.advance(old(handle)@),
    {
        let oldest = if self.published > self.capacity as u64 {
            self.published - self.capacity as u64
        } else {
            0
        };
        if handle.next < oldest {
            let lost = oldest - handle.next;
            handle.next = oldest;
            Received::Lagged(lost)
        } else if handle.next < self.published {
            let slot = (handle.next % (self.capacity as u64)) as usize;
            proof {
                if self.published < self.capacity {
                    lemma_small_mod(handle.next as nat, self.capacity as nat);
                }
            }
            let event = &self.ring[slot];
            handle.next = handle.next + 1;
            Received::Event(event)
        } else {
            Received::Empty
        }
    }
}

/// Two positions that are less than `capacity` apart lie in different slots.
proof fn lemma_slots_differ(low: int, high: int, capacity: int)
    requires
        0 <= low < high < low + capacity,
    ensures
        low % capacity != high % capacity,
{
    lemma_fundamental_div_mod(low, capacity);
    lemma_fundamental_div_mod(high, capacity);
    lemma_mod_bound(low, capacity);
    lemma_mod_bound(high, capacity);
    if low % capacity == high % capacity {
        let d = high / capacity - low / capacity;
        assert(high - low == capacity * d) by (nonlinear_arith)
            requires
                low == capacity * (low / capacity) + (low % capacity),
                high == capacity * (high / capacity) + (high % capacity),
                low % capacity == high % capacity,
                d == high / capacity - low / capacity,
        ;
        assert(false) by (nonlinear_arith)
            requires
                0 < high - low < capacity,
                high - low == capacity * d,
        ;
    }
}

/// One thing that happens to the hub while a consumer is watched: some
/// publisher hands in an event, or the consumer reads.
pub enum HubOp<T> {
    Publish(T),
    Receive,
}

/// A consumer under watch: the hub, the consumer's handle, and what went in
/// and came out since the consumer subscribed.
pub struct Watch<T> {
    pub hub: HubModel<T>,
    /// Where the handle stood when the consumer subscribed.
    pub since: nat,
    /// Where the handle stands.
    pub position: nat,
    /// The events that were published since then, in order.
    pub offered: Seq<T>,
    /// The events that the consumer has read, in order.
    pub delivered: Seq<T>,
    /// The place in the hub's history of each event that the consumer has read.
    pub places: Seq<nat>,
    /// Whether a read has reported lost events.
    pub lagged: bool,
}

impl<T> Watch<T> {
    /// The watch of a consumer that subscribes to `hub` now.
    pub open spec fn start(hub: HubModel<T>) -> Watch<T> {
        Watch {
            hub: hub.subscribe(),
            since: hub.history.len(),
            position: hub.history.len(),
            offered: Seq::empty(),
            delivered: Seq::empty(),
            places: Seq::empty(),
            lagged: false,
        }
    }

    /// The watch after `op`.
    pub open spec fn step(self, op: HubOp<T>) -> Watch<T> {
        match op {
            HubOp::Publish(event) => Watch {
                hub: self.hub.publish(event),
                offered: self.offered.push(event),
                ..self
            },
            HubOp::Receive => match self.hub.read(self.position) {
                ReceivedView::Event(event) => Watch {
                    position: self.hub.advance(self.position),
                    delivered: self.delivered.push(event),
                    places: self.places.push(self.position),
                    ..self
                },
                ReceivedView::Lagged(_) => Watch {
                    position: self.hub.advance(self.position),
                    lagged: true,
                    ..self
                },
                ReceivedView::Empty => self,
            },
        }
    }

    /// The watch after all of `ops`, in order.
    pub open spec fn run(self, ops: Seq<HubOp<T>>) -> Watch<T>
        decreases ops.len(),
    {
        if ops.len() == 0 {
            self
        } else {
            self.step(ops[0]).run(ops.drop_first())
        }
    }

    /// What holds of a watch at every moment.
    pub open spec fn consistent(self) -> bool {
        &&& self.hub.subscribers > 0
        &&& self.hub.capacity > 0
        &&& self.since + self.offered.len() == self.hub.history.len()
        &&& self.hub.history.skip(self.since as int) == self.offered
        &&& self.since <= self.position <= self.hub.history.len()
        &&& self.delivered.len() == self.places.len()
        &&& forall|i: int|
            0 <= i < self.places.len() ==> self.since <= #[trigger] self.places[i] < self.position
                && self.delivered[i] == self.hub.history[self.places[i] as int]
        &&& forall|i: int, j: int|
            0 <= i < j < self.places.len() ==> self.places[i] < self.places[j]
        &&& !self.lagged ==> self.position == self.since + self.delivered.len() && forall|i: int|
            0 <= i < self.places.len() ==> self.places[i] == self.since + i
    }
}

/// A step keeps a watch consistent.
proof fn lemma_step_consistent<T>(watch: Watch<T>, op: HubOp<T>)
    requires
        watch.consistent(),
    ensures
        watch.step(op).consistent(),
{
    let next = watch.step(op);
    match op {
        HubOp::Publish(event) => {
            assert(next.hub.history.skip(next.since as int) =~= next.offered);
        },
        HubOp::Receive => {
            assert(next.hub.history.skip(next.since as int) == next.offered);
        },
    }
}

/// Every run keeps a watch consistent.
pub proof fn lemma_run_consistent<T>(watch: Watch<T>, ops: Seq<HubOp<T>>)
    requires
        watch.consistent(),
    ensures
        watch.run(ops).consistent(),
    decreases ops.len(),
{
    if ops.len() > 0 {
        lemma_step_consistent(watch, ops[0]);
        lemma_run_consistent(watch.step(ops[0]), ops.drop_first());
    }
}

/// A consumer that subscribed before the first of a run of events and never
/// lagged has read them in the order in which they were published: what it
/// has read is the beginning of what was published.
pub proof fn lemma_delivered_in_order<T>(hub: HubModel<T>, ops: Seq<HubOp<T>>)
    requires
        hub.capacity > 0,
    ensures
        !Watch::start(hub).run(ops).lagged ==> Watch::start(hub).run(ops).delivered.is_prefix_of(
            Watch::start(hub).run(ops).offered,
        ),
{
    let start = Watch::start(hub);
    assert(start.hub.history.skip(start.since as int) =~= start.offered);
    lemma_run_consistent(start, ops);
    let end = start.run(ops);
    if !end.lagged {
        assert forall|i: int| 0 <= i < end.delivered.len() implies end.delivered[i]
            == end.offered[i] by {
            assert(end.places[i] == end.since + i);
            assert(end.hub.history.skip(end.since as int)[i] == end.hub.history[end.since + i]);
        }
        assert(end.delivered =~= end.offered.subrange(0, end.delivered.len() as int));
    }
}

/// Whether a consumer lags or not, it reads no event twice and none out of
/// order: each event that it reads lies later in the hub's history than the
/// one before, and is the event at that place.
pub proof fn lemma_no_duplicates<T>(hub: HubModel<T>, ops: Seq<HubOp<T>>)
    requires
        hub.capacity > 0,
    ensures
        ({
            let end = Watch::start(hub).run(ops);
            &&& end.delivered.len() == end.places.len()
            &&& forall|i: int, j: int| 0 <= i < j < end.places.len() ==> end.places[i] < end.places[j]
            &&& forall|i: int|
                0 <= i < end.places.len() ==> end.places[i] < end.hub.history.len()
                    && end.delivered[i] == end.hub.history[end.places[i] as int]
        }),
{
    let start = Watch::start(hub);
    assert(start.hub.history.skip(start.since as int) =~= start.offered);
    lemma_run_consistent(start, ops);
}

/// A handle whose next event was overwritten is told how many events it
/// lost, moves to the oldest event that is still there, and reads that one
/// next.
pub proof fn lemma_resumes_at_oldest<T>(hub: HubModel<T>, position: nat)
    requires
        hub.capacity > 0,
        position < hub.oldest(),
    ensures
        hub.read(position) == ReceivedView::<T>::Lagged((hub.oldest() - position) as nat),
        hub.advance(position) == hub.oldest(),
        hub.read(hub.oldest()) == ReceivedView::Event(hub.history[hub.oldest() as int]),
{
}

/// With no consumer subscribed, a published event is dropped and the hub is
/// as it was; with one or more, the event is the last of the hub's history.
/// Either way the handles of the consumers play no part.
pub proof fn lemma_publish_never_waits<T>(hub: HubModel<T>, event: T)
    ensures
        hub.subscribers == 0 ==> hub.publish(event) == hub,
        hub.subscribers > 0 ==> hub.publish(event).history == hub.history.push(event),
{
}

} // verus!
