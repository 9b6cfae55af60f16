//! The event bus: a single-process broadcast of change events. Each
//! subscriber owns an independent bounded queue of future-only events; a
//! publish appends to every open queue, evicting the oldest pending
//! event of a full one (drop-oldest), so a slow subscriber loses its
//! stalest events and never delays the publisher or its peers.

use vstd::prelude::*;

use crate::gateway::ChangeEvent;

verus! {

/// The ghost state of one subscriber: its pending events, oldest first,
/// and whether the subscription is still open.
pub struct SubscriberView {
    pub queue: Seq<ChangeEvent>,
    pub open: bool,
}

/// The ghost state of the bus: every subscription ever made (closed ones
/// keep their slot so identifiers stay stable) and the per-subscriber
/// queue capacity.
pub struct BusView {
    pub subs: Seq<SubscriberView>,
    pub capacity: nat,
}

/// What `subscribe` does: appends a fresh, open, empty queue. The new
/// subscriber starts with no backlog, so events published earlier are
/// never replayed to it.
pub open spec fn spec_subscribe(b: BusView) -> BusView {
    BusView { subs: b.subs.push(SubscriberView { queue: Seq::empty(), open: true }), ..b }
}

/// What `publish` does to one subscriber: an open queue with room gets
/// the event appended; a full open queue loses its oldest pending event
/// to make room (drop-oldest); a closed queue is left alone. The
/// publisher never waits either way.
pub open spec fn spec_deliver(s: SubscriberView, capacity: nat, e: ChangeEvent) -> SubscriberView {
    if !s.open {
        s
    } else if s.queue.len() < capacity {
        SubscriberView { queue: s.queue.push(e), ..s }
    } else if capacity > 0 {
        SubscriberView { queue: s.queue.drop_first().push(e), ..s }
    } else {
        s
    }
}

/// What `publish` does: delivers the event to every subscriber
/// independently.
pub open spec fn spec_publish(b: BusView, e: ChangeEvent) -> BusView {
    BusView { subs: Seq::new(b.subs.len(), |i: int| spec_deliver(b.subs[i], b.capacity, e)), ..b }
}

/// What `unsubscribe` does: closes the slot and discards its backlog.
pub open spec fn spec_unsubscribe(b: BusView, id: int) -> BusView {
    if 0 <= id < b.subs.len() {
        BusView {
            subs: b.subs.update(id, SubscriberView { queue: Seq::empty(), open: false }),
            ..b
        }
    } else {
        b
    }
}

struct Subscriber {
    queue: Vec<ChangeEvent>,
    open: bool,
}

/// The in-process broadcast relay. It owns no appointment state: events
/// pass through it once and are gone.
pub struct EventBus {
    subs: Vec<Subscriber>,
    capacity: usize,
}

impl View for EventBus {
    type V = BusView;

    closed spec fn view(&self) -> BusView {
        BusView {
            subs: Seq::new(self.subs@.len(), |i: int| SubscriberView {
                queue: self.subs@[i].queue@,
                open: self.subs@[i].open,
            }),
            capacity: self.capacity as nat,
        }
    }
}

impl EventBus {
    /// A bus with no subscribers; each later subscriber's queue holds at
    /// most `capacity` pending events.
    pub fn new(capacity: usize) -> (r: EventBus)
        requires
            capacity >= 1,
        ensures
            r@.subs == Seq::<SubscriberView>::empty(),
            r@.capacity == capacity,
    {
        let r = EventBus { subs: Vec::new(), capacity };
        proof {
            assert(r@.subs =~= Seq::<SubscriberView>::empty());
        }
        r
    }

    /// Opens a fresh, independent, live-only subscription and returns its
    /// identifier. The queue starts empty: nothing published earlier is
    /// ever seen.
    pub fn subscribe(&mut self) -> (id: usize)
        ensures
            id == old(self)@.subs.len(),
            final(self)@ == spec_subscribe(old(self)@),
    {
        let id = self.subs.len();
        self.subs.push(Subscriber { queue: Vec::new(), open: true });
        proof {
            assert(self@.subs =~= spec_subscribe(old(self)@).subs);
        }
        id
    }

    /// Delivers the event to every open subscriber, evicting the oldest
    /// pending event of a full queue; the publisher never waits.
    pub fn publish(&mut self, e: &ChangeEvent)
        ensures
            final(self)@ == spec_publish(old(self)@, *e),
    {
        let n = self.subs.len();
        let mut i: usize = 0;
        while i < n
            invariant
                n == self.subs@.len(),
                i <= n,
                self.capacity == old(self).capacity,
                forall|j: int|
                    0 <= j < i ==> #[trigger] self@.subs[j] == spec_deliver(
                        old(self)@.subs[j],
                        old(self)@.capacity,
                        *e,
                    ),
                forall|j: int| i <= j < n ==> #[trigger] self@.subs[j] == old(self)@.subs[j],
            decreases n - i,
        {
            let ghost pre = self@.subs;
            let ghost pre_raw = self.subs@;
            proof {
                assert(pre[i as int] == old(self)@.subs[i as int]);
            }
            if self.subs[i].open && self.subs[i].queue.len() < self.capacity {
                let ev = e.snapshot();
                push_event(&mut self.subs, i, ev);
                proof {
                    assert(ev == *e);
                    assert(self@.subs[i as int].queue == pre[i as int].queue.push(*e));
                    assert(pre[i as int].open && pre[i as int].queue.len() < old(self)@.capacity);
                    assert forall|j: int| 0 <= j < n && j != i implies #[trigger] self@.subs[j]
                        == pre[j] by {
                        assert(self.subs@[j] == pre_raw[j]);
                    }
                    assert(self@.subs[i as int] == spec_deliver(
                        old(self)@.subs[i as int],
                        old(self)@.capacity,
                        *e,
                    ));
                }
            } else if self.subs[i].open && self.capacity > 0 {
                let ev = e.snapshot();
                let _evicted = remove_event(&mut self.subs, i);
                push_event(&mut self.subs, i, ev);
                proof {
                    assert(ev == *e);
                    assert(self@.subs[i as int].queue == pre[i as int].queue.drop_first().push(*e));
                    assert(pre[i as int].open && pre[i as int].queue.len() >= old(self)@.capacity
                        > 0);
                    assert forall|j: int| 0 <= j < n && j != i implies #[trigger] self@.subs[j]
                        == pre[j] by {
                        assert(self.subs@[j] == pre_raw[j]);
                    }
                    assert(self@.subs[i as int] == spec_deliver(
                        old(self)@.subs[i as int],
                        old(self)@.capacity,
                        *e,
                    ));
                }
            } else {
                proof {
                    assert(self@.subs[i as int] == spec_deliver(
                        old(self)@.subs[i as int],
                        old(self)@.capacity,
                        *e,
                    ));
                }
            }
            i = i + 1;
        }
        proof {
            assert(self@.subs =~= spec_publish(old(self)@, *e).subs);
        }
    }

    /// Takes the oldest pending event of a subscription, in publish order;
    /// `None` when nothing is pending.
    pub fn poll(&mut self, id: usize) -> (r: Option<ChangeEvent>)
        requires
            id < old(self)@.subs.len(),
        ensures
            final(self)@.capacity == old(self)@.capacity,
            final(self)@.subs.len() == old(self)@.subs.len(),
            forall|j: int|
                0 <= j < old(self)@.subs.len() && j != id ==> #[trigger] final(self)@.subs[j]
                    == old(self)@.subs[j],
            old(self)@.subs[id as int].queue.len() == 0 ==> r is None && final(self)@.subs[
                id as int
            ] == old(self)@.subs[id as int],
            old(self)@.subs[id as int].queue.len() > 0 ==> r == Some(
                old(self)@.subs[id as int].queue[0],
            ) && final(self)@.subs[id as int] == (SubscriberView {
                queue: old(self)@.subs[id as int].queue.drop_first(),
                open: old(self)@.subs[id as int].open,
            }),
    {
        if self.subs[id].queue.len() == 0 {
            return None;
        }
        let e = remove_event(&mut self.subs, id);
        proof {
            assert(self@.subs[id as int].queue =~= old(self)@.subs[id as int
            ].queue.drop_first());
            assert(forall|j: int|
                0 <= j < old(self)@.subs.len() && j != id ==> #[trigger] self@.subs[j]
                    == old(self)@.subs[j]);
        }
        Some(e)
    }

    /// Closes a subscription promptly, releasing its backlog.
    pub fn unsubscribe(&mut self, id: usize)
        requires
            id < old(self)@.subs.len(),
        ensures
            final(self)@ == spec_unsubscribe(old(self)@, id as int),
    {
        let sub = &mut self.subs;
        close_slot(sub, id);
        proof {
            assert(self@.subs =~= spec_unsubscribe(old(self)@, id as int).subs);
        }
    }
}

/// Appends an event to one subscriber's queue.
fn push_event(subs: &mut Vec<Subscriber>, i: usize, e: ChangeEvent)
    requires
        i < old(subs)@.len(),
    ensures
        final(subs)@.len() == old(subs)@.len(),
        forall|j: int| 0 <= j < old(subs)@.len() && j != i ==> final(subs)@[j] == old(subs)@[j],
        final(subs)@[i as int].queue@ == old(subs)@[i as int].queue@.push(e),
        final(subs)@[i as int].open == old(subs)@[i as int].open,
{
    let mut slot = subs.remove(i);
    slot.queue.push(e);
    subs.insert(i, slot);
    proof {
        assert(forall|j: int|
            0 <= j < old(subs)@.len() && j != i ==> subs@[j] == old(subs)@[j]);
    }
}

/// Removes and returns the oldest queued event of one subscriber.
fn remove_event(subs: &mut Vec<Subscriber>, i: usize) -> (r: ChangeEvent)
    requires
        i < old(subs)@.len(),
        old(subs)@[i as int].queue@.len() > 0,
    ensures
        final(subs)@.len() == old(subs)@.len(),
        forall|j: int| 0 <= j < old(subs)@.len() && j != i ==> final(subs)@[j] == old(subs)@[j],
        r == old(subs)@[i as int].queue@[0],
        final(subs)@[i as int].queue@ == old(subs)@[i as int].queue@.drop_first(),
        final(subs)@[i as int].open == old(subs)@[i as int].open,
{
    let mut slot = subs.remove(i);
    let r = slot.queue.remove(0);
    proof {
        assert(slot.queue@ =~= old(subs)@[i as int].queue@.drop_first());
    }
    subs.insert(i, slot);
    proof {
        assert(forall|j: int|
            0 <= j < old(subs)@.len() && j != i ==> subs@[j] == old(subs)@[j]);
    }
    r
}

/// Marks one subscriber closed and clears its queue.
fn close_slot(subs: &mut Vec<Subscriber>, i: usize)
    requires
        i < old(subs)@.len(),
    ensures
        final(subs)@.len() == old(subs)@.len(),
        forall|j: int| 0 <= j < old(subs)@.len() && j != i ==> final(subs)@[j] == old(subs)@[j],
        final(subs)@[i as int].queue@ == Seq::<ChangeEvent>::empty(),
        final(subs)@[i as int].open == false,
{
    let mut slot = subs.remove(i);
    slot.queue.clear();
    slot.open = false;
    proof {
        assert(slot.queue@ =~= Seq::<ChangeEvent>::empty());
    }
    subs.insert(i, slot);
    proof {
        assert(forall|j: int|
            0 <= j < old(subs)@.len() && j != i ==> subs@[j] == old(subs)@[j]);
    }
}

} // verus!
