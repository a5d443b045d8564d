//! The streaming bridge: a bounded, strictly first-in-first-out queue
//! between the session that produces events and the response that
//! consumes them.
//!
//! The bridge never drops an item. A full bridge hands the item back, so
//! that the producer waits for room and offers it again; once the consumer
//! has gone, every offer is handed back with the news, so that the
//! producer can cancel its session.

use vstd::prelude::*;
use std::collections::VecDeque;

verus! {

/// The answer to an offer.
#[derive(Debug)]
pub enum Offer<T> {
    /// The item is queued.
    Accepted,
    /// No room: the item comes back, to be offered again.
    Full(T),
    /// The consumer has gone, or the producer had closed the bridge: the
    /// item comes back and none will be taken.
    Refused(T),
}

/// The answer to a request for the next item.
#[derive(Debug)]
pub enum Delivery<T> {
    /// The oldest queued item.
    Item(T),
    /// Nothing queued yet; the producer is still at work.
    Pending,
    /// Nothing queued and the producer has closed: the stream is over.
    Closed,
}

/// The bridge between one producer and one consumer.
#[verifier::reject_recursive_types(T)]
pub struct StreamingBridge<T> {
    queue: VecDeque<T>,
    capacity: usize,
    closed: bool,
    disconnected: bool,
}

/// The mathematical value of a [`StreamingBridge`].
#[verifier::reject_recursive_types(T)]
pub struct BridgeView<T> {
    /// The queued items, oldest first.
    pub queue: Seq<T>,
    /// The most items the queue may hold.
    pub capacity: nat,
    /// The producer has finished.
    pub closed: bool,
    /// The consumer has gone.
    pub disconnected: bool,
}

/// What the two sides may do to a bridge.
#[verifier::reject_recursive_types(T)]
pub enum BridgeOp<T> {
    /// The producer offers an item.
    Offer(T),
    /// The consumer asks for the next item.
    Take,
    /// The producer finishes.
    Close,
    /// The consumer goes away.
    Disconnect,
}

impl<T> View for StreamingBridge<T> {
    type V = BridgeView<T>;

    closed spec fn view(&self) -> BridgeView<T> {
        BridgeView {
            queue: self.queue@,
            capacity: self.capacity as nat,
            closed: self.closed,
            disconnected: self.disconnected,
        }
    }
}

impl<T> BridgeView<T> {
    /// An empty, open bridge.
    pub open spec fn initial(capacity: nat) -> BridgeView<T> {
        BridgeView { queue: Seq::empty(), capacity, closed: false, disconnected: false }
    }

    /// The queue respects its bound.
    pub open spec fn wf(self) -> bool {
        self.queue.len() <= self.capacity
    }

    /// Whether an offer would be accepted now.
    pub open spec fn accepts(self) -> bool {
        !self.disconnected && !self.closed && self.queue.len() < self.capacity
    }

    /// The bridge after an offer of `item`.
    pub open spec fn offer(self, item: T) -> BridgeView<T> {
        if self.accepts() {
            BridgeView { queue: self.queue.push(item), ..self }
        } else {
            self
        }
    }

    /// The bridge after a request for the next item.
    pub open spec fn take(self) -> BridgeView<T> {
        if self.queue.len() > 0 {
            BridgeView { queue: self.queue.drop_first(), ..self }
        } else {
            self
        }
    }

    /// The bridge after the producer has finished.
    pub open spec fn close(self) -> BridgeView<T> {
        BridgeView { closed: true, ..self }
    }

    /// The bridge after the consumer has gone: what was queued is given up.
    pub open spec fn disconnect(self) -> BridgeView<T> {
        BridgeView { queue: Seq::empty(), disconnected: true, ..self }
    }

    /// The bridge after `op`.
    pub open spec fn apply(self, op: BridgeOp<T>) -> BridgeView<T> {
        match op {
            BridgeOp::Offer(item) => self.offer(item),
            BridgeOp::Take => self.take(),
            BridgeOp::Close => self.close(),
            BridgeOp::Disconnect => self.disconnect(),
        }
    }

    /// The items that `op` gets accepted: the offered item, if there is
    /// room for it and both sides are still there.
    pub open spec fn accepted_by(self, op: BridgeOp<T>) -> Seq<T> {
        match op {
            BridgeOp::Offer(item) => if self.accepts() { seq![item] } else { Seq::empty() },
            _ => Seq::empty(),
        }
    }

    /// The items that `op` delivers: the oldest queued item, on a request.
    pub open spec fn delivered_by(self, op: BridgeOp<T>) -> Seq<T> {
        match op {
            BridgeOp::Take => if self.queue.len() > 0 { seq![self.queue.first()] } else { Seq::empty() },
            _ => Seq::empty(),
        }
    }
}

/// What a schedule of operations does to a bridge.
#[verifier::reject_recursive_types(T)]
pub struct BridgeTrace<T> {
    /// The bridge at the end.
    pub bridge: BridgeView<T>,
    /// Every item accepted along the way, in the order of the offers.
    pub accepted: Seq<T>,
    /// Every item delivered along the way, in the order of the requests.
    pub delivered: Seq<T>,
}

/// The trace of `ops` on `start`.
pub open spec fn bridge_run<T>(start: BridgeView<T>, ops: Seq<BridgeOp<T>>) -> BridgeTrace<T>
    decreases ops.len(),
{
    if ops.len() == 0 {
        BridgeTrace { bridge: start, accepted: Seq::empty(), delivered: Seq::empty() }
    } else {
        let before = bridge_run(start, ops.drop_last());
        BridgeTrace {
            bridge: before.bridge.apply(ops.last()),
            accepted: before.accepted + before.bridge.accepted_by(ops.last()),
            delivered: before.delivered + before.bridge.delivered_by(ops.last()),
        }
    }
}

/// Under every schedule of offers and requests the bridge keeps its bound
/// and its order. The items delivered are the first of the items accepted,
/// in the order in which they were offered; and while the consumer stays,
/// the items delivered followed by the items still queued are exactly the
/// items accepted: nothing is dropped and nothing overtakes.
pub proof fn lemma_bridge_is_fifo<T>(capacity: nat, ops: Seq<BridgeOp<T>>)
    ensures
        ({
            let t = bridge_run(BridgeView::<T>::initial(capacity), ops);
            let held = t.delivered + t.bridge.queue;
            &&& t.bridge.wf()
            &&& t.bridge.capacity == capacity
            &&& held.len() <= t.accepted.len()
            &&& held == t.accepted.take(held.len() as int)
            &&& !t.bridge.disconnected ==> t.accepted == held
        }),
    decreases ops.len(),
{
    if ops.len() > 0 {
        lemma_bridge_is_fifo::<T>(capacity, ops.drop_last());
        let start = BridgeView::<T>::initial(capacity);
        let before = bridge_run(start, ops.drop_last());
        let after = bridge_run(start, ops);
        let held_before = before.delivered + before.bridge.queue;
        let held = after.delivered + after.bridge.queue;
        if ops.last() is Disconnect {
            assert forall|i: int| 0 <= i < held.len() implies held[i] == after.accepted[i] by {
                assert(held_before[i] == before.accepted.take(held_before.len() as int)[i]);
            }
        }
    }
}

/// Once the consumer, who stayed, has drained the bridge, it has received
/// every item that was accepted, in the order of the offers, whatever the
/// capacity and however often the producer had to wait for room.
pub proof fn lemma_drained_bridge_delivered_all<T>(capacity: nat, ops: Seq<BridgeOp<T>>)
    requires
        !bridge_run(BridgeView::<T>::initial(capacity), ops).bridge.disconnected,
        bridge_run(BridgeView::<T>::initial(capacity), ops).bridge.queue.len() == 0,
    ensures
        bridge_run(BridgeView::<T>::initial(capacity), ops).delivered == bridge_run(
            BridgeView::<T>::initial(capacity),
            ops,
        ).accepted,
{
    lemma_bridge_is_fifo::<T>(capacity, ops);
}

impl<T> StreamingBridge<T> {
    /// An empty bridge that holds at most `capacity` items.
    pub fn new(capacity: usize) -> (r: Self)
        ensures
            r@ == BridgeView::<T>::initial(capacity as nat),
            r@.wf(),
    {
        StreamingBridge { queue: VecDeque::new(), capacity, closed: false, disconnected: false }
    }

    /// The number of items queued.
    pub fn len(&self) -> (r: usize)
        ensures
            r == self@.queue.len(),
    {
        self.queue.len()
    }

    /// The most items the bridge may hold.
    pub fn capacity(&self) -> (r: usize)
        ensures
            r == self@.capacity,
    {
        self.capacity
    }

    /// Whether the consumer has gone, so that the session should be
    /// cancelled.
    pub fn is_disconnected(&self) -> (r: bool)
        ensures
            r == self@.disconnected,
    {
        self.disconnected
    }

    /// Whether the producer has finished.
    pub fn is_closed(&self) -> (r: bool)
        ensures
            r == self@.closed,
    {
        self.closed
    }

    /// Takes the oldest queued item, if there is one.
    pub fn take(&mut self) -> (r: Delivery<T>)
        requires
            old(self)@.wf(),
        ensures
            final(self)@ == old(self)@.take(),
            final(self)@.wf(),
            r == (if old(self)@.queue.len() > 0 {
                Delivery::Item(old(self)@.queue.first())
            } else if old(self)@.closed {
                Delivery::Closed
            } else {
                Delivery::Pending
            }),
    {
        match self.queue.pop_front() {
            Some(item) => {
                Delivery::Item(item)
            },
            None => {
                if self.closed {
                    Delivery::Closed
                } else {
                    Delivery::Pending
                }
            },
        }
    }

    /// The producer has finished: what is queued can still be taken.
    pub fn close(&mut self)
        ensures
            final(self)@ == old(self)@.close(),
    {
        self.closed = true;
    }

    /// The consumer has gone: what is queued is given up and every later
    /// offer comes back.
    pub fn disconnect(&mut self)
        ensures
            final(self)@ == old(self)@.disconnect(),
            final(self)@.wf(),
    {
        self.queue.clear();
        self.disconnected = true;
    }
}

/// Offers `body` to the bridge. It is queued behind all earlier items if
/// there is room and both sides are still there; otherwise it comes back:
/// from a full bridge to be offered again once the consumer has made room,
/// from a bridge that takes no more as the sign to cancel.
pub fn send_to_stream<T>(bridge: &mut StreamingBridge<T>, body: T) -> (r: Offer<T>)
    requires
        old(bridge)@.wf(),
    ensures
        final(bridge)@ == old(bridge)@.offer(body),
        final(bridge)@.wf(),
        r == (if old(bridge)@.disconnected || old(bridge)@.closed {
            Offer::Refused(body)
        } else if old(bridge)@.queue.len() < old(bridge)@.capacity {
            Offer::Accepted
        } else {
            Offer::Full(body)
        }),
{
    if bridge.disconnected || bridge.closed {
        Offer::Refused(body)
    } else if bridge.queue.len() < bridge.capacity {
        bridge.queue.push_back(body);
        Offer::Accepted
    } else {
        Offer::Full(body)
    }
}

} // verus!
