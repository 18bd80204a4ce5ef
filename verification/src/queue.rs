//! An unbounded FIFO channel for any number of senders and receivers.
//!
//! The runtime primitive this models keeps a double-ended queue behind a
//! mutex with a wait/notify condition on it: a send appends under the mutex
//! and notifies one waiter, a receive sleeps until the queue is non-empty,
//! re-checks, and pops the head.  Here the queue is a plain field whose
//! exclusivity is carried by `&mut` access — the mutex's serialization made
//! explicit — and a receive that would block forever, one on an empty
//! channel with no send ever coming, is ruled out by precondition.  The
//! contracts pin each operation to one append or one head removal, so items
//! are never invented, lost or duplicated.

use std::collections::VecDeque;
use vstd::prelude::*;

verus! {

/// An unbounded FIFO channel; its view is the sequence of items queued and
/// not yet received, oldest first.
pub struct Channel<T> {
    queue: VecDeque<T>,
}

impl<T> View for Channel<T> {
    type V = Seq<T>;

    closed spec fn view(&self) -> Seq<T> {
        self.queue@
    }
}

impl<T> Channel<T> {
    /// Creates an empty channel.
    pub fn new() -> (channel: Self)
        ensures
            channel@ == Seq::<T>::empty(),
    {
        Channel { queue: VecDeque::new() }
    }

    /// Appends `message` at the tail of the queue, as one serialized send.
    /// Nothing else moves: every queued item stays, in order.
    pub fn send(&mut self, message: T)
        ensures
            final(self)@ == old(self)@.push(message),
    {
        self.queue.push_back(message);
    }

    /// Removes and returns the head of the queue, as one serialized
    /// receive: exactly the oldest queued item comes out, and only that
    /// item leaves.  The runtime primitive sleeps on the condition while
    /// the queue is empty; under exclusive access no send could come
    /// meanwhile, so the precondition asks for a non-empty queue and the
    /// wait never happens.
    pub fn receive(&mut self) -> (message: T)
        requires
            old(self)@.len() > 0,
        ensures
            message == old(self)@[0],
            final(self)@ == old(self)@.drop_first(),
    {
        let popped = self.queue.pop_front();
        match popped {
            Some(m) => m,
            None => vstd::pervasive::unreached(),
        }
    }

    /// How many items are queued and not yet received.
    pub fn len(&self) -> (n: usize)
        ensures
            n == self@.len(),
    {
        self.queue.len()
    }
}

/// The queue contents after the sends of `items`, in that serialization
/// order, land one by one on `start`.
pub open spec fn after_sends<T>(start: Seq<T>, items: Seq<T>) -> Seq<T>
    decreases items.len(),
{
    if items.len() == 0 {
        start
    } else {
        after_sends(start.push(items[0]), items.drop_first())
    }
}

/// Sends only append: after the sends of `items`, the queue holds what it
/// held before, followed by `items` in their serialization order.
pub proof fn lemma_sends_append<T>(start: Seq<T>, items: Seq<T>)
    ensures
        after_sends(start, items) == start + items,
    decreases items.len(),
{
    if items.len() == 0 {
        assert(start + items =~= start);
    } else {
        lemma_sends_append(start.push(items[0]), items.drop_first());
        assert(start.push(items[0]) + items.drop_first() =~= start + items);
    }
}

/// One receive removes exactly the item it returns: the head splits off
/// and the rest stays, so the multiset of queued items loses one count of
/// the returned value and nothing else.
pub proof fn lemma_receive_removes_one<T>(queue: Seq<T>)
    requires
        queue.len() > 0,
    ensures
        queue.to_multiset() == queue.drop_first().to_multiset().insert(queue[0]),
{
    broadcast use vstd::seq_lib::group_to_multiset_ensures;
    broadcast use vstd::multiset::group_multiset_axioms;

    assert(queue.remove(0) =~= queue.drop_first());
    assert(queue.remove(0).to_multiset() =~= queue.to_multiset().remove(queue[0]));
    assert(queue.contains(queue[0]));
    assert(queue.drop_first().to_multiset().insert(queue[0]) =~= queue.to_multiset());
}

/// Channel multiset equality: start from an empty channel, let any threads
/// send the values of `sent` — the mutex serializes those sends into some
/// order `order`, a rearrangement of `sent` — and let the matching
/// receives drain the channel.  The receives return the queue contents,
/// which are exactly `order`: as a multiset, exactly the values sent,
/// whatever the scheduling was.
pub proof fn lemma_multiset_exchange<T>(sent: Seq<T>, order: Seq<T>)
    requires
        order.to_multiset() == sent.to_multiset(),
    ensures
        after_sends(Seq::empty(), order) == order,
        after_sends(Seq::empty(), order).to_multiset() == sent.to_multiset(),
{
    lemma_sends_append(Seq::empty(), order);
    assert(Seq::empty() + order =~= order);
}

} // verus!
