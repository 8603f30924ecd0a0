//! The ordered event buffer: a FIFO whose whole observable behaviour is the
//! sequence of events it holds, together with the ordering laws that make the
//! producer/consumer bridge race-free in the sense the overlay needs — a
//! drain returns the arrivals exactly, never reordered, never duplicated,
//! never dropped, so each producer's own sub-order survives any interleaving.

use vstd::prelude::*;

use crate::event::Event;

verus! {

/// An ordered buffer of events, FIFO. Enqueue appends at the back; a drain
/// removes and returns everything, oldest first.
pub struct EventQueue {
    items: std::collections::VecDeque<Event>,
}

impl View for EventQueue {
    type V = Seq<Event>;

    closed spec fn view(&self) -> Seq<Event> {
        self.items@
    }
}

impl EventQueue {
    /// An empty queue.
    pub fn new() -> (q: EventQueue)
        ensures
            q@ == Seq::<Event>::empty(),
    {
        EventQueue { items: std::collections::VecDeque::new() }
    }

    /// Number of events currently queued.
    pub fn len(&self) -> (n: usize)
        ensures
            n == self@.len(),
    {
        self.items.len()
    }

    /// Append one event at the back. Never fails, never drops or coalesces:
    /// the new contents are exactly the old contents with `e` after them.
    pub fn enqueue(&mut self, e: Event)
        ensures
            final(self)@ == old(self)@.push(e),
    {
        self.items.push_back(e);
    }

    /// Remove and return every queued event, oldest first, leaving the queue
    /// empty. An empty queue yields an empty result. Total: no event is left
    /// behind, none is returned twice, and the order is the enqueue order.
    pub fn drain_all(&mut self) -> (drained: Vec<Event>)
        ensures
            drained@ == old(self)@,
            final(self)@ == Seq::<Event>::empty(),
    {
        let mut drained: Vec<Event> = Vec::new();
        while self.items.len() > 0
            invariant
                old(self)@ == drained@ + self@,
            decreases self@.len(),
        {
            match self.items.pop_front() {
                Some(e) => {
                    drained.push(e);
                    proof {
                        assert(old(self)@ =~= drained@ + self@);
                    }
                },
                None => {},
            }
        }
        proof {
            assert(drained@ =~= old(self)@);
            assert(self@ =~= Seq::<Event>::empty());
        }
        drained
    }
}

/// A tagged arrival: which producer context enqueued, paired with the event
/// it enqueued. The tag is ghost bookkeeping for stating ordering laws; the
/// queue itself never sees it.
pub open spec fn arrival_events(t: Seq<(nat, Event)>) -> Seq<Event> {
    t.map_values(|a: (nat, Event)| a.1)
}

/// The sub-sequence of events that producer `p` enqueued, in its own call
/// order.
pub open spec fn producer_stream(t: Seq<(nat, Event)>, p: nat) -> Seq<Event>
    decreases t.len(),
{
    if t.len() == 0 {
        Seq::empty()
    } else {
        let rest = producer_stream(t.drop_last(), p);
        if t.last().0 == p {
            rest.push(t.last().1)
        } else {
            rest
        }
    }
}

/// Queue contents after the arrivals of `t` are enqueued in order onto a
/// queue whose contents are `q` — the model of any run in which the
/// producers' enqueue critical sections happen in the order `t`.
pub open spec fn contents_after(q: Seq<Event>, t: Seq<(nat, Event)>) -> Seq<Event>
    decreases t.len(),
{
    if t.len() == 0 {
        q
    } else {
        contents_after(q.push(t[0].1), t.skip(1))
    }
}

/// The queue never reorders, drops or duplicates: whatever interleaving of
/// enqueue critical sections the scheduler produces, the contents afterwards
/// are the prior contents followed by the arrivals exactly as they came. A
/// drain therefore returns a plain concatenation of the arrival order, so
/// each producer's own sub-order is preserved in the drained sequence.
pub proof fn lemma_queue_never_reorders(q: Seq<Event>, t: Seq<(nat, Event)>)
    ensures
        contents_after(q, t) == q + arrival_events(t),
    decreases t.len(),
{
    if t.len() == 0 {
        assert(q + arrival_events(t) =~= q);
    } else {
        lemma_queue_never_reorders(q.push(t[0].1), t.skip(1));
        assert(q.push(t[0].1) + arrival_events(t.skip(1)) =~= q + arrival_events(t));
    }
}

/// Producer streams decompose over concatenation of arrival batches: what
/// producer `p` contributed to two batches in turn is what it contributed to
/// the first followed by what it contributed to the second. Together with
/// `lemma_queue_never_reorders` this is the sense in which a drain is a
/// permutation-free concatenation of the producers' streams.
pub proof fn lemma_producer_stream_concat(t1: Seq<(nat, Event)>, t2: Seq<(nat, Event)>, p: nat)
    ensures
        producer_stream(t1 + t2, p) == producer_stream(t1, p) + producer_stream(t2, p),
    decreases t2.len(),
{
    if t2.len() == 0 {
        assert(t1 + t2 =~= t1);
        assert(producer_stream(t1, p) + producer_stream(t2, p) =~= producer_stream(t1, p));
    } else {
        lemma_producer_stream_concat(t1, t2.drop_last(), p);
        assert((t1 + t2).drop_last() =~= t1 + t2.drop_last());
        assert((t1 + t2).last() == t2.last());
        if t2.last().0 == p {
            assert(producer_stream(t1, p) + producer_stream(t2, p) =~= (producer_stream(t1, p)
                + producer_stream(t2.drop_last(), p)).push(t2.last().1));
        } else {
            assert(producer_stream(t1, p) + producer_stream(t2, p) =~= producer_stream(t1, p)
                + producer_stream(t2.drop_last(), p));
        }
    }
}

/// A lone producer's events are observed exactly in the order it enqueued
/// them: when every arrival of `t` is tagged `p`, producer `p`'s stream is
/// the whole arrival order.
pub proof fn lemma_single_producer_stream(t: Seq<(nat, Event)>, p: nat)
    requires
        forall|i: int| 0 <= i < t.len() ==> (#[trigger] t[i]).0 == p,
    ensures
        producer_stream(t, p) == arrival_events(t),
    decreases t.len(),
{
    if t.len() > 0 {
        lemma_single_producer_stream(t.drop_last(), p);
        assert(arrival_events(t) =~= arrival_events(t.drop_last()).push(t.last().1));
    }
}

} // verus!
