//! Bounded, non-blocking hand-off of sample batches.
//!
//! The bridge decouples the time-critical capture side from consumers that
//! may take variable time.  `try_push` never waits: when the queue is full
//! the new batch is dropped, so the producer is never stalled by a slow
//! consumer.  Batches that are accepted are handed out in arrival order,
//! with no reordering and no duplication; the bridge keeps that as an
//! invariant between its history of accepted batches and its history of
//! delivered batches.

use vstd::prelude::*;
use std::collections::VecDeque;

verus! {

/// What `try_push` did with a batch.
#[derive(Clone, Copy, Debug, PartialEq, Eq, Structural)]
pub enum PushOutcome {
    /// The batch was enqueued and every consumer will see it.
    Accepted,
    /// The queue was full; the batch was discarded and no consumer sees it.
    Dropped,
}

/// A bounded FIFO queue of sample batches with a drop-on-full policy.
pub struct SampleBridge {
    queue: VecDeque<Vec<i32>>,
    capacity: usize,
    closed: bool,
    /// Every batch ever accepted, in arrival order.
    accepted: Ghost<Seq<Seq<i32>>>,
    /// Every batch already handed to the consumer side, in arrival order.
    delivered: Ghost<Seq<Seq<i32>>>,
}

impl SampleBridge {
    /// The batches accepted but not yet delivered, oldest first.
    pub closed spec fn pending(self) -> Seq<Seq<i32>> {
        self.queue@.map_values(|b: Vec<i32>| b@)
    }

    /// All batches ever accepted, in arrival order.
    pub closed spec fn accepted(self) -> Seq<Seq<i32>> {
        self.accepted@
    }

    /// All batches already delivered, in arrival order.
    pub closed spec fn delivered(self) -> Seq<Seq<i32>> {
        self.delivered@
    }

    pub closed spec fn capacity(self) -> nat {
        self.capacity as nat
    }

    /// Whether the stream has ended: a closed bridge accepts nothing more,
    /// and once drained it stays empty for every consumer.
    pub closed spec fn is_closed(self) -> bool {
        self.closed
    }

    /// Well-formed: the queue respects its bound, and what was accepted is
    /// exactly what was delivered followed by what is still pending — no
    /// batch is lost once accepted, duplicated, or reordered.
    pub closed spec fn wf(self) -> bool {
        &&& self.capacity >= 1
        &&& self.pending().len() <= self.capacity
        &&& self.accepted@ == self.delivered@ + self.pending()
    }

    /// A new bridge with the given capacity, in batches.
    pub fn new(capacity: usize) -> (b: SampleBridge)
        requires
            capacity >= 1,
        ensures
            b.wf(),
            b.capacity() == capacity,
            !b.is_closed(),
            b.pending() =~= Seq::<Seq<i32>>::empty(),
            b.accepted() =~= Seq::<Seq<i32>>::empty(),
            b.delivered() =~= Seq::<Seq<i32>>::empty(),
    {
        let b = SampleBridge {
            queue: VecDeque::new(),
            capacity,
            closed: false,
            accepted: Ghost(Seq::empty()),
            delivered: Ghost(Seq::empty()),
        };
        proof {
            assert(b.pending() =~= Seq::<Seq<i32>>::empty());
        }
        b
    }

    /// Number of batches waiting to be delivered.
    pub fn len(&self) -> (n: usize)
        ensures
            n == self.pending().len(),
    {
        self.queue.len()
    }

    /// End the stream: nothing further is accepted, and what is still
    /// pending drains normally before every subscriber sees the end.
    pub fn close(&mut self)
        requires
            old(self).wf(),
        ensures
            final(self).wf(),
            final(self).is_closed(),
            final(self).capacity() == old(self).capacity(),
            final(self).pending() == old(self).pending(),
            final(self).accepted() == old(self).accepted(),
            final(self).delivered() == old(self).delivered(),
    {
        self.closed = true;
    }

    /// Offer a batch without ever blocking: enqueue it if there is room,
    /// discard it and say so if there is not, or if the stream has ended.
    pub fn try_push(&mut self, batch: Vec<i32>) -> (r: PushOutcome)
        requires
            old(self).wf(),
        ensures
            final(self).wf(),
            final(self).capacity() == old(self).capacity(),
            final(self).is_closed() == old(self).is_closed(),
            final(self).delivered() == old(self).delivered(),
            !old(self).is_closed() && old(self).pending().len() < old(self).capacity() ==> {
                &&& r == PushOutcome::Accepted
                &&& final(self).pending() =~= old(self).pending().push(batch@)
                &&& final(self).accepted() =~= old(self).accepted().push(batch@)
            },
            old(self).is_closed() || old(self).pending().len() >= old(self).capacity() ==> {
                &&& r == PushOutcome::Dropped
                &&& final(self).pending() == old(self).pending()
                &&& final(self).accepted() == old(self).accepted()
            },
    {
        if !self.closed && self.queue.len() < self.capacity {
            let ghost b = batch@;
            self.queue.push_back(batch);
            proof {
                self.accepted@ = self.accepted@.push(b);
                assert(self.pending() =~= old(self).pending().push(b));
            }
            PushOutcome::Accepted
        } else {
            PushOutcome::Dropped
        }
    }

    /// Take the oldest pending batch, if any.  Batches come out in exactly
    /// the order they were accepted.
    pub fn pop(&mut self) -> (r: Option<Vec<i32>>)
        requires
            old(self).wf(),
        ensures
            final(self).wf(),
            final(self).capacity() == old(self).capacity(),
            final(self).is_closed() == old(self).is_closed(),
            final(self).accepted() == old(self).accepted(),
            old(self).pending().len() > 0 ==> {
                &&& r is Some
                &&& r->Some_0@ == old(self).pending()[0]
                &&& final(self).pending() =~= old(self).pending().drop_first()
                &&& final(self).delivered() =~= old(self).delivered().push(old(self).pending()[0])
            },
            old(self).pending().len() == 0 ==> {
                &&& r is None
                &&& final(self).pending() == old(self).pending()
                &&& final(self).delivered() == old(self).delivered()
            },
    {
        let r = self.queue.pop_front();
        match r {
            Some(batch) => {
                proof {
                    self.delivered@ = self.delivered@.push(batch@);
                    assert(self.pending() =~= old(self).pending().drop_first());
                    assert(self.accepted@ =~= self.delivered@ + self.pending());
                }
                Some(batch)
            },
            None => None,
        }
    }
}

} // verus!
