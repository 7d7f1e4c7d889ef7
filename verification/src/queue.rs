//! The shared sample buffer.
//!
//! `SampleQueue` is an ordered, bounded buffer of canonical signed 16-bit
//! samples with FIFO discipline: samples leave in exactly the order they
//! arrived, none duplicated and none dropped. The bound implements the
//! bounded-capacity-with-producer-blocking backpressure policy: `enqueue`
//! refuses a sample when the queue is full and the producer retries once the
//! consumer has drained; no sample is ever overwritten. Mutual exclusion
//! between the producer and the consumer is the caller's concern (the queue
//! is handed out behind one lock); the queue itself is the sequential core
//! that the lock protects.

use vstd::prelude::*;
use std::collections::VecDeque;

verus! {

broadcast use vstd::std_specs::vecdeque::group_vec_dequeue_axioms;

/// A bounded FIFO buffer of normalized samples.
pub struct SampleQueue {
    buf: VecDeque<i16>,
    cap: usize,
}

impl SampleQueue {
    /// The pending samples, oldest first.
    pub closed spec fn view(&self) -> Seq<i16> {
        self.buf@
    }

    /// The fixed bound on how many samples may be pending at once.
    pub closed spec fn cap(&self) -> usize {
        self.cap
    }

    /// The queue never holds more samples than its bound allows.
    pub open spec fn wf(&self) -> bool {
        self@.len() <= self.cap() && self.cap() >= 1
    }

    /// An empty queue that will hold at most `capacity` pending samples.
    pub fn new(capacity: usize) -> (q: SampleQueue)
        requires
            capacity >= 1,
        ensures
            q.wf(),
            q@ == Seq::<i16>::empty(),
            q.cap() == capacity,
    {
        SampleQueue { buf: VecDeque::new(), cap: capacity }
    }

    /// How many samples are pending.
    pub fn len(&self) -> (n: usize)
        ensures
            n == self@.len(),
    {
        self.buf.len()
    }

    /// Whether no sample is pending.
    pub fn is_empty(&self) -> (r: bool)
        ensures
            r == (self@.len() == 0),
    {
        self.buf.len() == 0
    }

    /// The bound the queue was created with.
    pub fn capacity(&self) -> (n: usize)
        ensures
            n == self.cap(),
    {
        self.cap
    }

    /// Append one sample at the tail, unless the queue is full.
    ///
    /// Returns whether the sample was accepted. A refused sample is the
    /// producer's to retry: under the blocking policy nothing is overwritten
    /// and nothing is silently dropped.
    pub fn enqueue(&mut self, s: i16) -> (accepted: bool)
        requires
            old(self).wf(),
        ensures
            final(self).wf(),
            final(self).cap() == old(self).cap(),
            accepted == (old(self)@.len() < old(self).cap()),
            accepted ==> final(self)@ == old(self)@.push(s),
            !accepted ==> final(self)@ == old(self)@,
    {
        if self.buf.len() < self.cap {
            self.buf.push_back(s);
            true
        } else {
            false
        }
    }

    /// Remove and return the sample at the head, oldest first.
    ///
    /// Returns `None` exactly when the queue is empty; a consumer that must
    /// not see an empty queue waits and retries, it is never handed a
    /// fabricated sample.
    pub fn dequeue(&mut self) -> (r: Option<i16>)
        requires
            old(self).wf(),
        ensures
            final(self).wf(),
            final(self).cap() == old(self).cap(),
            r is Some <==> old(self)@.len() > 0,
            r matches Some(s) ==> s == old(self)@[0]
                && final(self)@ == old(self)@.subrange(1, old(self)@.len() as int),
            r is None ==> final(self)@ == old(self)@,
    {
        self.buf.pop_front()
    }

    /// Remove every pending sample and return them, oldest first.
    ///
    /// This is the FIFO discipline made concrete: what comes out is exactly
    /// what went in and was not yet read, in arrival order, with no loss and
    /// no duplication.
    pub fn drain_remaining(&mut self) -> (out: Vec<i16>)
        requires
            old(self).wf(),
        ensures
            final(self).wf(),
            final(self).cap() == old(self).cap(),
            out@ == old(self)@,
            final(self)@ == Seq::<i16>::empty(),
    {
        let mut out: Vec<i16> = Vec::new();
        loop
            invariant
                self.wf(),
                self.cap() == old(self).cap(),
                out@ + self@ == old(self)@,
            decreases self@.len(),
        {
            match self.dequeue() {
                Some(s) => {
                    out.push(s);
                }
                None => {
                    proof {
                        assert(out@ =~= old(self)@);
                    }
                    return out;
                }
            }
            proof {
                assert(out@ + self@ =~= old(self)@);
            }
        }
    }
}

/// FIFO, no loss, no duplication: when a producer's delivery of `incoming` is
/// fully accepted by a queue holding `pending`, the samples subsequently
/// dequeued are exactly `pending` followed by `incoming` — the k-th read
/// after the delivery returns the k-th sample that was enqueued and not yet
/// read, for every k.
pub proof fn lemma_fifo_order(pending: Seq<i16>, incoming: Seq<i16>)
    ensures
        (pending + incoming).len() == pending.len() + incoming.len(),
        forall|k: int| 0 <= k < pending.len() ==> (pending + incoming)[k] == pending[k],
        forall|k: int|
            0 <= k < incoming.len() ==> (pending + incoming)[pending.len() + k] == incoming[k],
{
}

} // verus!
