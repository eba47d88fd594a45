//! A bounded, ordered mailbox of typed messages.
//!
//! Each service owns one mailbox and consumes it from a single processing
//! loop; producers enqueue requests at the back and the loop dequeues them
//! from the front, one at a time. Because the loop handles one message to
//! completion before taking the next, requests to one service are processed
//! strictly in the order they were sent.

use std::collections::VecDeque;
use vstd::prelude::*;

verus! {

/// Why a send was not accepted. Delivery into a mailbox is refused exactly
/// when the mailbox has been closed (its service was torn down) or when it
/// already holds as many messages as its bound allows.
#[derive(Clone, Copy, Debug, PartialEq, Eq, Structural)]
pub enum SendError {
    /// The receiving service has been torn down; callers must treat this as a
    /// terminal condition for that service.
    Closed,
    /// The mailbox holds `bound` pending messages; the message was not enqueued.
    Full,
}

/// A bounded FIFO queue of messages of type `M`, consumed by exactly one
/// processing loop. The view of a mailbox is the sequence of messages it
/// holds, front first.
pub struct Mailbox<M> {
    queue: VecDeque<M>,
    bound: usize,
    closed: bool,
}

impl<M> View for Mailbox<M> {
    type V = Seq<M>;

    closed spec fn view(&self) -> Seq<M> {
        self.queue@
    }
}

impl<M> Mailbox<M> {
    /// The most messages the mailbox may hold at once.
    pub closed spec fn bound(&self) -> nat {
        self.bound as nat
    }

    /// Whether the mailbox has been closed. A closed mailbox accepts no new
    /// messages; messages already queued can still be received.
    pub closed spec fn is_closed(&self) -> bool {
        self.closed
    }

    /// An open, empty mailbox that may hold up to `bound` pending messages.
    pub fn new(bound: usize) -> (r: Mailbox<M>)
        requires
            bound >= 1,
        ensures
            r@ == Seq::<M>::empty(),
            r.bound() == bound,
            !r.is_closed(),
    {
        Mailbox { queue: VecDeque::new(), bound, closed: false }
    }

    /// How many messages are pending.
    pub fn len(&self) -> (r: usize)
        ensures
            r == self@.len(),
    {
        self.queue.len()
    }

    /// Whether the mailbox has been closed.
    pub fn closed_now(&self) -> (r: bool)
        ensures
            r == self.is_closed(),
    {
        self.closed
    }

    /// Enqueue `m` at the back. The send is accepted if and only if the
    /// mailbox is open and not full; a refused message leaves the mailbox
    /// unchanged.
    pub fn send(&mut self, m: M) -> (r: Result<(), SendError>)
        ensures
            final(self).bound() == old(self).bound(),
            final(self).is_closed() == old(self).is_closed(),
            old(self).is_closed() ==> r == Err::<(), SendError>(SendError::Closed)
                && final(self)@ == old(self)@,
            !old(self).is_closed() && old(self)@.len() >= old(self).bound() ==> r == Err::<
                (),
                SendError,
            >(SendError::Full) && final(self)@ == old(self)@,
            !old(self).is_closed() && old(self)@.len() < old(self).bound() ==> r == Ok::<
                (),
                SendError,
            >(()) && final(self)@ == old(self)@.push(m),
    {
        if self.closed {
            Err(SendError::Closed)
        } else if self.queue.len() >= self.bound {
            Err(SendError::Full)
        } else {
            self.queue.push_back(m);
            Ok(())
        }
    }

    /// Dequeue the front message, if any. Messages come out in the order they
    /// were sent.
    pub fn recv(&mut self) -> (r: Option<M>)
        ensures
            final(self).bound() == old(self).bound(),
            final(self).is_closed() == old(self).is_closed(),
            old(self)@.len() == 0 ==> r is None && final(self)@ == old(self)@,
            old(self)@.len() > 0 ==> r == Some(old(self)@[0])
                && final(self)@ == old(self)@.drop_first(),
    {
        self.queue.pop_front()
    }

    /// Close the mailbox: no further sends are accepted, while messages
    /// already queued remain receivable.
    pub fn close(&mut self)
        ensures
            final(self)@ == old(self)@,
            final(self).bound() == old(self).bound(),
            final(self).is_closed(),
    {
        self.closed = true;
    }
}

/// The queue left after the processing loop has received `k` messages from a
/// mailbox that held `q`.
pub open spec fn after_receives<M>(q: Seq<M>, k: int) -> Seq<M>
    decreases k,
{
    if k <= 0 {
        q
    } else {
        after_receives(q, k - 1).drop_first()
    }
}

/// Receiving consumes a mailbox front to back: after `k` receives from a
/// mailbox that held `q`, exactly the messages from position `k` on remain.
pub proof fn lemma_after_receives<M>(q: Seq<M>, k: int)
    requires
        0 <= k <= q.len(),
    ensures
        after_receives(q, k) =~= q.subrange(k, q.len() as int),
    decreases k,
{
    if k > 0 {
        lemma_after_receives(q, k - 1);
    }
}

/// Messages sent to one mailbox are processed strictly in the order they were
/// sent: if a mailbox holding `q` accepts `a` and then `b`, the processing
/// loop receives `a` as its `q.len()`-th message and `b` as the next one, with
/// everything already queued handled before either.
pub proof fn lemma_sends_processed_in_order<M>(q: Seq<M>, a: M, b: M)
    ensures
        after_receives(q.push(a).push(b), q.len() as int)[0] == a,
        after_receives(q.push(a).push(b), q.len() as int + 1)[0] == b,
{
    let q2 = q.push(a).push(b);
    lemma_after_receives(q2, q.len() as int);
    lemma_after_receives(q2, q.len() as int + 1);
}

} // verus!
