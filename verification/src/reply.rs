//! A single-use reply slot.
//!
//! Every request carries one of these; the handler completes it exactly once,
//! on every code path, and the sender of the request takes the result out.
//! Completing an already-completed slot is ruled out statically: `complete`
//! requires the slot to be empty.

use vstd::prelude::*;

verus! {

/// A single-producer, single-consumer slot through which a handler delivers
/// exactly one reply to the sender of a request.
pub struct ReplySlot<T> {
    value: Option<T>,
}

impl<T> ReplySlot<T> {
    /// The reply delivered so far, if any.
    pub closed spec fn reply(&self) -> Option<T> {
        self.value
    }

    /// An empty slot, awaiting its one reply.
    pub fn new() -> (r: ReplySlot<T>)
        ensures
            r.reply() is None,
    {
        ReplySlot { value: None }
    }

    /// Deliver the reply. A slot is completed at most once.
    pub fn complete(&mut self, v: T)
        requires
            old(self).reply() is None,
        ensures
            final(self).reply() == Some(v),
    {
        self.value = Some(v);
    }

    /// Whether a reply has been delivered.
    pub fn is_completed(&self) -> (r: bool)
        ensures
            r == (self.reply() is Some),
    {
        self.value.is_some()
    }

    /// Take the reply out, leaving the slot empty. The sender of the request
    /// calls this once the handler is done.
    pub fn take(&mut self) -> (r: Option<T>)
        ensures
            r == old(self).reply(),
            final(self).reply() is None,
    {
        self.value.take()
    }
}

} // verus!
