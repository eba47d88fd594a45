//! The generic service harness: a request-handler interface and the runtime
//! that owns one mailbox and one handler.
//!
//! A service runtime pulls requests strictly in arrival order and hands them
//! to its handler one at a time — no reordering, no per-request concurrency
//! within one service — so state-affecting operations of one service are
//! serialized without locks. The ghost `processed` log records the order in
//! which requests were handled; the contracts tie it to the order in which
//! they were sent.

use crate::mailbox::{Mailbox, SendError};
use vstd::prelude::*;

verus! {

/// The capability a service implements: given one request, produce the action
/// its driver must perform next. `admits` is the handler's input domain;
/// `action_of` says, as the implementing type's own contract, what the
/// returned action is for each admitted request.
pub trait RequestHandler<M>: Sized {
    /// What the handler asks its driver to do for one request.
    type Action;

    /// Which requests the handler accepts.
    spec fn admits(request: M) -> bool;

    /// What handling `request` in state `self` yields: the action handed back
    /// and the handler state left behind.
    spec fn action_of(&self, request: M, action: Self::Action, post: Self) -> bool;

    /// Handle one dequeued request.
    fn handle_request(&mut self, request: M) -> (r: Self::Action)
        requires
            Self::admits(request),
        ensures
            old(self).action_of(request, r, *final(self)),
    ;
}

/// A service: one mailbox, one handler, and a loop (run by the driver) that
/// dequeues and handles one request at a time for the lifetime of the process.
pub struct ServiceRuntime<M, H: RequestHandler<M>> {
    /// The service's bounded, ordered mailbox.
    pub mailbox: Mailbox<M>,
    /// The service's one request handler.
    pub handler: H,
    /// The requests handled so far, oldest first.
    pub processed: Ghost<Seq<M>>,
}

impl<M, H: RequestHandler<M>> ServiceRuntime<M, H> {
    /// A runtime for `handler` whose mailbox may hold up to `bound` pending
    /// requests.
    pub fn new(bound: usize, handler: H) -> (r: ServiceRuntime<M, H>)
        requires
            bound >= 1,
        ensures
            r.mailbox@ == Seq::<M>::empty(),
            r.mailbox.bound() == bound,
            !r.mailbox.is_closed(),
            r.handler == handler,
            r.processed@ == Seq::<M>::empty(),
    {
        ServiceRuntime {
            mailbox: Mailbox::new(bound),
            handler,
            processed: Ghost(Seq::empty()),
        }
    }

    /// Enqueue one request for this service. Accepted if and only if the
    /// mailbox is open and not full.
    pub fn send(&mut self, request: M) -> (r: Result<(), SendError>)
        requires
            H::admits(request),
        ensures
            final(self).handler == old(self).handler,
            final(self).processed == old(self).processed,
            final(self).mailbox.bound() == old(self).mailbox.bound(),
            final(self).mailbox.is_closed() == old(self).mailbox.is_closed(),
            old(self).mailbox.is_closed() ==> r == Err::<(), SendError>(SendError::Closed)
                && final(self).mailbox@ == old(self).mailbox@,
            !old(self).mailbox.is_closed() && old(self).mailbox@.len() >= old(
                self,
            ).mailbox.bound() ==> r == Err::<(), SendError>(SendError::Full)
                && final(self).mailbox@ == old(self).mailbox@,
            !old(self).mailbox.is_closed() && old(self).mailbox@.len() < old(self).mailbox.bound()
                ==> r == Ok::<(), SendError>(()) && final(self).mailbox@ == old(
                self,
            ).mailbox@.push(request),
    {
        self.mailbox.send(request)
    }

    /// One turn of the processing loop: dequeue the oldest pending request, if
    /// any, and hand it to the handler. The request handled is always the
    /// front of the mailbox — requests are processed in the order they were
    /// sent — and its action is the handler's own `action_of`.
    pub fn step(&mut self) -> (r: Option<H::Action>)
        requires
            forall|i: int|
                0 <= i < old(self).mailbox@.len() ==> H::admits(#[trigger] old(self).mailbox@[i]),
        ensures
            final(self).mailbox.bound() == old(self).mailbox.bound(),
            final(self).mailbox.is_closed() == old(self).mailbox.is_closed(),
            old(self).mailbox@.len() == 0 ==> r is None && final(self).mailbox@ == old(
                self,
            ).mailbox@ && final(self).handler == old(self).handler && final(self).processed == old(
                self,
            ).processed,
            old(self).mailbox@.len() > 0 ==> (r matches Some(action) && {
                &&& final(self).mailbox@ == old(self).mailbox@.drop_first()
                &&& final(self).processed@ == old(self).processed@.push(old(self).mailbox@[0])
                &&& old(self).handler.action_of(old(self).mailbox@[0], action, final(self).handler)
            }),
    {
        match self.mailbox.recv() {
            Some(request) => {
                let ghost dequeued = request;
                let action = self.handler.handle_request(request);
                proof {
                    self.processed@ = self.processed@.push(dequeued);
                }
                Some(action)
            },
            None => None,
        }
    }

    /// One burst of the service's processing loop: dequeue and handle pending
    /// requests, oldest first, until the mailbox is empty, collecting the
    /// handlers' actions in processing order. The requests handled are exactly
    /// the requests that were pending, appended to the log in the order they
    /// were sent.
    pub fn process_pending(&mut self) -> (actions: Vec<H::Action>)
        requires
            forall|i: int|
                0 <= i < old(self).mailbox@.len() ==> H::admits(#[trigger] old(self).mailbox@[i]),
        ensures
            final(self).mailbox@.len() == 0,
            final(self).processed@ =~= old(self).processed@ + old(self).mailbox@,
            actions@.len() == old(self).mailbox@.len(),
            final(self).mailbox.bound() == old(self).mailbox.bound(),
            final(self).mailbox.is_closed() == old(self).mailbox.is_closed(),
    {
        let mut actions: Vec<H::Action> = Vec::new();
        while self.mailbox.len() != 0
            invariant
                forall|i: int|
                    0 <= i < self.mailbox@.len() ==> H::admits(#[trigger] self.mailbox@[i]),
                self.processed@ + self.mailbox@ =~= old(self).processed@ + old(self).mailbox@,
                actions@.len() + self.mailbox@.len() == old(self).mailbox@.len(),
                self.mailbox.bound() == old(self).mailbox.bound(),
                self.mailbox.is_closed() == old(self).mailbox.is_closed(),
            decreases self.mailbox@.len(),
        {
            let ghost queued = self.mailbox@;
            let ghost logged = self.processed@;
            match self.step() {
                Some(action) => {
                    actions.push(action);
                    proof {
                        assert(self.processed@ + self.mailbox@ =~= logged + queued);
                    }
                },
                None => {},
            }
        }
        proof {
            assert(self.processed@ + self.mailbox@ =~= self.processed@);
        }
        actions
    }
}

} // verus!
