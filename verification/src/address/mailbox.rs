//! The mailbox of an actor.

use vstd::prelude::*;

use tokio::sync::mpsc::error::TryRecvError as MpscTryRecvError;
use tokio::sync::mpsc::Receiver as TokioReceiver;

use crate::channel::mpsc;
use crate::channel::mpsc::{
    capacity_reading, close_outcome, closed_reading, empty_reading, len_reading,
    max_capacity_reading, recv_result, try_recv_outcome,
};
use crate::errors::RecvError;

verus! {

/// The mailbox of an actor, which holds a queue of envelopes (of type `E`) to be processed by
/// the actor. Beside the receiver it keeps, for the proofs, the envelopes taken out through it, in
/// the order they came, and the number of receive attempts made on it.
#[verifier::reject_recursive_types(E)]
pub struct Mailbox<E> {
    rx: mpsc::Receiver<E>,
    taken: Ghost<Seq<E>>,
    attempts: Ghost<nat>,
}

impl<E> Mailbox<E> {
    /// The tokio receiver inside.
    pub closed spec fn inner(&self) -> TokioReceiver<E> {
        self.rx.inner()
    }

    /// The envelopes taken out of the mailbox by `try_recv`, oldest first.
    pub closed spec fn received(&self) -> Seq<E> {
        self.taken@
    }

    /// The number of calls of `try_recv` made on the mailbox.
    pub closed spec fn receive_attempts(&self) -> nat {
        self.attempts@
    }

    /// Constructs a new `Mailbox` with the given receiver.
    pub fn new(rx: mpsc::Receiver<E>) -> (r: Self)
        ensures
            r.inner() == rx.inner(),
            r.received() == Seq::<E>::empty(),
            r.receive_attempts() == 0,
    {
        Mailbox { rx, taken: Ghost(Seq::empty()), attempts: Ghost(0) }
    }

    /// Tries to receive the next message for this mailbox: what tokio's `try_recv` answers on
    /// the receiver inside, the oldest queued envelope, which is then recorded as received. Fails
    /// with `Empty` or `Closed`, taking nothing.
    pub fn try_recv(&mut self) -> (r: Result<E, RecvError>)
        ensures
            final(self).inner() == old(self).inner(),
            exists|answer: Result<E, MpscTryRecvError>|
                try_recv_outcome(old(self).inner(), answer) && r
                    == recv_result(answer),
            final(self).receive_attempts() == old(self).receive_attempts() + 1,
            match r {
                Ok(v) => final(self).received() == old(self).received().push(v),
                Err(e) => (e is Empty || e is Closed) && final(self).received() == old(
                    self,
                ).received(),
            },
    {
        let r = self.rx.try_recv();
        proof {
            self.attempts@ = self.attempts@ + 1;
            if r is Ok {
                self.taken@ = self.taken@.push(r->Ok_0);
            }
        }
        r
    }

    /// Closes the mailbox, preventing any new messages from being sent to it.
    pub fn close(&mut self)
        ensures
            final(self).inner() == old(self).inner(),
            close_outcome(old(self).inner()),
            final(self).received() == old(self).received(),
            final(self).receive_attempts() == old(self).receive_attempts(),
    {
        self.rx.close()
    }

    /// Checks if a mailbox is closed.
    pub fn is_closed(&self) -> (r: bool)
        ensures
            closed_reading(self.inner(), r),
    {
        self.rx.is_closed()
    }

    /// Checks if a mailbox is empty.
    pub fn is_empty(&self) -> (r: bool)
        ensures
            empty_reading(self.inner(), r),
    {
        self.rx.is_empty()
    }

    /// Returns the number of messages in the mailbox.
    pub fn len(&self) -> (r: usize)
        ensures
            len_reading(self.inner(), r),
    {
        self.rx.len()
    }

    /// Returns the current capacity of the mailbox.
    pub fn capacity(&self) -> (r: usize)
        ensures
            capacity_reading(self.inner(), r),
    {
        self.rx.capacity()
    }

    /// Returns the maximum buffer capacity of the mailbox.
    pub fn max_capacity(&self) -> (r: usize)
        ensures
            max_capacity_reading(self.inner(), r),
    {
        self.rx.max_capacity()
    }

    /// Returns the tokio receiver inside, for the asynchronous receive operation.
    pub fn inner_mut(&mut self) -> (r: &mut TokioReceiver<E>)
        ensures
            *r == old(self).inner(),
            final(self).inner() == *final(r),
            final(self).received() == old(self).received(),
            final(self).receive_attempts() == old(self).receive_attempts(),
    {
        self.rx.inner_mut()
    }
}

} // verus!
