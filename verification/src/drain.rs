//! Selection of the mailbox draining behavior of an actor context.
//!
//! Discarding queued messages is a niche capability with sharp edges, so an actor opts into it
//! explicitly by picking the drain policy of its context. With the default [`NoDrain`] policy
//! the per-context state is zero-sized and the mailbox is never measured.

use vstd::prelude::*;

use crate::address::Mailbox;
use crate::channel::mpsc::len_reading;

verus! {

/// Describes how an actor context discards messages already queued in its mailbox.
///
/// The two implementations are [`NoDrain`] and [`Drainable`].
pub trait DrainPolicy {
    /// The state the policy keeps in the context, `()` when draining is unsupported.
    type State: Default;

    /// Records how many messages are queued behind the message which is about to be handled.
    fn snapshot<E>(state: &mut Self::State, mailbox: &Mailbox<E>);

    /// Discards the recorded messages if the message handler has requested a drain.
    fn apply<E>(state: &mut Self::State, mailbox: &mut Mailbox<E>);
}

/// The default drain policy, which does not support draining at all.
#[derive(Debug, Clone, Copy)]
pub struct NoDrain;

impl DrainPolicy for NoDrain {
    type State = ();

    fn snapshot<E>(state: &mut Self::State, mailbox: &Mailbox<E>)
        ensures
            *final(state) == *old(state),
    {
    }

    fn apply<E>(state: &mut Self::State, mailbox: &mut Mailbox<E>)
        ensures
            *final(state) == *old(state),
            *final(mailbox) == *old(mailbox),
    {
    }
}

/// The drain policy which supports discarding queued messages.
#[derive(Debug, Clone, Copy)]
pub struct Drainable;

/// The state kept by the [`Drainable`] policy.
#[derive(Debug)]
pub struct DrainState {
    mailbox_len: usize,
    requested: bool,
}

impl DrainState {
    /// How many queued messages the last snapshot recorded.
    pub closed spec fn snapshot_len(&self) -> nat {
        self.mailbox_len as nat
    }

    /// Whether a drain of the recorded messages has been requested.
    pub closed spec fn drain_requested(&self) -> bool {
        self.requested
    }

    /// Requests a drain of the messages recorded by the last snapshot.
    pub fn request(&mut self)
        ensures
            final(self).drain_requested(),
            final(self).snapshot_len() == old(self).snapshot_len(),
    {
        self.requested = true;
    }
}

impl Default for DrainState {
    fn default() -> (r: Self)
        ensures
            r.snapshot_len() == 0,
            !r.drain_requested(),
    {
        DrainState { mailbox_len: 0, requested: false }
    }
}

impl DrainPolicy for Drainable {
    type State = DrainState;

    fn snapshot<E>(state: &mut Self::State, mailbox: &Mailbox<E>)
        ensures
            final(state).drain_requested() == old(state).drain_requested(),
            exists|n: usize|
                len_reading(mailbox.inner(), n) && final(state).snapshot_len() == n,
    {
        state.mailbox_len = mailbox.len();
    }

    fn apply<E>(state: &mut Self::State, mailbox: &mut Mailbox<E>)
        ensures
            !final(state).drain_requested(),
            final(state).snapshot_len() == old(state).snapshot_len(),
            !old(state).drain_requested() ==> *final(mailbox) == *old(mailbox),
            old(state).drain_requested() ==> {
                &&& final(mailbox).receive_attempts() == old(mailbox).receive_attempts()
                    + old(state).snapshot_len()
                &&& old(mailbox).received().is_prefix_of(final(mailbox).received())
                &&& final(mailbox).received().len() <= old(mailbox).received().len()
                    + old(state).snapshot_len()
            },
    {
        if state.requested {
            let n = state.mailbox_len;
            let mut i: usize = 0;
            while i < n
                invariant
                    i <= n,
                    n == old(state).snapshot_len(),
                    mailbox.receive_attempts() == old(mailbox).receive_attempts() + i,
                    old(mailbox).received().is_prefix_of(mailbox.received()),
                    mailbox.received().len() <= old(mailbox).received().len() + i,
                decreases n - i,
            {
                // one receive per message recorded by the snapshot; each takes the oldest
                // envelope still queued
                let _ = mailbox.try_recv();
                i = i + 1;
            }
            state.requested = false;
        }
    }
}

} // verus!
