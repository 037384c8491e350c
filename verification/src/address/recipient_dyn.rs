//! A recipient of messages of one type, whatever actor or channel they go to.

use vstd::prelude::*;

use crate::channel::oneshot;
use crate::errors::SendError;
use crate::index::{ActorId, SenderId};
use crate::message::Message;
use super::sender::{given_back, Sender};

verus! {

/// A recipient of messages of type `M`: any sender of them, behind a box, so that addresses of
/// different actors which handle `M`, and channel-backed recipients, can be used alike.
#[verifier::reject_recursive_types(M)]
pub struct Recipient<M: Message> {
    sender: Box<dyn Sender<M>>,
}

impl<M: Message> Recipient<M> {
    /// `r` is what the `try_send` of `msg` by the sender behind the recipient can give: the
    /// message went to that sender's own `try_send`.
    pub closed spec fn forwarded_try_send(
        &self,
        msg: M,
        r: Result<oneshot::Receiver<M::Result>, SendError<M>>,
    ) -> bool {
        (*self.sender).try_send_outcome(msg, r)
    }

    /// `r` is what the `try_do_send` of `msg` by the sender behind the recipient can give: the
    /// message went to that sender's own `try_do_send`.
    pub closed spec fn forwarded_try_do_send(&self, msg: M, r: Result<(), SendError<M>>) -> bool {
        (*self.sender).try_do_send_outcome(msg, r)
    }

    /// Constructs a recipient from a boxed sender.
    pub fn new(sender: Box<dyn Sender<M>>) -> Self {
        Recipient { sender }
    }

    /// Checks if the channel of the sender is closed.
    pub fn is_closed(&self) -> bool {
        self.sender.is_closed()
    }

    /// Returns the capacity of the channel of the sender.
    pub fn capacity(&self) -> usize {
        self.sender.capacity()
    }

    /// Attempts to send a message through the sender and returns a receiver for its response.
    /// A refused message comes back inside the error.
    pub fn try_send(&self, msg: M) -> (r: Result<oneshot::Receiver<M::Result>, SendError<M>>)
        ensures
            self.forwarded_try_send(msg, r),
            r matches Err(e) ==> given_back(e) == msg,
    {
        let ghost m = msg;
        let r = (*self.sender).try_send(msg);
        assert((*self.sender).try_send_outcome(m, r));
        r
    }

    /// Attempts to send a message through the sender without expecting a response. A refused
    /// message comes back inside the error.
    pub fn try_do_send(&self, msg: M) -> (r: Result<(), SendError<M>>)
        ensures
            self.forwarded_try_do_send(msg, r),
            r matches Err(e) ==> given_back(e) == msg,
    {
        let ghost m = msg;
        let r = (*self.sender).try_do_send(msg);
        assert((*self.sender).try_do_send_outcome(m, r));
        r
    }
}

impl<M: Message> SenderId for Recipient<M> {
    fn index(&self) -> ActorId {
        self.sender.index()
    }
}

/// Law: a recipient's `try_send` is its sender's own `try_send` of the same message, so that
/// what it returns is what that sender's `try_send` gives (a receiver for the response of the
/// message that sender delivered), never what its `try_do_send` gives.
pub proof fn law_recipient_try_send_forwards<M: Message>(
    recipient: Recipient<M>,
    msg: M,
    r: Result<oneshot::Receiver<M::Result>, SendError<M>>,
)
    requires
        call_ensures(Recipient::<M>::try_send, (&recipient, msg), r),
    ensures
        recipient.forwarded_try_send(msg, r),
        r matches Err(e) ==> given_back(e) == msg,
{
}

/// Law: a recipient's `try_do_send` is its sender's own `try_do_send` of the same message, so
/// that the message is delivered the way that sender delivers a message expecting no response.
pub proof fn law_recipient_try_do_send_forwards<M: Message>(
    recipient: Recipient<M>,
    msg: M,
    r: Result<(), SendError<M>>,
)
    requires
        call_ensures(Recipient::<M>::try_do_send, (&recipient, msg), r),
    ensures
        recipient.forwarded_try_do_send(msg, r),
        r matches Err(e) ==> given_back(e) == msg,
{
}

} // verus!
