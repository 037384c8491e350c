//! Sending a message without awaiting: what the address of an actor and a recipient have in
//! common.

use vstd::prelude::*;

use crate::channel::oneshot;
use crate::errors::SendError;
use crate::index::SenderId;
use crate::message::Message;

verus! {

/// The message a send error gives back.
pub open spec fn given_back<M>(e: SendError<M>) -> M {
    match e {
        SendError::Closed(m) => m,
        SendError::Full(m) => m,
        SendError::Timeout(m) => m,
        SendError::Other(_, m) => m,
    }
}

/// `r` is the outcome of a send of `msg` that was refused only by a full or closed channel, and
/// that gave the message back when refused.
pub open spec fn full_or_closed<T, M>(r: Result<T, SendError<M>>, msg: M) -> bool {
    match r {
        Ok(_) => true,
        Err(SendError::Full(back)) => back == msg,
        Err(SendError::Closed(back)) => back == msg,
        Err(_) => false,
    }
}

/// Describes how to send a message of type `M` without waiting.
pub trait Sender<M: Message>: SenderId + Send + Sync {
    /// Checks if the channel is closed.
    fn is_closed(&self) -> bool;

    /// Returns the capacity of the channel.
    fn capacity(&self) -> usize;

    /// `r` is what this sender's `try_send` of `msg` can give.
    spec fn try_send_outcome(&self, msg: M, r: Result<oneshot::Receiver<M::Result>, SendError<M>>) -> bool;

    /// `r` is what this sender's `try_do_send` of `msg` can give.
    spec fn try_do_send_outcome(&self, msg: M, r: Result<(), SendError<M>>) -> bool;

    /// Attempts to send a message and returns a receiver for its response. A refused message
    /// comes back inside the error.
    fn try_send(&self, msg: M) -> (r: Result<oneshot::Receiver<M::Result>, SendError<M>>)
        ensures
            self.try_send_outcome(msg, r),
            r matches Err(e) ==> given_back(e) == msg,
    ;

    /// Attempts to send a message without expecting a response. A refused message comes back
    /// inside the error.
    fn try_do_send(&self, msg: M) -> (r: Result<(), SendError<M>>)
        ensures
            self.try_do_send_outcome(msg, r),
            r matches Err(e) ==> given_back(e) == msg,
    ;
}

} // verus!
