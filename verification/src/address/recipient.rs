//! A recipient which is not backed by any actor: messages go straight into a channel.

use vstd::prelude::*;

use tokio::sync::mpsc::Sender as TokioSender;

use tokio::sync::mpsc::error::TrySendError as MpscTrySendError;

use crate::channel::mpsc;
use crate::channel::mpsc::{
    sender_capacity_reading, sender_clone_of, sender_closed_reading, try_send_outcome,
};
use crate::channel::oneshot;
use crate::errors::{try_send_error, SendError};
use crate::index::{ActorId, SenderId};
use super::sender::{full_or_closed, Sender};
use crate::message::Message;

verus! {

/// `<u64 as Hash>::hash`: feeds an integer to a hasher. What the hasher does with it is the
/// hasher's own affair, so nothing is promised of it.
#[verifier::external_body]
pub(crate) fn hash_u64<H: core::hash::Hasher>(value: u64, state: &mut H) {
    core::hash::Hash::hash(&value, state)
}

/// A recipient which is not backed by any actor: it sends messages, whose result is empty,
/// straight into a channel, and is identified by an actor index of its own.
#[verifier::reject_recursive_types(M)]
pub struct RecipientProxy<M: Message<Result = ()>> {
    index: u64,
    tx: TokioSender<M>,
}

impl<M: Message<Result = ()>> RecipientProxy<M> {
    /// The actor index of this recipient.
    pub closed spec fn index_value(&self) -> u64 {
        self.index
    }

    /// The sending half of the channel this recipient sends into.
    pub closed spec fn channel(&self) -> TokioSender<M> {
        self.tx
    }

    /// Constructs a recipient sending into `tx`, identified by the index part of `id`.
    pub fn new(id: ActorId, tx: TokioSender<M>) -> (r: Self)
        ensures
            r.index_value() == id.index_part(),
            r.channel() == tx,
    {
        RecipientProxy { index: id.as_u64(), tx }
    }

    /// Returns the index of the recipient.
    pub fn index(&self) -> (r: ActorId)
        ensures
            r.index_part() == self.index_value(),
            r.epoch_part() == 0,
    {
        ActorId::new(self.index)
    }

    /// Checks if the channel is closed.
    pub fn is_closed(&self) -> (r: bool)
        ensures
            sender_closed_reading(self.channel(), r),
    {
        mpsc::sender_is_closed(&self.tx)
    }

    /// Returns the current capacity of the channel.
    pub fn capacity(&self) -> (r: usize)
        ensures
            sender_capacity_reading(self.channel(), r),
    {
        mpsc::sender_capacity(&self.tx)
    }

    /// Attempts to immediately send a message without expecting a response: the message goes
    /// to tokio's `try_send` on this recipient's channel, and a refused message comes back inside
    /// the error, `Full` when the channel has no room and `Closed` when its receiving end is
    /// gone, as tokio answers.
    pub fn try_do_send(&self, msg: M) -> (r: Result<(), SendError<M>>)
        ensures
            exists|answer: Result<(), MpscTrySendError<M>>|
                try_send_outcome(self.channel(), msg, answer) && r == match answer {
                    Ok(()) => Ok::<(), SendError<M>>(()),
                    Err(e) => Err(try_send_error(e)),
                },
            match r {
                Ok(()) => true,
                Err(SendError::Full(back)) => back == msg,
                Err(SendError::Closed(back)) => back == msg,
                Err(_) => false,
            },
    {
        let ghost m = msg;
        let answer = mpsc::try_send(&self.tx, msg);
        let r = match answer {
            Ok(()) => Ok(()),
            Err(e) => Err(SendError::from(e)),
        };
        assert(try_send_outcome(self.channel(), m, answer));
        r
    }

    /// Attempts to immediately send a message and returns a receiver for its response. Since
    /// the result of the message is empty, the response is sent at once: the receiver is the
    /// other half of a fresh channel on which `()` was sent. The message goes to tokio's
    /// `try_send` as with [`try_do_send`](Self::try_do_send), and a refused message comes back
    /// inside the error.
    pub fn try_send(&self, msg: M) -> (r: Result<oneshot::Receiver<()>, SendError<M>>)
        ensures
            exists|answer: Result<(), MpscTrySendError<M>>|
                try_send_outcome(self.channel(), msg, answer) && match answer {
                    Ok(()) => r matches Ok(rx) && exists|tx, sent|
                        oneshot::channel_pair(tx, rx.inner()) && oneshot::send_outcome(
                            tx,
                            (),
                            sent,
                        ),
                    Err(e) => r == Err::<oneshot::Receiver<()>, SendError<M>>(
                        try_send_error(e),
                    ),
                },
            match r {
                Ok(_) => true,
                Err(SendError::Full(back)) => back == msg,
                Err(SendError::Closed(back)) => back == msg,
                Err(_) => false,
            },
    {
        let ghost m = msg;
        let answer = mpsc::try_send(&self.tx, msg);
        assert(try_send_outcome(self.channel(), m, answer));
        match answer {
            Ok(()) => {
                let (tx, rx) = oneshot::channel();
                let ghost reply_to = tx;
                let sent = oneshot::send_value(tx, ());
                assert(oneshot::channel_pair(reply_to, rx.inner()) && oneshot::send_outcome(
                    reply_to,
                    (),
                    sent,
                ));
                Ok(rx)
            },
            Err(e) => Err(SendError::from(e)),
        }
    }

    /// Returns the sending half of the channel, for the asynchronous and blocking send
    /// operations.
    pub fn sender(&self) -> (r: &TokioSender<M>)
        ensures
            *r == self.channel(),
    {
        &self.tx
    }
}

impl<M: Message<Result = ()>> Clone for RecipientProxy<M> {
    fn clone(&self) -> (r: Self)
        ensures
            r.index_value() == self.index_value(),
            sender_clone_of(self.channel(), r.channel()),
    {
        RecipientProxy { index: self.index, tx: mpsc::sender_clone(&self.tx) }
    }
}

impl<M: Message<Result = ()>> PartialEq for RecipientProxy<M> {
    fn eq(&self, other: &Self) -> (r: bool) {
        self.index == other.index
    }
}

impl<M: Message<Result = ()>> vstd::std_specs::cmp::PartialEqSpecImpl for RecipientProxy<M> {
    open spec fn obeys_eq_spec() -> bool {
        true
    }

    open spec fn eq_spec(&self, other: &Self) -> bool {
        self.index_value() == other.index_value()
    }
}

impl<M: Message<Result = ()>> Eq for RecipientProxy<M> {}

impl<M: Message<Result = ()>> core::hash::Hash for RecipientProxy<M> {
    fn hash<H: core::hash::Hasher>(&self, state: &mut H) {
        hash_u64(self.index, state)
    }
}

impl<M: Message<Result = ()>> SenderId for RecipientProxy<M> {
    fn index(&self) -> (r: ActorId)
        ensures
            r.index_part() == self.index_value(),
            r.epoch_part() == 0,
    {
        ActorId::new(self.index)
    }
}

impl<M: Message<Result = ()> + Send> Sender<M> for RecipientProxy<M> {
    /// The message went to tokio's `try_send` on this recipient's channel; on success the
    /// receiver is the other half of a fresh channel on which `()` was sent.
    open spec fn try_send_outcome(
        &self,
        msg: M,
        r: Result<oneshot::Receiver<()>, SendError<M>>,
    ) -> bool {
        exists|answer: Result<(), MpscTrySendError<M>>|
            try_send_outcome(self.channel(), msg, answer) && match answer {
                Ok(()) => r matches Ok(rx) && exists|tx, sent|
                    oneshot::channel_pair(tx, rx.inner()) && oneshot::send_outcome(tx, (), sent),
                Err(e) => r == Err::<oneshot::Receiver<()>, SendError<M>>(try_send_error(e)),
            }
    }

    /// The message went to tokio's `try_send` on this recipient's channel.
    open spec fn try_do_send_outcome(&self, msg: M, r: Result<(), SendError<M>>) -> bool {
        exists|answer: Result<(), MpscTrySendError<M>>|
            try_send_outcome(self.channel(), msg, answer) && r == match answer {
                Ok(()) => Ok::<(), SendError<M>>(()),
                Err(e) => Err(try_send_error(e)),
            }
    }

    fn is_closed(&self) -> (r: bool)
        ensures
            sender_closed_reading(self.channel(), r),
    {
        RecipientProxy::is_closed(self)
    }

    fn capacity(&self) -> (r: usize)
        ensures
            sender_capacity_reading(self.channel(), r),
    {
        RecipientProxy::capacity(self)
    }

    fn try_send(&self, msg: M) -> (r: Result<oneshot::Receiver<()>, SendError<M>>)
        ensures
            full_or_closed(r, msg),
    {
        RecipientProxy::try_send(self, msg)
    }

    fn try_do_send(&self, msg: M) -> (r: Result<(), SendError<M>>)
        ensures
            full_or_closed(r, msg),
    {
        RecipientProxy::try_do_send(self, msg)
    }
}

} // verus!
