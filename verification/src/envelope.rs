//! Envelopes: how a message and the channel for its result travel through a mailbox, and the
//! default envelope proxy of a message.

use vstd::prelude::*;

use tokio::sync::oneshot::Sender as TokioSender;

use crate::channel::oneshot::{sender_closed_reading, sender_is_closed};
use crate::message::Message;

verus! {

/// A message which travels to an actor packed in an envelope of type `E`, and which can be taken
/// back out of the envelope when the actor cannot be reached.
pub trait IntoEnvelope<E>: Message + Sized {
    /// The message of this type which `envelope` holds, if it holds one.
    spec fn packed_in(envelope: E) -> Option<Self>;

    /// The channel on which the result of the message packed in `envelope` goes back, if the
    /// sender waits for one.
    spec fn reply_channel_in(envelope: E) -> Option<TokioSender<Self::Result>>;

    /// Packs the message, with the channel on which its result goes back when the sender waits
    /// for one.
    fn pack(self, tx: Option<TokioSender<Self::Result>>) -> (r: E)
        ensures
            Self::packed_in(r) == Some(self),
            Self::reply_channel_in(r) == tx,
    ;

    /// Whether `envelope` still holds a message of this type.
    fn holds(envelope: &E) -> (r: bool)
        ensures
            r == Self::packed_in(*envelope) is Some,
    ;

    /// Takes the message back out of an envelope which holds one.
    fn unpack(envelope: E) -> (r: Self)
        requires
            Self::packed_in(envelope) is Some,
        ensures
            Self::packed_in(envelope) == Some(r),
    ;
}

/// The default envelope proxy for a [`Message`]: the message itself and, when the sender asked
/// for one, the channel on which its result is returned.
pub struct DefaultEnvelopeProxy<M: Message> {
    message: Option<M>,
    tx: Option<TokioSender<M::Result>>,
}

impl<M: Message> DefaultEnvelopeProxy<M> {
    /// The message still held by the proxy.
    pub closed spec fn held_message(&self) -> Option<M> {
        self.message
    }

    /// The result channel still held by the proxy.
    pub closed spec fn held_sender(&self) -> Option<TokioSender<M::Result>> {
        self.tx
    }

    /// Packs a message and the optional channel for its result.
    pub fn new(message: M, tx: Option<TokioSender<M::Result>>) -> (r: Self)
        ensures
            r.held_message() == Some(message),
            r.held_sender() == tx,
    {
        DefaultEnvelopeProxy { message: Some(message), tx }
    }

    /// Whether the proxy still holds its message.
    pub fn has_message(&self) -> (r: bool)
        ensures
            r == self.held_message() is Some,
    {
        self.message.is_some()
    }

    /// Takes the message out of the envelope proxy, leaving `None` in its place.
    pub fn message(&mut self) -> (r: Option<M>)
        ensures
            r == old(self).held_message(),
            final(self).held_message() is None,
            final(self).held_sender() == old(self).held_sender(),
    {
        self.message.take()
    }

    /// Takes the message and its result channel out of the proxy for handling, leaving `None`
    /// in both places. Nothing is returned when the message is gone already, or when the
    /// sender asked for a result but has stopped waiting for it (its receiver is closed).
    pub fn take_for_handling(&mut self) -> (r: Option<(M, Option<TokioSender<M::Result>>)>)
        ensures
            final(self).held_message() is None,
            final(self).held_sender() is None,
            match old(self).held_message() {
                None => r is None,
                Some(m) => match old(self).held_sender() {
                    None => r == Some::<(M, Option<TokioSender<M::Result>>)>((m, None)),
                    Some(tx) => exists|closed: bool|
                        sender_closed_reading(tx, closed) && r == if closed {
                            None::<(M, Option<TokioSender<M::Result>>)>
                        } else {
                            Some((m, Some(tx)))
                        },
                },
            },
    {
        let tx = self.tx.take();
        match self.message.take() {
            None => None,
            Some(msg) => {
                let skip = match &tx {
                    Some(sender) => sender_is_closed(sender),
                    None => false,
                };
                if skip {
                    None
                } else {
                    Some((msg, tx))
                }
            },
        }
    }
}

/// A message travels in its default envelope proxy, which holds it until it is taken out.
impl<M: Message> IntoEnvelope<DefaultEnvelopeProxy<M>> for M {
    open spec fn packed_in(envelope: DefaultEnvelopeProxy<M>) -> Option<M> {
        envelope.held_message()
    }

    open spec fn reply_channel_in(envelope: DefaultEnvelopeProxy<M>) -> Option<
        TokioSender<M::Result>,
    > {
        envelope.held_sender()
    }

    fn pack(self, tx: Option<TokioSender<M::Result>>) -> (r: DefaultEnvelopeProxy<M>) {
        DefaultEnvelopeProxy::new(self, tx)
    }

    fn holds(envelope: &DefaultEnvelopeProxy<M>) -> (r: bool) {
        envelope.has_message()
    }

    fn unpack(envelope: DefaultEnvelopeProxy<M>) -> (r: M) {
        let mut envelope = envelope;
        envelope.message().unwrap()
    }
}

} // verus!
