//! The address of a local actor: the sending end of its mailbox, and the index it is known by.

use vstd::prelude::*;

use tokio::sync::mpsc::error::SendError as MpscSendError;
use tokio::sync::mpsc::error::SendTimeoutError as MpscSendTimeoutError;
use tokio::sync::mpsc::error::TrySendError as MpscTrySendError;
use tokio::sync::mpsc::OwnedPermit as TokioOwnedPermit;
use tokio::sync::mpsc::Permit as TokioPermit;
use tokio::sync::mpsc::Sender as TokioSender;

use crate::channel::mpsc;
use crate::channel::mpsc::{
    lemma_try_send_gives_back, sender_capacity_reading, sender_clone_of, sender_closed_reading,
    try_send_outcome,
};
use crate::channel::oneshot;
use super::recipient::hash_u64;
use crate::envelope::IntoEnvelope;
use crate::errors::SendError;
use crate::index::{ActorId, SenderId};
use super::sender::{full_or_closed, Sender};

verus! {

/// Declares tokio's `OwnedPermit<T>` to the verifier as an opaque type.
#[verifier::external_type_specification]
#[verifier::external_body]
#[verifier::reject_recursive_types(T)]
pub struct ExTokioOwnedPermit<T>(TokioOwnedPermit<T>);

/// Declares tokio's `Permit<'a, T>` to the verifier as an opaque type.
#[verifier::external_type_specification]
#[verifier::external_body]
#[verifier::reject_recursive_types(T)]
pub struct ExTokioPermit<'a, T>(TokioPermit<'a, T>);

/// `tokio::sync::mpsc::Sender::try_reserve_owned`: reserves room for one value in the channel,
/// consuming the sender handle; when there is no room (`Full`) or the receiving end is gone
/// (`Closed`) tokio's `TrySendError` gives the handle back. Which of these happens depends on the
/// other ends of the channel, so nothing is promised of it.
#[verifier::external_body]
fn tokio_try_reserve_owned<T>(tx: TokioSender<T>) -> Result<
    TokioOwnedPermit<T>,
    MpscTrySendError<TokioSender<T>>,
> {
    tx.try_reserve_owned()
}

/// `tokio::sync::mpsc::Sender::try_reserve`: reserves room for one value in the channel,
/// borrowing the sender handle; fails with `Full(())` when there is no room and `Closed(())` when
/// the receiving end is gone. Which of these happens depends on the other ends of the channel, so
/// nothing is promised of it.
#[verifier::external_body]
fn tokio_try_reserve<'a, T>(tx: &'a TokioSender<T>) -> Result<
    TokioPermit<'a, T>,
    MpscTrySendError<()>,
> {
    tx.try_reserve()
}

/// `answer` is an answer tokio's `Sender::try_reserve_owned` gives on the handle `tx`.
pub closed spec fn reserve_owned_outcome<T>(
    tx: TokioSender<T>,
    answer: Result<TokioOwnedPermit<T>, MpscTrySendError<TokioSender<T>>>,
) -> bool {
    call_ensures(tokio_try_reserve_owned::<T>, (tx,), answer)
}

/// `answer` is an answer tokio's `Sender::try_reserve` gives on the handle `tx`.
pub closed spec fn reserve_outcome<'a, T>(
    tx: &'a TokioSender<T>,
    answer: Result<TokioPermit<'a, T>, MpscTrySendError<()>>,
) -> bool {
    call_ensures(tokio_try_reserve::<T>, (tx,), answer)
}

/// This crate's error for a failed reservation: `Full(())` or `Closed(())`, as tokio answered.
pub open spec fn reserve_error<T>(e: MpscTrySendError<T>) -> SendError<()> {
    match e {
        MpscTrySendError::Full(_) => SendError::Full(()),
        MpscTrySendError::Closed(_) => SendError::Closed(()),
    }
}

/// Room reserved in an actor's mailbox for one envelope; it owns a handle on the mailbox.
#[verifier::reject_recursive_types(E)]
pub struct OwnedSendPermit<E> {
    permit: TokioOwnedPermit<E>,
}

impl<E> OwnedSendPermit<E> {
    /// Tokio's permit inside.
    pub closed spec fn permit(&self) -> TokioOwnedPermit<E> {
        self.permit
    }

    /// Wraps a permit tokio reserved on a handle of its own.
    pub fn new(permit: TokioOwnedPermit<E>) -> (r: Self)
        ensures
            r.permit() == permit,
    {
        OwnedSendPermit { permit }
    }

    /// Returns tokio's permit inside, which sends the envelope.
    pub fn into_inner(self) -> (r: TokioOwnedPermit<E>)
        ensures
            r == self.permit(),
    {
        self.permit
    }
}

/// Room reserved in an actor's mailbox for one envelope, borrowing the address.
#[verifier::reject_recursive_types(E)]
pub struct SendPermit<'a, E> {
    permit: TokioPermit<'a, E>,
}

impl<'a, E> SendPermit<'a, E> {
    /// Tokio's permit inside.
    pub closed spec fn permit(&self) -> TokioPermit<'a, E> {
        self.permit
    }

    /// Wraps a permit tokio reserved on a borrowed handle.
    pub fn new(permit: TokioPermit<'a, E>) -> (r: Self)
        ensures
            r.permit() == permit,
    {
        SendPermit { permit }
    }

    /// Returns tokio's permit inside, which sends the envelope.
    pub fn into_inner(self) -> (r: TokioPermit<'a, E>)
        ensures
            r == self.permit(),
    {
        self.permit
    }
}

/// The error of a send that was refused, with the message taken back out of its envelope.
pub open spec fn refused_with<E, M: IntoEnvelope<E>>(e: MpscTrySendError<E>) -> SendError<M> {
    match e {
        MpscTrySendError::Full(envelope) => SendError::Full(M::packed_in(envelope)->0),
        MpscTrySendError::Closed(envelope) => SendError::Closed(M::packed_in(envelope)->0),
    }
}

/// The envelope a refused send gives back.
pub open spec fn refused_envelope<T>(e: MpscTrySendError<T>) -> T {
    match e {
        MpscTrySendError::Full(v) => v,
        MpscTrySendError::Closed(v) => v,
    }
}

/// The address of a local actor, through which envelopes of type `E` reach its mailbox.
#[verifier::reject_recursive_types(E)]
pub struct Address<E> {
    index: u64,
    tx: TokioSender<E>,
}

impl<E> Address<E> {
    /// The actor index of this address.
    pub closed spec fn index_value(&self) -> u64 {
        self.index
    }

    /// The sending half of the mailbox this address sends into.
    pub closed spec fn channel(&self) -> TokioSender<E> {
        self.tx
    }

    /// Constructs the address of the actor with the index part of `id`, whose mailbox `tx`
    /// sends into.
    pub fn new(id: ActorId, tx: TokioSender<E>) -> (r: Self)
        ensures
            r.index_value() == id.index_part(),
            r.channel() == tx,
    {
        Address { index: id.as_u64(), tx }
    }

    /// Returns the index of the address.
    pub fn index(&self) -> (r: ActorId)
        ensures
            r.index_part() == self.index_value(),
            r.epoch_part() == 0,
    {
        ActorId::new(self.index)
    }

    /// Checks if the mailbox of the actor is closed: tokio's `Sender::is_closed` on this
    /// address's channel.
    pub fn is_closed(&self) -> (r: bool)
        ensures
            sender_closed_reading(self.channel(), r),
    {
        mpsc::sender_is_closed(&self.tx)
    }

    /// Returns the current capacity of the mailbox of the actor: tokio's `Sender::capacity` on
    /// this address's channel.
    pub fn capacity(&self) -> (r: usize)
        ensures
            sender_capacity_reading(self.channel(), r),
    {
        mpsc::sender_capacity(&self.tx)
    }

    /// Returns the sending half of the mailbox, for the asynchronous and blocking sends.
    pub fn sender(&self) -> (r: &TokioSender<E>)
        ensures
            *r == self.channel(),
    {
        &self.tx
    }

    /// Attempts to immediately send a message and returns a receiver for its response. The
    /// message, packed with the sending half of a fresh oneshot channel, goes to tokio's
    /// `try_send` on this address's channel; on success the other half is returned. A refused
    /// message is taken back out of its envelope and comes back inside the error: `Full` when the
    /// mailbox has no room, `Closed` when the actor is gone, as tokio answers.
    pub fn try_send<M: IntoEnvelope<E>>(&self, msg: M) -> (r: Result<
        oneshot::Receiver<M::Result>,
        SendError<M>,
    >)
        ensures
            exists|envelope: E, answer: Result<(), MpscTrySendError<E>>|
                M::packed_in(envelope) == Some(msg) && try_send_outcome(
                    self.channel(),
                    envelope,
                    answer,
                ) && match answer {
                    Ok(()) => r matches Ok(rx) && exists|tx|
                        oneshot::channel_pair(tx, rx.inner()) && M::reply_channel_in(envelope)
                            == Some(tx),
                    Err(e) => r == Err::<oneshot::Receiver<M::Result>, SendError<M>>(
                        refused_with::<E, M>(e),
                    ),
                },
            full_or_closed(r, msg),
    {
        let ghost m = msg;
        let (envelope, result_rx) = pack_request(msg);
        let ghost sent = envelope;
        let answer = mpsc::try_send(&self.tx, envelope);
        let ghost receiver = result_rx;
        let r = match answer {
            Ok(()) => Ok(result_rx),
            Err(e) => Err(unpack_refused(e)),
        };
        assert(M::packed_in(sent) == Some(m) && try_send_outcome(self.channel(), sent, answer));
        let ghost reply_to = choose|tx|
            oneshot::channel_pair(tx, receiver.inner()) && M::reply_channel_in(sent) == Some(tx);
        assert(oneshot::channel_pair(reply_to, receiver.inner()) && M::reply_channel_in(sent)
            == Some(reply_to));
        proof {
            if answer is Ok {
                assert(r is Ok);
                assert(r->Ok_0 == receiver);
                assert(oneshot::channel_pair(reply_to, r->Ok_0.inner()));
            }
        }
        r
    }

    /// Attempts to immediately send a message without expecting a response: the message, packed
    /// with no result channel, goes to tokio's `try_send` on this address's channel. A refused
    /// message comes back inside the error, as with [`try_send`](Self::try_send).
    pub fn try_do_send<M: IntoEnvelope<E>>(&self, msg: M) -> (r: Result<(), SendError<M>>)
        ensures
            exists|envelope: E, answer: Result<(), MpscTrySendError<E>>|
                M::packed_in(envelope) == Some(msg) && M::reply_channel_in(envelope) is None
                    && try_send_outcome(self.channel(), envelope, answer) && r == match answer {
                    Ok(()) => Ok::<(), SendError<M>>(()),
                    Err(e) => Err(refused_with::<E, M>(e)),
                },
            full_or_closed(r, msg),
    {
        let ghost m = msg;
        let envelope = msg.pack(None);
        let ghost sent = envelope;
        let answer = mpsc::try_send(&self.tx, envelope);
        let r = match answer {
            Ok(()) => Ok(()),
            Err(e) => Err(unpack_refused(e)),
        };
        assert(M::packed_in(sent) == Some(m) && try_send_outcome(self.channel(), sent, answer));
        r
    }

    /// Attempts to reserve room for one message in the mailbox, borrowing the address: tokio's
    /// `try_reserve` on this address's channel. Fails with `Full(())` when the mailbox has no
    /// room and with `Closed(())` when the actor is gone, as tokio answers.
    pub fn try_reserve(&self) -> (r: Result<SendPermit<'_, E>, SendError<()>>)
        ensures
            exists|answer: Result<TokioPermit<'_, E>, MpscTrySendError<()>>|
                reserve_outcome(&self.channel(), answer) && match answer {
                    Ok(permit) => r matches Ok(p) && p.permit() == permit,
                    Err(e) => r == Err::<SendPermit<'_, E>, SendError<()>>(reserve_error(e)),
                },
    {
        let answer = tokio_try_reserve(&self.tx);
        let r = match answer {
            Ok(permit) => Ok(SendPermit { permit }),
            Err(MpscTrySendError::Full(())) => Err(SendError::Full(())),
            Err(MpscTrySendError::Closed(())) => Err(SendError::Closed(())),
        };
        assert(reserve_outcome(&self.channel(), answer));
        r
    }

    /// Attempts to reserve room for one message in the mailbox, on a handle of its own: tokio's
    /// `try_reserve_owned` on a clone of this address's channel. Fails with `Full(())` when the
    /// mailbox has no room and with `Closed(())` when the actor is gone, as tokio answers.
    pub fn try_reserve_owned(&self) -> (r: Result<OwnedSendPermit<E>, SendError<()>>)
        ensures
            exists|
                handle: TokioSender<E>,
                answer: Result<TokioOwnedPermit<E>, MpscTrySendError<TokioSender<E>>>,
            |
                sender_clone_of(self.channel(), handle) && reserve_owned_outcome(handle, answer)
                    && match answer {
                    Ok(permit) => r matches Ok(p) && p.permit() == permit,
                    Err(e) => r == Err::<OwnedSendPermit<E>, SendError<()>>(reserve_error(e)),
                },
    {
        let handle = mpsc::sender_clone(&self.tx);
        let ghost h = handle;
        let answer = tokio_try_reserve_owned(handle);
        assert(reserve_owned_outcome(h, answer));
        match answer {
            Ok(permit) => Ok(OwnedSendPermit { permit }),
            Err(MpscTrySendError::Full(_)) => Err(SendError::Full(())),
            Err(MpscTrySendError::Closed(_)) => Err(SendError::Closed(())),
        }
    }
}

/// Packs a message for a send that waits for its response, with the sending half of a fresh
/// oneshot channel, and returns the envelope with the other half, on which the response arrives.
pub fn pack_request<E, M: IntoEnvelope<E>>(msg: M) -> (r: (E, oneshot::Receiver<M::Result>))
    ensures
        M::packed_in(r.0) == Some(msg),
        exists|tx| oneshot::channel_pair(tx, r.1.inner()) && M::reply_channel_in(r.0) == Some(tx),
{
    let (result_tx, result_rx) = oneshot::channel();
    let ghost reply_to = result_tx;
    let envelope = msg.pack(Some(result_tx));
    let r = (envelope, result_rx);
    assert(oneshot::channel_pair(reply_to, r.1.inner()) && M::reply_channel_in(r.0) == Some(
        reply_to,
    ));
    r
}

/// Turns tokio's error for a refused immediate send into this crate's, taking the message back
/// out of the envelope it gives back.
pub fn unpack_refused<E, M: IntoEnvelope<E>>(e: MpscTrySendError<E>) -> (r: SendError<M>)
    requires
        M::packed_in(refused_envelope(e)) is Some,
    ensures
        r == refused_with::<E, M>(e),
{
    match e {
        MpscTrySendError::Full(envelope) => SendError::Full(M::unpack(envelope)),
        MpscTrySendError::Closed(envelope) => SendError::Closed(M::unpack(envelope)),
    }
}

/// Turns tokio's error for a send refused by a closed mailbox into this crate's, taking the
/// message back out of the envelope it gives back.
pub fn unpack_closed<E, M: IntoEnvelope<E>>(e: MpscSendError<E>) -> (r: SendError<M>)
    requires
        M::packed_in(e.0) is Some,
    ensures
        r == SendError::Closed(M::packed_in(e.0)->0),
{
    SendError::Closed(M::unpack(e.0))
}

/// Turns tokio's error for a send that timed out or found the mailbox closed into this crate's,
/// taking the message back out of the envelope it gives back.
pub fn unpack_timed_out<E, M: IntoEnvelope<E>>(e: MpscSendTimeoutError<E>) -> (r: SendError<M>)
    requires
        match e {
            MpscSendTimeoutError::Timeout(envelope) => M::packed_in(envelope) is Some,
            MpscSendTimeoutError::Closed(envelope) => M::packed_in(envelope) is Some,
        },
    ensures
        r == match e {
            MpscSendTimeoutError::Timeout(envelope) => SendError::Timeout(
                M::packed_in(envelope)->0,
            ),
            MpscSendTimeoutError::Closed(envelope) => SendError::Closed(M::packed_in(envelope)->0),
        },
{
    match e {
        MpscSendTimeoutError::Timeout(envelope) => SendError::Timeout(M::unpack(envelope)),
        MpscSendTimeoutError::Closed(envelope) => SendError::Closed(M::unpack(envelope)),
    }
}

impl<E> Clone for Address<E> {
    fn clone(&self) -> (r: Self)
        ensures
            r.index_value() == self.index_value(),
            sender_clone_of(self.channel(), r.channel()),
    {
        Address { index: self.index, tx: mpsc::sender_clone(&self.tx) }
    }
}

impl<E> PartialEq for Address<E> {
    fn eq(&self, other: &Self) -> (r: bool) {
        self.index == other.index
    }
}

impl<E> vstd::std_specs::cmp::PartialEqSpecImpl for Address<E> {
    open spec fn obeys_eq_spec() -> bool {
        true
    }

    open spec fn eq_spec(&self, other: &Self) -> bool {
        self.index_value() == other.index_value()
    }
}

impl<E> Eq for Address<E> {}

impl<E> core::hash::Hash for Address<E> {
    fn hash<H: core::hash::Hasher>(&self, state: &mut H) {
        hash_u64(self.index, state)
    }
}

impl<E> SenderId for Address<E> {
    fn index(&self) -> (r: ActorId)
        ensures
            r.index_part() == self.index_value(),
            r.epoch_part() == 0,
    {
        ActorId::new(self.index)
    }
}

impl<E: Send, M: IntoEnvelope<E>> Sender<M> for Address<E> {
    /// The message, packed with the sending half of a fresh oneshot channel, went to tokio's
    /// `try_send` on this address's channel; on success the other half came back.
    open spec fn try_send_outcome(
        &self,
        msg: M,
        r: Result<oneshot::Receiver<M::Result>, SendError<M>>,
    ) -> bool {
        exists|envelope: E, answer: Result<(), MpscTrySendError<E>>|
            M::packed_in(envelope) == Some(msg) && try_send_outcome(self.channel(), envelope, answer)
                && match answer {
                Ok(()) => r matches Ok(rx) && exists|tx|
                    oneshot::channel_pair(tx, rx.inner()) && M::reply_channel_in(envelope) == Some(
                        tx,
                    ),
                Err(e) => r == Err::<oneshot::Receiver<M::Result>, SendError<M>>(
                    refused_with::<E, M>(e),
                ),
            }
    }

    /// The message, packed with no result channel, went to tokio's `try_send` on this address's
    /// channel.
    open spec fn try_do_send_outcome(&self, msg: M, r: Result<(), SendError<M>>) -> bool {
        exists|envelope: E, answer: Result<(), MpscTrySendError<E>>|
            M::packed_in(envelope) == Some(msg) && M::reply_channel_in(envelope) is None
                && try_send_outcome(self.channel(), envelope, answer) && r == match answer {
                Ok(()) => Ok::<(), SendError<M>>(()),
                Err(e) => Err(refused_with::<E, M>(e)),
            }
    }

    fn is_closed(&self) -> (r: bool)
        ensures
            sender_closed_reading(self.channel(), r),
    {
        Address::is_closed(self)
    }

    fn capacity(&self) -> (r: usize)
        ensures
            sender_capacity_reading(self.channel(), r),
    {
        Address::capacity(self)
    }

    fn try_send(&self, msg: M) -> (r: Result<oneshot::Receiver<M::Result>, SendError<M>>)
        ensures
            full_or_closed(r, msg),
    {
        Address::try_send(self, msg)
    }

    fn try_do_send(&self, msg: M) -> (r: Result<(), SendError<M>>)
        ensures
            full_or_closed(r, msg),
    {
        Address::try_do_send(self, msg)
    }
}

/// Law: when an address's `try_send` (called directly, or through a recipient) succeeds with
/// `rx`, the message was delivered to the address's channel packed with a reply channel, and
/// `rx` is the receiver paired with that reply channel, so a reply sent on it reaches `rx`.
pub proof fn law_address_try_send_carries_reply<E: Send, M: IntoEnvelope<E>>(
    address: Address<E>,
    msg: M,
    rx: oneshot::Receiver<M::Result>,
)
    requires
        <Address<E> as Sender<M>>::try_send_outcome(&address, msg, Ok(rx)),
    ensures
        exists|envelope: E, tx|
            M::packed_in(envelope) == Some(msg) && M::reply_channel_in(envelope) == Some(tx)
                && oneshot::channel_pair(tx, rx.inner()) && try_send_outcome(
                address.channel(),
                envelope,
                Ok(()),
            ),
{
    let (envelope, answer) = choose|envelope: E, answer: Result<(), MpscTrySendError<E>>|
        M::packed_in(envelope) == Some(msg) && try_send_outcome(address.channel(), envelope, answer)
            && match answer {
            Ok(()) => Ok::<oneshot::Receiver<M::Result>, SendError<M>>(rx) matches Ok(r) && exists|tx|
                oneshot::channel_pair(tx, r.inner()) && M::reply_channel_in(envelope) == Some(tx),
            Err(e) => Ok::<oneshot::Receiver<M::Result>, SendError<M>>(rx) == Err::<
                oneshot::Receiver<M::Result>,
                SendError<M>,
            >(refused_with::<E, M>(e)),
        };
    assert(answer is Ok);
    let unit: () = answer->Ok_0;
    assert(answer == Ok::<(), MpscTrySendError<E>>(unit));
    let tx = choose|tx| oneshot::channel_pair(tx, rx.inner()) && M::reply_channel_in(envelope) == Some(tx);
    assert(M::packed_in(envelope) == Some(msg) && M::reply_channel_in(envelope) == Some(tx)
        && oneshot::channel_pair(tx, rx.inner()) && try_send_outcome(address.channel(), envelope, Ok(())));
}

/// Law: an address's `try_do_send` (called directly, or through a recipient) delivers the
/// message to the address's channel packed with no reply channel, and succeeds exactly when
/// tokio accepted it there; a refused message comes back.
pub proof fn law_address_try_do_send_without_reply<E: Send, M: IntoEnvelope<E>>(
    address: Address<E>,
    msg: M,
    r: Result<(), SendError<M>>,
)
    requires
        <Address<E> as Sender<M>>::try_do_send_outcome(&address, msg, r),
    ensures
        exists|envelope: E, answer: Result<(), MpscTrySendError<E>>|
            M::packed_in(envelope) == Some(msg) && M::reply_channel_in(envelope) is None
                && try_send_outcome(address.channel(), envelope, answer) && (r is Ok
                <==> answer is Ok),
        r matches Err(e) ==> (e == SendError::Full(msg) || e == SendError::Closed(msg)),
{
    let (envelope, answer) = choose|envelope: E, answer: Result<(), MpscTrySendError<E>>|
        M::packed_in(envelope) == Some(msg) && M::reply_channel_in(envelope) is None
            && try_send_outcome(address.channel(), envelope, answer) && r == match answer {
            Ok(()) => Ok::<(), SendError<M>>(()),
            Err(e) => Err(refused_with::<E, M>(e)),
        };
    if answer is Err {
        lemma_try_send_gives_back(address.channel(), envelope, answer);
    }
}

} // verus!
