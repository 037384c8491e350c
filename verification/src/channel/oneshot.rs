//! Oneshot channel with a receiver wrapping tokio's and yielding this crate's `RecvError` on
//! failure.
//!
//! What tokio answers depends on the other end of the channel, so no answer is promised. Each
//! operation instead states that its result is an answer tokio gives for that very call, on
//! that very handle: the `*_outcome` and `*_reading` predicates below name this relation.

use vstd::prelude::*;

use tokio::sync::oneshot::error::TryRecvError as OneshotTryRecvError;
use tokio::sync::oneshot::Receiver as TokioReceiver;
use tokio::sync::oneshot::Sender as TokioSender;

use crate::errors::RecvError;

verus! {

/// Declares `TokioReceiver<T>` to the verifier as an opaque type.
#[verifier::external_type_specification]
#[verifier::external_body]
#[verifier::reject_recursive_types(T)]
pub struct ExTokioOneshotReceiver<T>(TokioReceiver<T>);

/// Declares `TokioSender<T>` to the verifier as an opaque type.
#[verifier::external_type_specification]
#[verifier::external_body]
#[verifier::reject_recursive_types(T)]
pub struct ExTokioOneshotSender<T>(TokioSender<T>);

/// `tokio::sync::oneshot::channel`: creates a channel for a single value. The halves are fresh
/// values, so nothing is promised of them.
#[verifier::external_body]
fn tokio_channel<T>() -> (TokioSender<T>, TokioReceiver<T>) {
    tokio::sync::oneshot::channel()
}

/// `tokio::sync::oneshot::Receiver::try_recv`: takes the value if it has been sent, or fails
/// with `Empty` or `Closed`. What comes back depends on the sending end.
#[verifier::external_body]
fn tokio_try_recv<T>(rx: &mut TokioReceiver<T>) -> Result<T, OneshotTryRecvError> {
    rx.try_recv()
}

/// `tokio::sync::oneshot::Sender::send`: hands the value to the receiving end, or gives the very
/// same value back when that end is gone. Which of the two happens depends on the receiving end.
#[verifier::external_body]
fn tokio_send<T>(tx: TokioSender<T>, value: T) -> (r: Result<(), T>)
    ensures
        r matches Err(back) ==> back == value,
{
    tx.send(value)
}

/// `tokio::sync::oneshot::Sender::is_closed`: whether the receiving end has been closed or
/// dropped. What it reports depends on that end, so nothing is promised of it.
#[verifier::external_body]
fn tokio_sender_is_closed<T>(tx: &TokioSender<T>) -> bool {
    tx.is_closed()
}

/// `tokio::sync::oneshot::Receiver::close`: prevents the sender from sending a value.
#[verifier::external_body]
fn tokio_close<T>(rx: &mut TokioReceiver<T>) {
    rx.close()
}

/// `tokio::sync::oneshot::Receiver::is_terminated`: whether the value has been taken or the
/// sender dropped. What it reports depends on the sending end, so nothing is promised of it.
#[verifier::external_body]
fn tokio_is_terminated<T>(rx: &TokioReceiver<T>) -> bool {
    rx.is_terminated()
}

/// `tokio::sync::oneshot::Receiver::is_empty`: whether no value is waiting. What it reports
/// depends on the sending end, so nothing is promised of it.
#[verifier::external_body]
fn tokio_is_empty<T>(rx: &TokioReceiver<T>) -> bool {
    rx.is_empty()
}

/// `tx` and `rx` are the halves of one channel, as one call of tokio's `oneshot::channel`
/// makes them.
pub closed spec fn channel_pair<T>(tx: TokioSender<T>, rx: TokioReceiver<T>) -> bool {
    call_ensures(tokio_channel::<T>, (), (tx, rx))
}

/// `answer` is an answer tokio's `Sender::send` gives when `value` is sent through `tx`.
pub closed spec fn send_outcome<T>(tx: TokioSender<T>, value: T, answer: Result<(), T>) -> bool {
    call_ensures(tokio_send::<T>, (tx, value), answer)
}

/// `closed` is an answer tokio's `Sender::is_closed` gives on `tx`.
pub closed spec fn sender_closed_reading<T>(tx: TokioSender<T>, closed: bool) -> bool {
    call_ensures(tokio_sender_is_closed::<T>, (&tx,), closed)
}

/// `answer` is an answer tokio's `Receiver::try_recv` gives on the receiver `rx`.
pub closed spec fn try_recv_outcome<T>(rx: TokioReceiver<T>, answer: Result<T, OneshotTryRecvError>) -> bool {
    exists|handle: &mut TokioReceiver<T>|
        call_ensures(tokio_try_recv::<T>, (handle,), answer) && *handle == rx
}

/// Tokio's `Receiver::close` has been called on the receiver `rx`.
pub closed spec fn close_outcome<T>(rx: TokioReceiver<T>) -> bool {
    exists|handle: &mut TokioReceiver<T>| call_ensures(tokio_close::<T>, (handle,), ()) && *handle == rx
}

/// `terminated` is an answer tokio's `Receiver::is_terminated` gives on `rx`.
pub closed spec fn terminated_reading<T>(rx: TokioReceiver<T>, terminated: bool) -> bool {
    call_ensures(tokio_is_terminated::<T>, (&rx,), terminated)
}

/// `empty` is an answer tokio's `Receiver::is_empty` gives on `rx`.
pub closed spec fn empty_reading<T>(rx: TokioReceiver<T>, empty: bool) -> bool {
    call_ensures(tokio_is_empty::<T>, (&rx,), empty)
}

/// What a receive on this crate's receiver makes of tokio's answer.
pub open spec fn recv_result<T>(answer: Result<T, OneshotTryRecvError>) -> Result<T, RecvError> {
    match answer {
        Ok(v) => Ok(v),
        Err(OneshotTryRecvError::Empty) => Err(RecvError::Empty),
        Err(OneshotTryRecvError::Closed) => Err(RecvError::Closed),
    }
}

/// Sends `value` through `tx`, as tokio's `Sender::send` does: the value comes back when the
/// receiving end is gone.
pub fn send_value<T>(tx: TokioSender<T>, value: T) -> (r: Result<(), T>)
    ensures
        send_outcome(tx, value, r),
        r matches Err(back) ==> back == value,
{
    tokio_send(tx, value)
}

/// Checks if the receiving end of the channel is closed, as tokio's `Sender::is_closed` does.
pub fn sender_is_closed<T>(tx: &TokioSender<T>) -> (r: bool)
    ensures
        sender_closed_reading(*tx, r),
{
    tokio_sender_is_closed(tx)
}

/// A wrapper around tokio's oneshot receiver whose receive methods yield this crate's
/// `RecvError` on failure.
#[verifier::reject_recursive_types(T)]
pub struct Receiver<T>(TokioReceiver<T>);

impl<T> Receiver<T> {
    /// The tokio receiver inside.
    pub closed spec fn inner(&self) -> TokioReceiver<T> {
        self.0
    }

    /// Prevents the associated sender from sending a value (tokio's `Receiver::close`).
    pub fn close(&mut self)
        ensures
            close_outcome(old(self).inner()),
    {
        tokio_close(&mut self.0)
    }

    /// Checks if this receiver is terminated (tokio's `Receiver::is_terminated`).
    pub fn is_terminated(&self) -> (r: bool)
        ensures
            terminated_reading(self.inner(), r),
    {
        tokio_is_terminated(&self.0)
    }

    /// Checks if the channel is empty (tokio's `Receiver::is_empty`).
    pub fn is_empty(&self) -> (r: bool)
        ensures
            empty_reading(self.inner(), r),
    {
        tokio_is_empty(&self.0)
    }

    /// Attempts to receive a value: what tokio's `try_recv` answers on the receiver inside,
    /// failing with `Empty` while none has been sent and with `Closed` once the sender is gone
    /// or the value was taken.
    pub fn try_recv(&mut self) -> (r: Result<T, RecvError>)
        ensures
            exists|answer: Result<T, OneshotTryRecvError>|
                try_recv_outcome(old(self).inner(), answer) && r
                    == recv_result(answer),
    {
        let answer = tokio_try_recv(&mut self.0);
        let r = match answer {
            Ok(v) => Ok(v),
            Err(e) => Err(RecvError::from(e)),
        };
        assert(try_recv_outcome(old(self).inner(), answer));
        assert(r == recv_result(answer));
        r
    }

    /// Returns the tokio receiver inside, for the asynchronous and blocking receive operations.
    pub fn inner_mut(&mut self) -> (r: &mut TokioReceiver<T>)
        ensures
            *r == old(self).inner(),
            final(self).inner() == *final(r),
    {
        &mut self.0
    }

    /// Unwraps the tokio receiver inside.
    pub fn into_inner(self) -> (r: TokioReceiver<T>)
        ensures
            r == self.inner(),
    {
        self.0
    }
}

/// Creates a new oneshot channel, returning the sender/receiver halves, which tokio makes
/// together.
pub fn channel<T>() -> (r: (TokioSender<T>, Receiver<T>))
    ensures
        channel_pair(r.0, r.1.inner()),
{
    let (tx, rx) = tokio_channel();
    (tx, Receiver(rx))
}

} // verus!
