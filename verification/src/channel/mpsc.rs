//! Mpsc channel with a receiver wrapping tokio's and yielding this crate's `RecvError` on
//! failure, and the operations on tokio's sending half that the addresses use.
//!
//! What tokio answers depends on the other ends of the channel, so no answer is promised. Each
//! operation instead states that its result is an answer tokio gives for that very call, on
//! that very handle: the `*_outcome` and `*_reading` predicates below name this relation.

use vstd::prelude::*;

use tokio::sync::mpsc::error::TryRecvError as MpscTryRecvError;
use tokio::sync::mpsc::error::TrySendError as MpscTrySendError;
use tokio::sync::mpsc::Receiver as TokioReceiver;
use tokio::sync::mpsc::Sender as TokioSender;

use crate::errors::RecvError;

verus! {

/// Declares `TokioReceiver<T>` to the verifier as an opaque type.
#[verifier::external_type_specification]
#[verifier::external_body]
#[verifier::reject_recursive_types(T)]
pub struct ExTokioMpscReceiver<T>(TokioReceiver<T>);

/// Declares `TokioSender<T>` to the verifier as an opaque type.
#[verifier::external_type_specification]
#[verifier::external_body]
#[verifier::reject_recursive_types(T)]
pub struct ExTokioMpscSender<T>(TokioSender<T>);

/// `tokio::sync::mpsc::channel`: creates a bounded channel with room for `capacity` messages.
/// It panics when `capacity` is zero or above the semaphore limit `usize::MAX >> 3`.
#[verifier::external_body]
fn tokio_channel<T>(capacity: usize) -> (TokioSender<T>, TokioReceiver<T>)
    requires
        0 < capacity <= usize::MAX / 8,
{
    tokio::sync::mpsc::channel(capacity)
}

/// `tokio::sync::mpsc::Receiver::try_recv`: takes the next queued message, or fails with
/// `Empty` or `Disconnected`. What comes back depends on the other ends of the channel. The
/// receiver's own fields (a shared handle on the channel) are left as they were.
#[verifier::external_body]
fn tokio_try_recv<T>(rx: &mut TokioReceiver<T>) -> (r: Result<T, MpscTryRecvError>)
    ensures
        *final(rx) == *old(rx),
{
    rx.try_recv()
}

/// `tokio::sync::mpsc::Receiver::close`: closes the receiving half of the channel without
/// dropping it. The receiver's own fields (a shared handle on the channel) are left as they
/// were.
#[verifier::external_body]
fn tokio_close<T>(rx: &mut TokioReceiver<T>)
    ensures
        *final(rx) == *old(rx),
{
    rx.close()
}

/// `tokio::sync::mpsc::Receiver::is_closed`. What it reports depends on the other ends of the
/// channel, so nothing is promised of it.
#[verifier::external_body]
fn tokio_is_closed<T>(rx: &TokioReceiver<T>) -> bool {
    rx.is_closed()
}

/// `tokio::sync::mpsc::Receiver::is_empty`. What it reports depends on the other ends of the
/// channel, so nothing is promised of it.
#[verifier::external_body]
fn tokio_is_empty<T>(rx: &TokioReceiver<T>) -> bool {
    rx.is_empty()
}

/// `tokio::sync::mpsc::Receiver::len`. What it reports depends on the other ends of the
/// channel, so nothing is promised of it.
#[verifier::external_body]
fn tokio_len<T>(rx: &TokioReceiver<T>) -> usize {
    rx.len()
}

/// `tokio::sync::mpsc::Receiver::capacity`. What it reports depends on the other ends of the
/// channel, so nothing is promised of it.
#[verifier::external_body]
fn tokio_capacity<T>(rx: &TokioReceiver<T>) -> usize {
    rx.capacity()
}

/// `tokio::sync::mpsc::Receiver::max_capacity`: the capacity the channel was made with. Only
/// the type of the answer is promised.
#[verifier::external_body]
fn tokio_max_capacity<T>(rx: &TokioReceiver<T>) -> usize {
    rx.max_capacity()
}

/// `tokio::sync::mpsc::Receiver::sender_strong_count`. What it reports depends on the other
/// ends of the channel, so nothing is promised of it.
#[verifier::external_body]
fn tokio_sender_strong_count<T>(rx: &TokioReceiver<T>) -> usize {
    rx.sender_strong_count()
}

/// `tokio::sync::mpsc::Receiver::sender_weak_count`. What it reports depends on the other ends
/// of the channel, so nothing is promised of it.
#[verifier::external_body]
fn tokio_sender_weak_count<T>(rx: &TokioReceiver<T>) -> usize {
    rx.sender_weak_count()
}

/// `tokio::sync::mpsc::Sender::try_send`: queues the value if the channel has room; otherwise
/// tokio's `TrySendError` gives the very same value back, as `Full` when the channel has no room
/// and as `Closed` when its receiving end is gone. Which of these happens depends on the other
/// ends of the channel at the time of the call, so only the value given back is promised.
#[verifier::external_body]
fn tokio_try_send<T>(tx: &TokioSender<T>, value: T) -> (r: Result<(), MpscTrySendError<T>>)
    ensures
        match r {
            Ok(()) => true,
            Err(MpscTrySendError::Full(back)) => back == value,
            Err(MpscTrySendError::Closed(back)) => back == value,
        },
{
    tx.try_send(value)
}

/// `tokio::sync::mpsc::Sender::is_closed`: whether the receiving end is closed or dropped. What
/// it reports depends on the other ends of the channel, so nothing is promised of it.
#[verifier::external_body]
fn tokio_sender_is_closed<T>(tx: &TokioSender<T>) -> bool {
    tx.is_closed()
}

/// `tokio::sync::mpsc::Sender::capacity`: the room currently left in the channel. What it
/// reports depends on the other ends of the channel, so nothing is promised of it.
#[verifier::external_body]
fn tokio_sender_capacity<T>(tx: &TokioSender<T>) -> usize {
    tx.capacity()
}

/// `tokio::sync::mpsc::Sender::clone`: another handle on the same channel. The handle is a
/// fresh value, so nothing is promised of it.
#[verifier::external_body]
fn tokio_sender_clone<T>(tx: &TokioSender<T>) -> TokioSender<T> {
    tx.clone()
}

/// `answer` is an answer tokio's `Sender::try_send` gives when `value` is offered through `tx`.
pub closed spec fn try_send_outcome<T>(
    tx: TokioSender<T>,
    value: T,
    answer: Result<(), MpscTrySendError<T>>,
) -> bool {
    call_ensures(tokio_try_send::<T>, (&tx, value), answer)
}

/// Whatever tokio answers to a `try_send`, a refused value is the value offered.
pub proof fn lemma_try_send_gives_back<T>(
    tx: TokioSender<T>,
    value: T,
    answer: Result<(), MpscTrySendError<T>>,
)
    requires
        try_send_outcome(tx, value, answer),
    ensures
        match answer {
            Ok(()) => true,
            Err(MpscTrySendError::Full(back)) => back == value,
            Err(MpscTrySendError::Closed(back)) => back == value,
        },
{
}

/// `closed` is an answer tokio's `Sender::is_closed` gives on `tx`.
pub closed spec fn sender_closed_reading<T>(tx: TokioSender<T>, closed: bool) -> bool {
    call_ensures(tokio_sender_is_closed::<T>, (&tx,), closed)
}

/// `room` is an answer tokio's `Sender::capacity` gives on `tx`.
pub closed spec fn sender_capacity_reading<T>(tx: TokioSender<T>, room: usize) -> bool {
    call_ensures(tokio_sender_capacity::<T>, (&tx,), room)
}

/// `copy` is a handle tokio's `Sender::clone` gives for `tx`.
pub closed spec fn sender_clone_of<T>(tx: TokioSender<T>, copy: TokioSender<T>) -> bool {
    call_ensures(tokio_sender_clone::<T>, (&tx,), copy)
}

/// Offers `value` to the channel through `tx`, as tokio's `Sender::try_send` does.
pub fn try_send<T>(tx: &TokioSender<T>, value: T) -> (r: Result<(), MpscTrySendError<T>>)
    ensures
        try_send_outcome(*tx, value, r),
        match r {
            Ok(()) => true,
            Err(MpscTrySendError::Full(back)) => back == value,
            Err(MpscTrySendError::Closed(back)) => back == value,
        },
{
    tokio_try_send(tx, value)
}

/// Checks if the receiving end of the channel is closed, as tokio's `Sender::is_closed` does.
pub fn sender_is_closed<T>(tx: &TokioSender<T>) -> (r: bool)
    ensures
        sender_closed_reading(*tx, r),
{
    tokio_sender_is_closed(tx)
}

/// Returns the room currently left in the channel, as tokio's `Sender::capacity` does.
pub fn sender_capacity<T>(tx: &TokioSender<T>) -> (r: usize)
    ensures
        sender_capacity_reading(*tx, r),
{
    tokio_sender_capacity(tx)
}

/// Returns another handle on the channel, as tokio's `Sender::clone` does.
pub fn sender_clone<T>(tx: &TokioSender<T>) -> (r: TokioSender<T>)
    ensures
        sender_clone_of(*tx, r),
{
    tokio_sender_clone(tx)
}

/// `answer` is an answer tokio's `Receiver::try_recv` gives on the receiver `rx`.
pub closed spec fn try_recv_outcome<T>(rx: TokioReceiver<T>, answer: Result<T, MpscTryRecvError>) -> bool {
    exists|handle: &mut TokioReceiver<T>|
        call_ensures(tokio_try_recv::<T>, (handle,), answer) && *handle == rx
}

/// Tokio's `Receiver::close` has been called on the receiver `rx`.
pub closed spec fn close_outcome<T>(rx: TokioReceiver<T>) -> bool {
    exists|handle: &mut TokioReceiver<T>| call_ensures(tokio_close::<T>, (handle,), ()) && *handle == rx
}

/// `closed` is an answer tokio's `Receiver::is_closed` gives on `rx`.
pub closed spec fn closed_reading<T>(rx: TokioReceiver<T>, closed: bool) -> bool {
    call_ensures(tokio_is_closed::<T>, (&rx,), closed)
}

/// `empty` is an answer tokio's `Receiver::is_empty` gives on `rx`.
pub closed spec fn empty_reading<T>(rx: TokioReceiver<T>, empty: bool) -> bool {
    call_ensures(tokio_is_empty::<T>, (&rx,), empty)
}

/// `n` is an answer tokio's `Receiver::len` gives on `rx`.
pub closed spec fn len_reading<T>(rx: TokioReceiver<T>, n: usize) -> bool {
    call_ensures(tokio_len::<T>, (&rx,), n)
}

/// `n` is an answer tokio's `Receiver::capacity` gives on `rx`.
pub closed spec fn capacity_reading<T>(rx: TokioReceiver<T>, n: usize) -> bool {
    call_ensures(tokio_capacity::<T>, (&rx,), n)
}

/// `n` is an answer tokio's `Receiver::max_capacity` gives on `rx`.
pub closed spec fn max_capacity_reading<T>(rx: TokioReceiver<T>, n: usize) -> bool {
    call_ensures(tokio_max_capacity::<T>, (&rx,), n)
}

/// `n` is an answer tokio's `Receiver::sender_strong_count` gives on `rx`.
pub closed spec fn strong_count_reading<T>(rx: TokioReceiver<T>, n: usize) -> bool {
    call_ensures(tokio_sender_strong_count::<T>, (&rx,), n)
}

/// `n` is an answer tokio's `Receiver::sender_weak_count` gives on `rx`.
pub closed spec fn weak_count_reading<T>(rx: TokioReceiver<T>, n: usize) -> bool {
    call_ensures(tokio_sender_weak_count::<T>, (&rx,), n)
}

/// `tx` and `rx` are the halves tokio's `mpsc::channel` makes for `capacity`.
pub closed spec fn channel_halves<T>(capacity: usize, tx: TokioSender<T>, rx: TokioReceiver<T>) -> bool {
    call_ensures(tokio_channel::<T>, (capacity,), (tx, rx))
}

/// What a receive on this crate's receivers makes of tokio's answer.
pub open spec fn recv_result<T>(answer: Result<T, MpscTryRecvError>) -> Result<T, RecvError> {
    match answer {
        Ok(v) => Ok(v),
        Err(MpscTryRecvError::Empty) => Err(RecvError::Empty),
        Err(MpscTryRecvError::Disconnected) => Err(RecvError::Closed),
    }
}

/// A wrapper around tokio's mpsc receiver whose receive methods return this crate's
/// `RecvError` on failure.
#[verifier::reject_recursive_types(T)]
pub struct Receiver<T>(TokioReceiver<T>);

impl<T> Receiver<T> {
    /// The tokio receiver inside.
    pub closed spec fn inner(&self) -> TokioReceiver<T> {
        self.0
    }

    /// Tries to receive the next value for this receiver: what tokio's `try_recv` answers on
    /// the receiver inside, with its error turned into this crate's (`Empty`, or `Closed` for
    /// a disconnected channel).
    pub fn try_recv(&mut self) -> (r: Result<T, RecvError>)
        ensures
            final(self).inner() == old(self).inner(),
            exists|answer: Result<T, MpscTryRecvError>|
                try_recv_outcome(old(self).inner(), answer) && r
                    == recv_result(answer),
    {
        let answer = tokio_try_recv(&mut self.0);
        let r = match answer {
            Ok(v) => Ok(v),
            Err(e) => Err(RecvError::from(e)),
        };
        assert(try_recv_outcome(old(self).inner(), answer));
        assert(r == recv_result(answer));
        r
    }

    /// Closes the receiving half of the channel without dropping it.
    pub fn close(&mut self)
        ensures
            final(self).inner() == old(self).inner(),
            close_outcome(old(self).inner()),
    {
        tokio_close(&mut self.0)
    }

    /// Checks if the channel is closed.
    pub fn is_closed(&self) -> (r: bool)
        ensures
            closed_reading(self.inner(), r),
    {
        tokio_is_closed(&self.0)
    }

    /// Checks if the channel is empty.
    pub fn is_empty(&self) -> (r: bool)
        ensures
            empty_reading(self.inner(), r),
    {
        tokio_is_empty(&self.0)
    }

    /// Returns the number of messages in the channel.
    pub fn len(&self) -> (r: usize)
        ensures
            len_reading(self.inner(), r),
    {
        tokio_len(&self.0)
    }

    /// Returns the current capacity of the channel.
    pub fn capacity(&self) -> (r: usize)
        ensures
            capacity_reading(self.inner(), r),
    {
        tokio_capacity(&self.0)
    }

    /// Returns the maximum buffer capacity of the channel.
    pub fn max_capacity(&self) -> (r: usize)
        ensures
            max_capacity_reading(self.inner(), r),
    {
        tokio_max_capacity(&self.0)
    }

    /// Returns the number of `Sender` handles.
    pub fn sender_strong_count(&self) -> (r: usize)
        ensures
            strong_count_reading(self.inner(), r),
    {
        tokio_sender_strong_count(&self.0)
    }

    /// Returns the number of `WeakSender` handles.
    pub fn sender_weak_count(&self) -> (r: usize)
        ensures
            weak_count_reading(self.inner(), r),
    {
        tokio_sender_weak_count(&self.0)
    }

    /// Returns the tokio receiver inside, for the asynchronous and blocking receive operations.
    pub fn inner_mut(&mut self) -> (r: &mut TokioReceiver<T>)
        ensures
            *r == old(self).inner(),
            final(self).inner() == *final(r),
    {
        &mut self.0
    }

    /// Unwraps the tokio receiver inside.
    pub fn into_inner(self) -> (r: TokioReceiver<T>)
        ensures
            r == self.inner(),
    {
        self.0
    }
}

/// Creates a new bounded mpsc channel with room for `capacity` messages, returning the
/// sender/receiver halves, which tokio makes together. The capacity must be positive and at
/// most `usize::MAX >> 3`.
pub fn channel<T>(capacity: usize) -> (r: (TokioSender<T>, Receiver<T>))
    requires
        0 < capacity <= usize::MAX / 8,
    ensures
        channel_halves(capacity, r.0, r.1.inner()),
{
    let (tx, rx) = tokio_channel(capacity);
    (tx, Receiver(rx))
}

} // verus!
