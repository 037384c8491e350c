//! The address of an actor in another process, reached through the proxy of its remote session:
//! the synchronous sends, whose messages are encoded before they are handed to the proxy.

use vstd::prelude::*;

use bytes::Bytes;
use tokio::sync::oneshot::Sender as TokioOneshotSender;

use crate::channel::oneshot;
use crate::codec::{encode_error_text, EncodeError};
use crate::errors::{with_msg_spec, BoxError, SendError};
use crate::index::ActorId;

verus! {

/// The proxy of a remote session, which carries encoded messages to the actors of another
/// process. Users implement it for their transport; the asynchronous operations of the proxy
/// live beside the library.
pub trait RemoteProxy {
    /// Checks if the proxy is closed.
    fn is_closed(&self) -> bool;

    /// Returns the current capacity of the proxy.
    fn capacity(&self) -> usize;

    /// Attempts to immediately hand over the encoded message `bytes`, of the message type
    /// `message_id`, for the actor `actor_id`; the raw reply is sent on `raw_tx` when given.
    fn try_do_send(
        &self,
        actor_id: u64,
        message_id: u64,
        bytes: Bytes,
        raw_tx: Option<TokioOneshotSender<Bytes>>,
    ) -> Result<(), SendError<()>>;

    /// Hands over the encoded message as [`try_do_send`](Self::try_do_send) does, blocking
    /// until there is capacity.
    fn blocking_do_send(
        &self,
        actor_id: u64,
        message_id: u64,
        bytes: Bytes,
        raw_tx: Option<TokioOneshotSender<Bytes>>,
    ) -> Result<(), SendError<()>>;
}

/// What a send to a remote actor makes of the encoding of its message: the message, kept to be
/// given back should the proxy refuse it, with the bytes to hand over when encoding succeeded;
/// otherwise an `Other` error which wraps the encoding error and gives the message back.
pub fn encoded_request<M>(msg: M, encoded: Result<Bytes, EncodeError>) -> (r: Result<
    (M, Bytes),
    SendError<M>,
>)
    ensures
        match encoded {
            Ok(bytes) => r == Ok::<(M, Bytes), SendError<M>>((msg, bytes)),
            Err(e) => refused_encoding(r, msg, e),
        },
{
    match encoded {
        Ok(bytes) => Ok((msg, bytes)),
        Err(e) => Err(SendError::Other(BoxError::from(e), msg)),
    }
}

/// `r` is the error of a send whose message `msg` could not be encoded, failing with `e`: an
/// `Other` error that wraps `e` and gives the message back.
pub open spec fn refused_encoding<T, M>(r: Result<T, SendError<M>>, msg: M, e: EncodeError) -> bool {
    r matches Err(SendError::Other(inner, back)) && back == msg && inner.message@
        == encode_error_text(e) && match e {
        EncodeError::Other(source) => inner.source == Some(Box::new(source)),
        _ => inner.source is None,
    }
}

/// What a send makes of the proxy's answer: success, or the proxy's error giving the message
/// back.
pub open spec fn proxy_outcome<M>(answer: Result<(), SendError<()>>, msg: M) -> Result<
    (),
    SendError<M>,
> {
    match answer {
        Ok(()) => Ok(()),
        Err(e) => Err(with_msg_spec(e, msg)),
    }
}

/// The address of an actor located in a different process, reached through the proxy `P` of its
/// remote session.
pub struct RemoteAddress<P: RemoteProxy> {
    index: ActorId,
    proxy: P,
}

impl<P: RemoteProxy> RemoteAddress<P> {
    /// The id of the remote actor.
    pub closed spec fn id(&self) -> ActorId {
        self.index
    }

    /// The proxy of the remote session.
    pub closed spec fn session(&self) -> P {
        self.proxy
    }

    /// Constructs the address of the remote actor `index`, reached through `proxy`.
    pub fn new(index: ActorId, proxy: P) -> (r: Self)
        ensures
            r.id() == index,
            r.session() == proxy,
    {
        RemoteAddress { index, proxy }
    }

    /// Returns the index of the address.
    pub fn index(&self) -> (r: ActorId)
        ensures
            r == self.id(),
    {
        self.index
    }

    /// Returns the proxy of the remote session, for the asynchronous operations.
    pub fn proxy(&self) -> (r: &P)
        ensures
            *r == self.session(),
    {
        &self.proxy
    }

    /// Checks if the proxy of the actor is closed, as the proxy answers.
    pub fn is_closed(&self) -> (r: bool)
        ensures
            call_ensures(P::is_closed, (&self.session(),), r),
    {
        self.proxy.is_closed()
    }

    /// Returns the current capacity of the proxy of the actor, as the proxy answers.
    pub fn capacity(&self) -> (r: usize)
        ensures
            call_ensures(P::capacity, (&self.session(),), r),
    {
        self.proxy.capacity()
    }

    /// Attempts to immediately send a message, of the message type `message_id`, whose encoding
    /// is `encoded`, without expecting a response. A message that could not be encoded comes
    /// back in an `Other` error; otherwise the bytes go to the proxy, for this actor and with no
    /// reply channel, and a refusal of the proxy comes back with the message attached.
    pub fn try_do_send<M>(&self, msg: M, message_id: u64, encoded: Result<Bytes, EncodeError>) -> (r:
        Result<(), SendError<M>>)
        ensures
            match encoded {
                Ok(bytes) => exists|answer: Result<(), SendError<()>>|
                    call_ensures(
                        P::try_do_send,
                        (&self.session(), self.id().index_part(), message_id, bytes, None),
                        answer,
                    ) && r == proxy_outcome(answer, msg),
                Err(e) => refused_encoding(r, msg, e),
            },
    {
        match encoded_request(msg, encoded) {
            Ok((msg, bytes)) => {
                let ghost sent = bytes;
                let answer = self.proxy.try_do_send(self.index.as_u64(), message_id, bytes, None);
                assert(call_ensures(
                    P::try_do_send,
                    (&self.session(), self.id().index_part(), message_id, sent, None),
                    answer,
                ));
                let ghost m = msg;
                let r = match answer {
                    Ok(()) => Ok(()),
                    Err(e) => Err(e.with_msg(msg)),
                };
                assert(r == proxy_outcome(answer, m));
                r
            },
            Err(e) => Err(e),
        }
    }

    /// Attempts to immediately send a message whose encoding is `encoded`, and returns the
    /// receiver on which the raw reply arrives, to be decoded by the caller. Errors are those of
    /// [`try_do_send`](Self::try_do_send).
    pub fn try_send<M>(&self, msg: M, message_id: u64, encoded: Result<Bytes, EncodeError>) -> (r:
        Result<oneshot::Receiver<Bytes>, SendError<M>>)
        ensures
            match encoded {
                Ok(bytes) => exists|answer: Result<(), SendError<()>>, raw_tx|
                    call_ensures(
                        P::try_do_send,
                        (&self.session(), self.id().index_part(), message_id, bytes, Some(raw_tx)),
                        answer,
                    ) && match answer {
                        Ok(()) => r matches Ok(rx) && oneshot::channel_pair(raw_tx, rx.inner()),
                        Err(e) => r == Err::<oneshot::Receiver<Bytes>, SendError<M>>(
                            with_msg_spec(e, msg),
                        ),
                    },
                Err(e) => refused_encoding(r, msg, e),
            },
    {
        match encoded_request(msg, encoded) {
            Ok((msg, bytes)) => {
                let ghost sent = bytes;
                let ghost m = msg;
                let (raw_tx, raw_rx) = oneshot::channel();
                let ghost reply_to = raw_tx;
                let answer = self.proxy.try_do_send(
                    self.index.as_u64(),
                    message_id,
                    bytes,
                    Some(raw_tx),
                );
                let r = match answer {
                    Ok(()) => Ok(raw_rx),
                    Err(e) => Err(e.with_msg(msg)),
                };
                assert(call_ensures(
                    P::try_do_send,
                    (&self.session(), self.id().index_part(), message_id, sent, Some(reply_to)),
                    answer,
                ));
                r
            },
            Err(e) => Err(e),
        }
    }

    /// Blocking send without expecting a response, to call outside of asynchronous contexts;
    /// as [`try_do_send`](Self::try_do_send), with the proxy's blocking hand-over.
    pub fn blocking_do_send<M>(&self, msg: M, message_id: u64, encoded: Result<Bytes, EncodeError>) -> (r:
        Result<(), SendError<M>>)
        ensures
            match encoded {
                Ok(bytes) => exists|answer: Result<(), SendError<()>>|
                    call_ensures(
                        P::blocking_do_send,
                        (&self.session(), self.id().index_part(), message_id, bytes, None),
                        answer,
                    ) && r == proxy_outcome(answer, msg),
                Err(e) => refused_encoding(r, msg, e),
            },
    {
        match encoded_request(msg, encoded) {
            Ok((msg, bytes)) => {
                let ghost sent = bytes;
                let ghost m = msg;
                let answer = self.proxy.blocking_do_send(
                    self.index.as_u64(),
                    message_id,
                    bytes,
                    None,
                );
                let r = match answer {
                    Ok(()) => Ok(()),
                    Err(e) => Err(e.with_msg(msg)),
                };
                assert(call_ensures(
                    P::blocking_do_send,
                    (&self.session(), self.id().index_part(), message_id, sent, None),
                    answer,
                ) && r == proxy_outcome(answer, m));
                r
            },
            Err(e) => Err(e),
        }
    }

    /// Blocking send to call outside of asynchronous contexts, returning the receiver on which
    /// the raw reply arrives; as [`try_send`](Self::try_send), with the proxy's blocking
    /// hand-over.
    pub fn blocking_send<M>(&self, msg: M, message_id: u64, encoded: Result<Bytes, EncodeError>) -> (r:
        Result<oneshot::Receiver<Bytes>, SendError<M>>)
        ensures
            match encoded {
                Ok(bytes) => exists|answer: Result<(), SendError<()>>, raw_tx|
                    call_ensures(
                        P::blocking_do_send,
                        (&self.session(), self.id().index_part(), message_id, bytes, Some(raw_tx)),
                        answer,
                    ) && match answer {
                        Ok(()) => r matches Ok(rx) && oneshot::channel_pair(raw_tx, rx.inner()),
                        Err(e) => r == Err::<oneshot::Receiver<Bytes>, SendError<M>>(
                            with_msg_spec(e, msg),
                        ),
                    },
                Err(e) => refused_encoding(r, msg, e),
            },
    {
        match encoded_request(msg, encoded) {
            Ok((msg, bytes)) => {
                let ghost sent = bytes;
                let ghost m = msg;
                let (raw_tx, raw_rx) = oneshot::channel();
                let ghost reply_to = raw_tx;
                let answer = self.proxy.blocking_do_send(
                    self.index.as_u64(),
                    message_id,
                    bytes,
                    Some(raw_tx),
                );
                let r = match answer {
                    Ok(()) => Ok(raw_rx),
                    Err(e) => Err(e.with_msg(msg)),
                };
                assert(call_ensures(
                    P::blocking_do_send,
                    (&self.session(), self.id().index_part(), message_id, sent, Some(reply_to)),
                    answer,
                ));
                r
            },
            Err(e) => Err(e),
        }
    }
}

/// `r` answers a send of `msg` the way the proxy answered the hand-over: it succeeds exactly
/// when the proxy accepted the bytes, and when the proxy refused, it fails with the same kind of
/// error (the same wrapped error for `Other`), giving the message back.
pub open spec fn answers_like_proxy<T, M>(
    r: Result<T, SendError<M>>,
    answer: Result<(), SendError<()>>,
    msg: M,
) -> bool {
    &&& (r is Ok <==> answer is Ok)
    &&& (answer matches Err(SendError::Closed(())) ==> r matches Err(SendError::Closed(m)) && m
        == msg)
    &&& (answer matches Err(SendError::Full(())) ==> r matches Err(SendError::Full(m)) && m == msg)
    &&& (answer matches Err(SendError::Timeout(())) ==> r matches Err(SendError::Timeout(m)) && m
        == msg)
    &&& (answer matches Err(SendError::Other(inner, ())) ==> r matches Err(SendError::Other(i, m))
        && i == inner && m == msg)
}

/// Law: an immediate remote send of encoded bytes hands them to the proxy's `try_do_send`, for
/// this actor and with no reply channel, and answers the way the proxy did: it succeeds exactly
/// when the proxy accepted, and a refusal is reported as the same kind of error with the message
/// given back.
pub proof fn law_remote_try_do_send_follows_proxy<P: RemoteProxy, M>(
    address: RemoteAddress<P>,
    msg: M,
    message_id: u64,
    bytes: Bytes,
    r: Result<(), SendError<M>>,
)
    requires
        call_ensures(
            RemoteAddress::<P>::try_do_send::<M>,
            (&address, msg, message_id, Ok::<Bytes, EncodeError>(bytes)),
            r,
        ),
    ensures
        exists|answer: Result<(), SendError<()>>|
            call_ensures(
                P::try_do_send,
                (&address.session(), address.id().index_part(), message_id, bytes, None),
                answer,
            ) && answers_like_proxy(r, answer, msg),
{
    let answer = choose|answer: Result<(), SendError<()>>|
        call_ensures(
            P::try_do_send,
            (&address.session(), address.id().index_part(), message_id, bytes, None),
            answer,
        ) && r == proxy_outcome(answer, msg);
    assert(answers_like_proxy(r, answer, msg));
}

/// Law: a blocking remote send of encoded bytes hands them to the proxy's `blocking_do_send`,
/// for this actor and with no reply channel, and answers the way the proxy did.
pub proof fn law_remote_blocking_do_send_follows_proxy<P: RemoteProxy, M>(
    address: RemoteAddress<P>,
    msg: M,
    message_id: u64,
    bytes: Bytes,
    r: Result<(), SendError<M>>,
)
    requires
        call_ensures(
            RemoteAddress::<P>::blocking_do_send::<M>,
            (&address, msg, message_id, Ok::<Bytes, EncodeError>(bytes)),
            r,
        ),
    ensures
        exists|answer: Result<(), SendError<()>>|
            call_ensures(
                P::blocking_do_send,
                (&address.session(), address.id().index_part(), message_id, bytes, None),
                answer,
            ) && answers_like_proxy(r, answer, msg),
{
    let answer = choose|answer: Result<(), SendError<()>>|
        call_ensures(
            P::blocking_do_send,
            (&address.session(), address.id().index_part(), message_id, bytes, None),
            answer,
        ) && r == proxy_outcome(answer, msg);
    assert(answers_like_proxy(r, answer, msg));
}

/// Law: an immediate remote send expecting a response hands the bytes to the proxy's
/// `try_do_send` with a reply channel, answers the way the proxy did, and on success returns the
/// receiver paired with that reply channel.
pub proof fn law_remote_try_send_follows_proxy<P: RemoteProxy, M>(
    address: RemoteAddress<P>,
    msg: M,
    message_id: u64,
    bytes: Bytes,
    r: Result<oneshot::Receiver<Bytes>, SendError<M>>,
)
    requires
        call_ensures(
            RemoteAddress::<P>::try_send::<M>,
            (&address, msg, message_id, Ok::<Bytes, EncodeError>(bytes)),
            r,
        ),
    ensures
        exists|answer: Result<(), SendError<()>>, raw_tx|
            call_ensures(
                P::try_do_send,
                (&address.session(), address.id().index_part(), message_id, bytes, Some(raw_tx)),
                answer,
            ) && answers_like_proxy(r, answer, msg) && (r matches Ok(rx)
                ==> oneshot::channel_pair(raw_tx, rx.inner())),
{
}

/// Law: a blocking remote send expecting a response hands the bytes to the proxy's
/// `blocking_do_send` with a reply channel, answers the way the proxy did, and on success
/// returns the receiver paired with that reply channel.
pub proof fn law_remote_blocking_send_follows_proxy<P: RemoteProxy, M>(
    address: RemoteAddress<P>,
    msg: M,
    message_id: u64,
    bytes: Bytes,
    r: Result<oneshot::Receiver<Bytes>, SendError<M>>,
)
    requires
        call_ensures(
            RemoteAddress::<P>::blocking_send::<M>,
            (&address, msg, message_id, Ok::<Bytes, EncodeError>(bytes)),
            r,
        ),
    ensures
        exists|answer: Result<(), SendError<()>>, raw_tx|
            call_ensures(
                P::blocking_do_send,
                (&address.session(), address.id().index_part(), message_id, bytes, Some(raw_tx)),
                answer,
            ) && answers_like_proxy(r, answer, msg) && (r matches Ok(rx)
                ==> oneshot::channel_pair(raw_tx, rx.inner())),
{
}

} // verus!
