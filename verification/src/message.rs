//! Messages and their results.

use vstd::prelude::*;

use bytes::Bytes;
use tokio::sync::oneshot::Sender as TokioOneshotSender;

use crate::index::ActorId;

verus! {

/// A message which can be sent to an actor; `Result` is what handling it produces.
pub trait Message: Sized {
    type Result;
}

/// A helper type which wraps the result of a message handler as a message response.
pub struct MessageResult<M: Message>(pub M::Result);

/// A message already encoded for an actor in another process: the actor's local index, the id
/// of the message type, the bytes, the channel on which the raw reply goes back when the sender
/// waits for one, and the contexts to decode the message (`D`) and encode its result (`C`) with.
pub struct EncodedMessage<D, C> {
    pub actor_id: u64,
    pub message_id: u64,
    pub bytes: Bytes,
    pub result_tx: Option<TokioOneshotSender<Bytes>>,
    pub decode_msg_ctx: Option<D>,
    pub encode_res_ctx: Option<C>,
}

impl<D, C> Message for EncodedMessage<D, C> {
    type Result = ();
}

impl<D, C> EncodedMessage<D, C> {
    /// An encoded message for the actor `actor_id` whose sender does not wait for a reply.
    pub fn do_send(actor_id: ActorId, message_id: u64, bytes: Bytes) -> (r: Self)
        ensures
            r.actor_id == actor_id.index_part(),
            r.message_id == message_id,
            r.bytes == bytes,
            r.result_tx is None,
            r.decode_msg_ctx is None,
            r.encode_res_ctx is None,
    {
        EncodedMessage {
            actor_id: actor_id.as_local(),
            message_id,
            bytes,
            result_tx: None,
            decode_msg_ctx: None,
            encode_res_ctx: None,
        }
    }

    /// An encoded message for the actor `actor_id` whose raw reply goes back on `tx`.
    pub fn send(actor_id: ActorId, message_id: u64, bytes: Bytes, tx: TokioOneshotSender<Bytes>) -> (r:
        Self)
        ensures
            r.actor_id == actor_id.index_part(),
            r.message_id == message_id,
            r.bytes == bytes,
            r.result_tx == Some(tx),
            r.decode_msg_ctx is None,
            r.encode_res_ctx is None,
    {
        EncodedMessage {
            actor_id: actor_id.as_local(),
            message_id,
            bytes,
            result_tx: Some(tx),
            decode_msg_ctx: None,
            encode_res_ctx: None,
        }
    }

    /// The same message, with `context` to decode it with.
    pub fn with_decode_context(self, context: D) -> (r: Self)
        ensures
            r == (EncodedMessage { decode_msg_ctx: Some(context), ..self }),
    {
        EncodedMessage { decode_msg_ctx: Some(context), ..self }
    }

    /// The same message, with `context` to encode its result with.
    pub fn with_encode_context(self, context: C) -> (r: Self)
        ensures
            r == (EncodedMessage { encode_res_ctx: Some(context), ..self }),
    {
        EncodedMessage { encode_res_ctx: Some(context), ..self }
    }
}

} // verus!
