//! Encoding and decoding the address of an actor inside a remote message: an address is sent as
//! its local index, after the actor has been registered with the encode context so that other
//! processes can reach it; a decoded index becomes a remote address through the proxy of the
//! decode context.

use vstd::prelude::*;

use bytes::{Bytes, BytesMut};

use crate::address::{RemoteAddress, RemoteProxy};
use crate::codec::wire::{bytes_mut_contents, decode_actor_index, encode_actor_index, u64_message_bytes};
use crate::codec::{DecodeError, EncodeError};
use crate::index::ActorId;

verus! {

/// Context for encoding messages: it registers the actors whose addresses are sent, through
/// the handle `H` on their mailboxes. Users implement it for their transport.
pub trait EncodeContext<H> {
    /// Registers an actor with its remote mailbox handle; the actor becomes reachable from
    /// other processes.
    fn register(&self, actor: H) -> Result<(), EncodeError>;
}

/// Context for decoding messages: it gives the proxy `P` of the remote session, if any. Users
/// implement it for their transport.
pub trait DecodeContext<P> {
    /// Returns the proxy associated with this context, if any.
    fn remote_proxy(&self) -> Option<P>;
}

/// Registers the actor `id`, whose remote mailbox handle is `handle` if it has one, with the
/// encode context: the address of a remote actor cannot be registered (`EncodeRemoteAddress`),
/// an actor without a remote mailbox is not reachable (`NotRemoteAddressable`), and otherwise the
/// context answers.
pub fn register<H, C: EncodeContext<H>>(id: ActorId, handle: Option<H>, ctx: &C) -> (r: Result<
    (),
    EncodeError,
>)
    ensures
        id.epoch_part() != 0 ==> r == Err::<(), EncodeError>(EncodeError::EncodeRemoteAddress),
        id.epoch_part() == 0 && handle is None ==> r == Err::<(), EncodeError>(
            EncodeError::NotRemoteAddressable,
        ),
        id.epoch_part() == 0 && handle is Some ==> call_ensures(
            C::register,
            (ctx, handle->0),
            r,
        ),
{
    if id.is_remote() {
        Err(EncodeError::EncodeRemoteAddress)
    } else {
        match handle {
            None => Err(EncodeError::NotRemoteAddressable),
            Some(h) => {
                let ghost sent = h;
                let r = ctx.register(h);
                assert(call_ensures(C::register, (ctx, sent), r));
                r
            },
        }
    }
}

/// Encodes the address of the actor `id` into `buf`: without an encode context it fails with
/// `MissingEncodeContext`; otherwise the actor is registered as [`register`] does, and once it
/// is, its local index is appended in its wire form.
pub fn encode_address<H, C: EncodeContext<H>>(
    id: ActorId,
    handle: Option<H>,
    ctx: Option<&C>,
    buf: &mut BytesMut,
) -> (r: Result<(), EncodeError>)
    ensures
        ctx is None ==> r == Err::<(), EncodeError>(EncodeError::MissingEncodeContext)
            && *final(buf) == *old(buf),
        ctx matches Some(c) ==> exists|registered: Result<(), EncodeError>|
            call_ensures(register::<H, C>, (id, handle, c), registered) && match registered {
                Err(e) => r == Err::<(), EncodeError>(e) && *final(buf) == *old(buf),
                Ok(()) => (r is Ok <==> bytes_mut_contents(*old(buf)).len() + u64_message_bytes(
                    id.index_part(),
                ).len() <= isize::MAX) && (r is Ok ==> bytes_mut_contents(*final(buf))
                    == bytes_mut_contents(*old(buf)) + u64_message_bytes(id.index_part())),
            },
{
    match ctx {
        None => Err(EncodeError::MissingEncodeContext),
        Some(c) => {
            let ghost h = handle;
            let registered = register(id, handle, c);
            assert(call_ensures(register::<H, C>, (id, h, c), registered));
            match registered {
                Err(e) => Err(e),
                Ok(()) => encode_actor_index(id, buf),
            }
        },
    }
}

/// Constructs the address of the remote actor `id` through the proxy of the decode context:
/// fails with `MissingRemoteProxy` when the context has none.
pub fn new_with_decode_context<P: RemoteProxy, C: DecodeContext<P>>(id: ActorId, ctx: &C) -> (r:
    Result<RemoteAddress<P>, DecodeError>)
    ensures
        exists|proxy: Option<P>|
            call_ensures(C::remote_proxy, (ctx,), proxy) && match proxy {
                None => r == Err::<RemoteAddress<P>, DecodeError>(DecodeError::MissingRemoteProxy),
                Some(p) => r matches Ok(a) && a.id() == id && a.session() == p,
            },
{
    let proxy = ctx.remote_proxy();
    assert(call_ensures(C::remote_proxy, (ctx,), proxy));
    match proxy {
        None => Err(DecodeError::MissingRemoteProxy),
        Some(p) => Ok(RemoteAddress::new(id, p)),
    }
}

/// Decodes the address of a remote actor from `buf`: its local index, in its wire form, as the
/// id of a remote actor of the session `remote_index`, through the proxy of the decode context.
/// Fails with `MissingDecodeContext` without a context, and with the decoding error when the
/// bytes are no index.
pub fn decode_address<P: RemoteProxy, C: DecodeContext<P>>(
    buf: Bytes,
    remote_index: u64,
    ctx: Option<&C>,
) -> (r: Result<RemoteAddress<P>, DecodeError>)
    requires
        remote_index != 0,
    ensures
        forall|v: u64|
            crate::codec::wire::bytes_contents(buf) == #[trigger] u64_message_bytes(v)
                ==> match ctx {
                None => r == Err::<RemoteAddress<P>, DecodeError>(
                    DecodeError::MissingDecodeContext,
                ),
                Some(c) => exists|proxy: Option<P>|
                    call_ensures(C::remote_proxy, (c,), proxy) && match proxy {
                        None => r == Err::<RemoteAddress<P>, DecodeError>(
                            DecodeError::MissingRemoteProxy,
                        ),
                        Some(p) => r matches Ok(a) && a.id().index_part() == v
                            && a.id().epoch_part() == remote_index && a.session() == p,
                    },
            },
{
    match decode_actor_index(buf) {
        Err(e) => Err(e),
        Ok(index) => match ctx {
            None => Err(DecodeError::MissingDecodeContext),
            Some(c) => new_with_decode_context(ActorId::new_remote(index, remote_index), c),
        },
    }
}

} // verus!
