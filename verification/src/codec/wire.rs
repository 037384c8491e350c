//! The wire form of an actor index: the protobuf message `google.protobuf.UInt64Value`, which is
//! how an address or a recipient travels inside an encoded message.

use vstd::prelude::*;

use bytes::{Bytes, BytesMut};
use prost::DecodeError as ProstDecodeError;
use prost::EncodeError as ProstEncodeError;

use crate::codec::error::{DecodeError, EncodeError};
use crate::index::ActorId;

verus! {

/// Declares `BytesMut` to the verifier as an opaque type.
#[verifier::external_type_specification]
#[verifier::external_body]
pub struct ExBytesMut(BytesMut);

/// Declares `Bytes` to the verifier as an opaque type.
#[verifier::external_type_specification]
#[verifier::external_body]
pub struct ExBytes(Bytes);

/// The bytes a `BytesMut` holds.
pub uninterp spec fn bytes_mut_contents(b: BytesMut) -> Seq<u8>;

/// The bytes a `Bytes` holds.
pub uninterp spec fn bytes_contents(b: Bytes) -> Seq<u8>;

/// What prost's decoder for `u64` (as the message `UInt64Value`) makes of some bytes: the value,
/// or `None` when it rejects them.
pub uninterp spec fn prost_u64_decoded(bytes: Seq<u8>) -> Option<u64>;

/// The base-128 varint encoding of `v`: seven bits per byte, least significant group first, the
/// high bit set on every byte but the last.
pub open spec fn varint(v: nat) -> Seq<u8>
    decreases v,
{
    if v < 128 {
        seq![v as u8]
    } else {
        seq![((v % 128) + 128) as u8] + varint(v / 128)
    }
}

/// The protobuf encoding of `v` as the message `UInt64Value`: nothing for zero, otherwise the key
/// of field 1 with wire type varint (the byte 8) followed by the varint of `v`.
pub open spec fn u64_message_bytes(v: u64) -> Seq<u8> {
    if v == 0 {
        Seq::empty()
    } else {
        seq![8u8] + varint(v as nat)
    }
}

/// `BytesMut::new`: an empty buffer.
#[verifier::external_body]
fn bytes_mut_new() -> (r: BytesMut)
    ensures
        bytes_mut_contents(r) == Seq::<u8>::empty(),
{
    BytesMut::new()
}

/// `BytesMut::freeze`: the same bytes as an immutable `Bytes`.
#[verifier::external_body]
fn bytes_mut_freeze(b: BytesMut) -> (r: Bytes)
    ensures
        bytes_contents(r) == bytes_mut_contents(b),
{
    b.freeze()
}

/// `<u64 as prost::Message>::encoded_len`: the number of bytes the encoding of `v` takes.
#[verifier::external_body]
fn prost_u64_encoded_len(v: u64) -> (r: usize)
    ensures
        r == u64_message_bytes(v).len(),
{
    prost::Message::encoded_len(&v)
}

/// `<u64 as prost::Message>::encode` into a `BytesMut`: fails, leaving the buffer as it was,
/// when the encoding does not fit in the room the buffer reports (`isize::MAX` minus its
/// length); otherwise appends the encoding of `v`.
#[verifier::external_body]
fn prost_u64_encode(v: u64, buf: &mut BytesMut) -> (r: Result<(), ProstEncodeError>)
    ensures
        r is Err <==> bytes_mut_contents(*old(buf)).len() + u64_message_bytes(v).len()
            > isize::MAX,
        r is Ok ==> bytes_mut_contents(*final(buf)) == bytes_mut_contents(*old(buf))
            + u64_message_bytes(v),
        r is Err ==> bytes_mut_contents(*final(buf)) == bytes_mut_contents(*old(buf)),
{
    prost::Message::encode(&v, buf)
}

/// `<u64 as prost::Message>::decode` from a `Bytes`: the value the bytes encode, or an error
/// when prost rejects them. Bytes that are the encoding of some value decode to that value.
#[verifier::external_body]
fn prost_u64_decode(buf: Bytes) -> (r: Result<u64, ProstDecodeError>)
    ensures
        r is Ok <==> prost_u64_decoded(bytes_contents(buf)) is Some,
        r is Ok ==> prost_u64_decoded(bytes_contents(buf)) == Some(r->Ok_0),
        forall|v: u64|
            bytes_contents(buf) == #[trigger] u64_message_bytes(v) ==> (r is Ok && r->Ok_0 == v),
{
    <u64 as prost::Message>::decode(buf)
}

/// Returns the number of bytes the wire form of an actor's local index takes.
pub fn actor_index_encoded_len(id: ActorId) -> (r: usize)
    ensures
        r == u64_message_bytes(id.index_part()).len(),
{
    prost_u64_encoded_len(id.as_local())
}

/// Appends the wire form of an actor's local index to `buf`.
pub fn encode_actor_index(id: ActorId, buf: &mut BytesMut) -> (r: Result<(), EncodeError>)
    ensures
        r is Ok <==> bytes_mut_contents(*old(buf)).len() + u64_message_bytes(id.index_part()).len()
            <= isize::MAX,
        r is Ok ==> bytes_mut_contents(*final(buf)) == bytes_mut_contents(*old(buf))
            + u64_message_bytes(id.index_part()),
        r is Err ==> r->Err_0 is Other && bytes_mut_contents(*final(buf)) == bytes_mut_contents(
            *old(buf),
        ),
{
    match prost_u64_encode(id.as_local(), buf) {
        Ok(()) => Ok(()),
        Err(e) => Err(EncodeError::from(e)),
    }
}

/// Encodes the wire form of an actor's local index into a fresh buffer.
pub fn actor_index_to_bytes(id: ActorId) -> (r: Result<Bytes, EncodeError>)
    ensures
        r matches Ok(b) && bytes_contents(b) == u64_message_bytes(id.index_part()),
{
    let mut buf = bytes_mut_new();
    proof {
        lemma_u64_message_bytes_len(id.index_part());
    }
    match encode_actor_index(id, &mut buf) {
        Ok(()) => Ok(bytes_mut_freeze(buf)),
        Err(e) => Err(e),
    }
}

/// Decodes an actor's local index from its wire form.
pub fn decode_actor_index(buf: Bytes) -> (r: Result<u64, DecodeError>)
    ensures
        r is Ok <==> prost_u64_decoded(bytes_contents(buf)) is Some,
        r matches Ok(v) ==> prost_u64_decoded(bytes_contents(buf)) == Some(v),
        r matches Err(e) ==> e is Other,
        forall|v: u64|
            bytes_contents(buf) == #[trigger] u64_message_bytes(v) ==> (r is Ok && r->Ok_0 == v),
{
    match prost_u64_decode(buf) {
        Ok(v) => Ok(v),
        Err(e) => Err(DecodeError::from(e)),
    }
}

/// `128` to the power `k`.
pub open spec fn pow128(k: nat) -> nat
    decreases k,
{
    if k == 0 {
        1
    } else {
        128 * pow128((k - 1) as nat)
    }
}

/// A varint of a value below `128^k` (for `k >= 1`) takes at most `k` bytes.
pub proof fn lemma_varint_len(v: nat, k: nat)
    requires
        1 <= k,
        v < pow128(k),
    ensures
        1 <= varint(v).len() <= k,
    decreases v,
{
    if v >= 128 {
        assert(k >= 2) by {
            if k == 1 {
                assert(pow128(1) == 128) by {
                    reveal_with_fuel(pow128, 2);
                }
            }
        }
        let k1 = (k - 1) as nat;
        assert(pow128(k) == 128 * pow128(k1));
        assert(v / 128 < pow128(k1)) by (nonlinear_arith)
            requires
                v < 128 * pow128(k1),
        ;
        lemma_varint_len(v / 128, k1);
    }
}

/// The wire form of an index takes at most eleven bytes.
pub proof fn lemma_u64_message_bytes_len(v: u64)
    ensures
        u64_message_bytes(v).len() <= 11,
{
    assert(pow128(10) == 0x40_0000_0000_0000_0000) by {
        reveal_with_fuel(pow128, 11);
    }
    lemma_varint_len(v as nat, 10);
}

} // verus!
