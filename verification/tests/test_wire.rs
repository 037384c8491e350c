use bytes::{Bytes, BytesMut};

use acktor::codec::wire::{
    actor_index_encoded_len, actor_index_to_bytes, decode_actor_index, encode_actor_index,
};
use acktor::codec::DecodeError;
use acktor::index::ActorId;

#[test]
fn test_encode_actor_index_bytes() {
    let mut buf = BytesMut::new();
    encode_actor_index(ActorId::new(1), &mut buf).unwrap();
    assert_eq!(&buf[..], &[0x08, 0x01]);

    let mut buf = BytesMut::new();
    encode_actor_index(ActorId::new(300), &mut buf).unwrap();
    assert_eq!(&buf[..], &[0x08, 0xac, 0x02]);

    // zero is the default value and takes no bytes
    let mut buf = BytesMut::new();
    encode_actor_index(ActorId::new(0), &mut buf).unwrap();
    assert!(buf.is_empty());

    // appends after what the buffer holds already
    let mut buf = BytesMut::from(&[0xffu8][..]);
    encode_actor_index(ActorId::new(2), &mut buf).unwrap();
    assert_eq!(&buf[..], &[0xff, 0x08, 0x02]);
}

#[test]
fn test_encoded_len() {
    assert_eq!(actor_index_encoded_len(ActorId::new(0)), 0);
    assert_eq!(actor_index_encoded_len(ActorId::new(1)), 2);
    assert_eq!(actor_index_encoded_len(ActorId::new(300)), 3);
    assert_eq!(actor_index_encoded_len(ActorId::new(u64::MAX)), 11);
    // a remote id travels as its local index
    assert_eq!(actor_index_encoded_len(ActorId::new_remote(300, 5)), 3);
}

#[test]
fn test_actor_index_roundtrip() {
    for index in [0u64, 1, 127, 128, 300, 1 << 40, (1u64 << 63) - 1, u64::MAX] {
        let bytes = actor_index_to_bytes(ActorId::new(index)).unwrap();
        assert_eq!(bytes.len(), actor_index_encoded_len(ActorId::new(index)));
        assert_eq!(decode_actor_index(bytes).unwrap(), index);
    }
    let bytes = actor_index_to_bytes(ActorId::new_remote(42, 7)).unwrap();
    assert_eq!(decode_actor_index(bytes).unwrap(), 42);
}

#[test]
fn test_decode_actor_index_rejects_garbage() {
    match decode_actor_index(Bytes::from_static(&[0xff])) {
        Err(DecodeError::Other(inner)) => {
            assert!(inner.message.starts_with("failed to decode Protobuf message: "))
        }
        _ => panic!("expected a decode error"),
    }
    assert_eq!(decode_actor_index(Bytes::new()).unwrap(), 0);
}
