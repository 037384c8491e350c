use std::collections::hash_map::DefaultHasher;
use std::hash::{Hash, Hasher};
use std::time::Duration;

use bytes::Bytes;

use acktor::actor::{after_pre_start, panic_message, termination_error, ActorState};
use acktor::address::{
    encoded_request, pack_request, unpack_closed, unpack_refused, unpack_timed_out, Address,
    Mailbox,
};
use acktor::channel::mpsc;
use acktor::codec::{decoded_reply, DecodeError, EncodeError};
use acktor::envelope::{DefaultEnvelopeProxy, IntoEnvelope};
use acktor::errors::{BoxError, RecvError, SendError};
use acktor::index::{ActorId, SenderId};
use acktor::message::Message;

#[derive(Debug, PartialEq)]
struct Ping(u32);

impl Message for Ping {
    type Result = u32;
}

type PingEnvelope = DefaultEnvelopeProxy<Ping>;

fn make_address(capacity: usize) -> (Address<PingEnvelope>, Mailbox<PingEnvelope>) {
    let (tx, rx) = mpsc::channel::<PingEnvelope>(capacity);
    (Address::new(ActorId::new(3), tx), Mailbox::new(rx))
}

fn hash_of<T: Hash>(value: &T) -> u64 {
    let mut hasher = DefaultHasher::new();
    value.hash(&mut hasher);
    hasher.finish()
}

#[test]
fn test_address_identity() {
    let (address, _mailbox) = make_address(1);
    assert_eq!(address.index().as_u64(), 3);
    assert_eq!(SenderId::index(&address).as_u64(), 3);
    assert!(!SenderId::is_remote(&address));
    let clone = address.clone();
    assert!(clone == address);
    assert_eq!(hash_of(&clone), hash_of(&address));

    let (tx, _rx) = mpsc::channel::<PingEnvelope>(1);
    let other = Address::new(ActorId::new(4), tx);
    assert!(other != address);
}

#[test]
fn test_address_try_send_delivers_envelope() {
    let (address, mut mailbox) = make_address(2);
    assert_eq!(address.capacity(), 2);
    assert!(!address.is_closed());

    let mut response = match address.try_send(Ping(5)) {
        Ok(rx) => rx,
        Err(_) => panic!("the mailbox has room"),
    };
    assert_eq!(address.capacity(), 1);

    let mut envelope = mailbox.try_recv().unwrap();
    let (msg, tx) = envelope.take_for_handling().unwrap();
    assert_eq!(msg, Ping(5));
    tx.unwrap().send(50).unwrap();
    assert_eq!(response.try_recv().unwrap(), 50);

    assert!(address.try_do_send(Ping(6)).is_ok());
    let mut envelope = mailbox.try_recv().unwrap();
    let (msg, tx) = envelope.take_for_handling().unwrap();
    assert_eq!(msg, Ping(6));
    assert!(tx.is_none());
}

#[test]
fn test_address_full_gives_message_back() {
    let (address, _mailbox) = make_address(1);
    assert!(address.try_do_send(Ping(1)).is_ok());
    match address.try_send(Ping(2)) {
        Err(SendError::Full(m)) => assert_eq!(m, Ping(2)),
        _ => panic!("expected a full mailbox"),
    }
    match address.try_do_send(Ping(3)) {
        Err(SendError::Full(m)) => assert_eq!(m, Ping(3)),
        _ => panic!("expected a full mailbox"),
    }
    match address.try_reserve_owned() {
        Err(e) => assert!(matches!(e, SendError::Full(()))),
        Ok(_) => panic!("expected a full mailbox"),
    }
}

#[test]
fn test_address_closed_gives_message_back() {
    let (address, mailbox) = make_address(1);
    drop(mailbox);
    assert!(address.is_closed());
    match address.try_send(Ping(7)) {
        Err(SendError::Closed(m)) => assert_eq!(m, Ping(7)),
        _ => panic!("expected a closed mailbox"),
    }
    match address.try_do_send(Ping(8)) {
        Err(SendError::Closed(m)) => assert_eq!(m, Ping(8)),
        _ => panic!("expected a closed mailbox"),
    }
    match address.try_reserve_owned() {
        Err(e) => assert!(matches!(e, SendError::Closed(()))),
        Ok(_) => panic!("expected a closed mailbox"),
    }
}

#[test]
fn test_address_try_reserve_owned() {
    let (address, mut mailbox) = make_address(1);
    let permit = address.try_reserve_owned().ok().unwrap();
    assert_eq!(address.capacity(), 0);
    permit.into_inner().send(Ping(9).pack(None));
    assert_eq!(mailbox.try_recv().unwrap().message(), Some(Ping(9)));
}

#[test]
fn test_envelope_pack_unpack_roundtrip() {
    let envelope: PingEnvelope = Ping(11).pack(None);
    assert!(<Ping as IntoEnvelope<PingEnvelope>>::holds(&envelope));
    assert_eq!(<Ping as IntoEnvelope<PingEnvelope>>::unpack(envelope), Ping(11));

    let (mut envelope, mut rx) = pack_request::<PingEnvelope, Ping>(Ping(12));
    let (msg, tx) = envelope.take_for_handling().unwrap();
    assert_eq!(msg, Ping(12));
    assert!(!<Ping as IntoEnvelope<PingEnvelope>>::holds(&envelope));
    tx.unwrap().send(120).unwrap();
    assert_eq!(rx.try_recv().unwrap(), 120);
}

#[test]
fn test_unpack_tokio_errors() {
    let e = tokio::sync::mpsc::error::TrySendError::Full(Ping(1).pack(None));
    let r: SendError<Ping> = unpack_refused(e);
    assert!(matches!(r, SendError::Full(Ping(1))));
    let e = tokio::sync::mpsc::error::TrySendError::Closed(Ping(2).pack(None));
    let r: SendError<Ping> = unpack_refused(e);
    assert!(matches!(r, SendError::Closed(Ping(2))));

    let e = tokio::sync::mpsc::error::SendError(Ping(3).pack(None));
    let r: SendError<Ping> = unpack_closed(e);
    assert!(matches!(r, SendError::Closed(Ping(3))));

    let e = tokio::sync::mpsc::error::SendTimeoutError::Timeout(Ping(4).pack(None));
    let r: SendError<Ping> = unpack_timed_out(e);
    assert!(matches!(r, SendError::Timeout(Ping(4))));
    let e = tokio::sync::mpsc::error::SendTimeoutError::Closed(Ping(5).pack(None));
    let r: SendError<Ping> = unpack_timed_out(e);
    assert!(matches!(r, SendError::Closed(Ping(5))));
}

#[test]
fn test_address_send_timeout_through_tokio() {
    let (address, _mailbox) = make_address(1);
    assert!(address.try_do_send(Ping(1)).is_ok());
    let runtime = tokio::runtime::Builder::new_current_thread().enable_time().build().unwrap();
    let (envelope, _rx) = pack_request::<PingEnvelope, Ping>(Ping(2));
    let result = runtime.block_on(address.sender().send_timeout(envelope, Duration::from_millis(5)));
    match result {
        Err(e) => {
            let r: SendError<Ping> = unpack_timed_out(e);
            assert!(matches!(r, SendError::Timeout(Ping(2))));
        }
        Ok(()) => panic!("the mailbox is full"),
    }
}

#[test]
fn test_send_error_with_msg() {
    assert!(matches!(SendError::Closed(()).with_msg(1u8), SendError::Closed(1)));
    assert!(matches!(SendError::Full(()).with_msg(2u8), SendError::Full(2)));
    assert!(matches!(SendError::Timeout(()).with_msg(3u8), SendError::Timeout(3)));
    match SendError::Other(BoxError::from("proxy gone"), ()).with_msg(4u8) {
        SendError::Other(inner, m) => {
            assert_eq!(inner.message, "proxy gone");
            assert_eq!(m, 4);
        }
        _ => panic!("expected Other"),
    }
}

#[test]
fn test_encode_and_decode_error_other_messages() {
    match EncodeError::other("boom") {
        EncodeError::Other(b) => {
            assert_eq!(b.message, "boom");
            assert!(b.source.is_none());
        }
        _ => panic!("expected Other"),
    }
    let e = EncodeError::other("boom");
    assert_eq!(e.to_string(), "could not encode the message");
    assert_eq!(e.source().unwrap().message, "boom");

    match DecodeError::other("bad".to_string()) {
        DecodeError::Other(b) => assert_eq!(b.message, "bad"),
        _ => panic!("expected Other"),
    }
    let e = DecodeError::other("bad");
    assert_eq!(e.to_string(), "could not decode the message");
    assert_eq!(e.source().unwrap().message, "bad");
}

#[test]
fn test_decoded_reply() {
    assert_eq!(decoded_reply::<u32>(Ok(Some(8))).ok(), Some(8));
    match decoded_reply::<u32>(Ok(None)) {
        Err(DecodeError::Other(b)) => {
            assert_eq!(b.message, "downcast failed");
            assert!(b.source.is_none());
        }
        _ => panic!("expected a downcast failure"),
    }
    match decoded_reply::<u32>(Err(DecodeError::MissingDecodeContext)) {
        Err(DecodeError::Other(b)) => {
            assert_eq!(b.message, "missing decode context");
            assert!(b.source.is_none());
        }
        _ => panic!("expected the decoding error"),
    }
    match decoded_reply::<u32>(Err(DecodeError::other("truncated"))) {
        Err(DecodeError::Other(b)) => {
            assert_eq!(b.message, "could not decode the message");
            assert_eq!(b.source.unwrap().message, "truncated");
        }
        _ => panic!("expected the decoding error"),
    }
}

#[test]
fn test_encoded_request() {
    let bytes = Bytes::from_static(&[8, 1]);
    match encoded_request(Ping(1), Ok(bytes.clone())) {
        Ok((m, b)) => {
            assert_eq!(m, Ping(1));
            assert_eq!(b, bytes);
        }
        Err(_) => panic!("encoding succeeded"),
    }
    match encoded_request(Ping(2), Err(EncodeError::MissingEncodeContext)) {
        Err(SendError::Other(inner, m)) => {
            assert_eq!(m, Ping(2));
            assert_eq!(inner.message, "missing encode context");
            assert!(inner.source.is_none());
        }
        _ => panic!("expected Other"),
    }
}

#[test]
fn test_lifecycle_steps() {
    assert!(matches!(after_pre_start::<u8>(Ok(())), Ok(ActorState::Starting)));
    assert!(matches!(after_pre_start::<u8>(Err(5)), Err(5)));
    assert_eq!(termination_error::<u8>(Ok(())), None);
    assert_eq!(termination_error::<u8>(Err(6)), Some(6));

    let owned = "owned payload".to_string();
    assert_eq!(panic_message(Some(&owned), Some("ignored")), "owned payload");
    assert_eq!(panic_message(None, Some("static payload")), "static payload");
    assert_eq!(panic_message(None, None), "could not capture the panic message");
}

#[test]
fn test_mailbox_receives_in_order() {
    let (address, mut mailbox) = make_address(3);
    assert!(address.try_do_send(Ping(1)).is_ok());
    assert!(address.try_do_send(Ping(2)).is_ok());
    assert_eq!(mailbox.try_recv().unwrap().message(), Some(Ping(1)));
    assert_eq!(mailbox.try_recv().unwrap().message(), Some(Ping(2)));
    assert!(matches!(mailbox.try_recv(), Err(RecvError::Empty)));
}

fn try_through_sender<S: acktor::address::Sender<Ping>>(sender: &S, msg: Ping) -> Option<Ping> {
    match sender.try_do_send(msg) {
        Ok(()) => None,
        Err(e) => Some(match e {
            SendError::Closed(m) | SendError::Full(m) | SendError::Timeout(m) => m,
            SendError::Other(_, m) => m,
        }),
    }
}

#[test]
fn test_address_as_sender() {
    let (address, _mailbox) = make_address(1);
    assert_eq!(try_through_sender(&address, Ping(1)), None);
    assert_eq!(try_through_sender(&address, Ping(2)), Some(Ping(2)));
    assert_eq!(acktor::address::Sender::<Ping>::capacity(&address), 0);
    assert!(!acktor::address::Sender::<Ping>::is_closed(&address));
}

#[test]
fn test_recipient_over_address() {
    let (address, mut mailbox) = make_address(1);
    let recipient: acktor::address::Recipient<Ping> =
        acktor::address::Recipient::new(Box::new(address));
    assert_eq!(SenderId::index(&recipient).as_u64(), 3);
    assert_eq!(recipient.capacity(), 1);
    assert!(!recipient.is_closed());
    assert!(recipient.try_do_send(Ping(1)).is_ok());
    match recipient.try_send(Ping(2)) {
        Err(SendError::Full(m)) => assert_eq!(m, Ping(2)),
        _ => panic!("expected a full mailbox"),
    }
    assert_eq!(mailbox.try_recv().ok().unwrap().message(), Some(Ping(1)));
}
