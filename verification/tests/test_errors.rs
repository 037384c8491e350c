use acktor::codec::{DecodeError, EncodeError};
use acktor::errors::{BoxError, RecvError, SendError};
use acktor::report_impl::{BoxedErrorKind, BoxedErrorTag, StdErrorKind, StdErrorTag};

fn chain() -> BoxError {
    BoxError {
        message: "outer".to_string(),
        source: Some(Box::new(BoxError {
            message: "middle".to_string(),
            source: Some(Box::new(BoxError::new("inner".to_string()))),
        })),
    }
}

#[test]
fn test_box_error_report() {
    assert_eq!(BoxError::new("alone".to_string()).report(), "alone");
    assert_eq!(chain().report(), "outer: middle: inner");
    assert_eq!(chain().message(), "outer");
}

#[test]
fn test_report_tags() {
    let e = chain();
    assert_eq!(BoxedErrorTag.report(&e), "outer: middle: inner");
    assert_eq!(BoxedErrorKind::report_kind(&&e).report(&e), "outer: middle: inner");
    assert_eq!(StdErrorTag.report(chain()), "outer: middle: inner");
    assert_eq!(StdErrorKind::report_kind(&e).report(chain()), "outer: middle: inner");
}

#[test]
fn test_box_error_from_str_and_string() {
    let a = BoxError::from("boom");
    assert_eq!(a.message, "boom");
    assert!(a.source.is_none());
    let b = BoxError::from("bang".to_string());
    assert_eq!(b.report(), "bang");
}

#[test]
fn test_send_error_text() {
    assert_eq!(SendError::Closed(1u32).to_string(), "sending on a closed channel");
    assert_eq!(SendError::Full(1u32).to_string(), "sending on a full channel");
    assert_eq!(SendError::Timeout(1u32).to_string(), "timed out waiting on sending");
    assert_eq!(SendError::Other(chain(), 1u32).to_string(), "outer");
}

#[test]
fn test_send_error_from_tokio_errors() {
    let rt = tokio::runtime::Builder::new_current_thread().enable_all().build().unwrap();
    let (tx, rx) = tokio::sync::mpsc::channel::<u32>(1);
    tx.try_send(1).unwrap();
    let full = tx.try_send(2).unwrap_err();
    match SendError::from(full) {
        SendError::Full(m) => assert_eq!(m, 2),
        _ => panic!("expected Full"),
    }
    let timeout = rt.block_on(tx.send_timeout(3, std::time::Duration::from_millis(1))).unwrap_err();
    match SendError::from(timeout) {
        SendError::Timeout(m) => assert_eq!(m, 3),
        _ => panic!("expected Timeout"),
    }
    drop(rx);
    let closed = tx.try_send(4).unwrap_err();
    match SendError::from(closed) {
        SendError::Closed(m) => assert_eq!(m, 4),
        _ => panic!("expected Closed"),
    }
    let closed = rt.block_on(tx.send(5)).unwrap_err();
    match SendError::from(closed) {
        SendError::Closed(m) => assert_eq!(m, 5),
        _ => panic!("expected Closed"),
    }
    let closed = rt.block_on(tx.send_timeout(6, std::time::Duration::from_millis(1))).unwrap_err();
    match SendError::from(closed) {
        SendError::Closed(m) => assert_eq!(m, 6),
        _ => panic!("expected Closed"),
    }
}

#[test]
fn test_recv_error_from_tokio_errors() {
    let (tx, mut rx) = tokio::sync::mpsc::channel::<u32>(1);
    assert!(matches!(RecvError::from(rx.try_recv().unwrap_err()), RecvError::Empty));
    drop(tx);
    assert!(matches!(RecvError::from(rx.try_recv().unwrap_err()), RecvError::Closed));

    let (tx, mut rx) = tokio::sync::oneshot::channel::<u32>();
    assert!(matches!(RecvError::from(rx.try_recv().unwrap_err()), RecvError::Empty));
    drop(tx);
    assert!(matches!(RecvError::from(rx.try_recv().unwrap_err()), RecvError::Closed));

    let (tx, rx) = tokio::sync::oneshot::channel::<u32>();
    drop(tx);
    let e = rx.blocking_recv().unwrap_err();
    assert!(matches!(RecvError::from(e), RecvError::Closed));
}

#[test]
fn test_recv_error_text() {
    assert_eq!(RecvError::Closed.to_string(), "receiving on a closed channel");
    assert_eq!(RecvError::Empty.to_string(), "receiving on an empty channel");
    assert_eq!(RecvError::Timeout.to_string(), "timed out waiting on receiving");
    assert_eq!(RecvError::Other(chain()).to_string(), "outer");
}

#[test]
fn test_encode_error() {
    assert_eq!(EncodeError::MissingEncodeContext.to_string(), "missing encode context");
    assert_eq!(
        EncodeError::EncodeRemoteAddress.to_string(),
        "remote address should not be encoded into a message"
    );
    assert_eq!(EncodeError::NotRemoteAddressable.to_string(), "the actor is not remote addressable");
    let e = EncodeError::other(BoxError::new("bad".to_string()));
    assert_eq!(e.to_string(), "could not encode the message");
    assert_eq!(e.source().unwrap().message, "bad");
    assert!(EncodeError::MissingEncodeContext.source().is_none());

    let e = EncodeError::from("oops");
    let boxed = BoxError::from(e);
    assert_eq!(boxed.report(), "could not encode the message: oops");
    let boxed = BoxError::from(EncodeError::from("x".to_string()));
    assert_eq!(boxed.report(), "could not encode the message: x");
    let boxed = BoxError::from(EncodeError::NotRemoteAddressable);
    assert_eq!(boxed.report(), "the actor is not remote addressable");
}

#[test]
fn test_encode_error_from_prost() {
    let mut buf = [0u8; 1];
    let mut slice = &mut buf[..];
    let err = prost::Message::encode(&300u64, &mut slice).unwrap_err();
    let e = EncodeError::from(err);
    match e.source() {
        Some(inner) => {
            assert!(inner.message.starts_with("failed to encode Protobuf message"));
            assert_eq!(inner.message, err.to_string());
        }
        None => panic!("expected a source"),
    }
}

#[test]
fn test_decode_error() {
    assert_eq!(DecodeError::MissingDecodeContext.to_string(), "missing decode context");
    assert_eq!(
        DecodeError::DecodeRemoteAddress.to_string(),
        "message should not contain a remote address"
    );
    assert_eq!(DecodeError::UnknownMessageId(99).to_string(), "unknown message id: 99");
    assert_eq!(DecodeError::UnknownMessageId(0).to_string(), "unknown message id: 0");
    assert_eq!(
        DecodeError::MissingRemoteProxy.to_string(),
        "decode context does not contain a remote proxy"
    );
    let e = DecodeError::other("downcast failed");
    assert_eq!(e.to_string(), "could not decode the message");
    assert_eq!(BoxError::from(e).report(), "could not decode the message: downcast failed");
}

#[test]
fn test_decode_error_from_prost() {
    let err = <u64 as prost::Message>::decode(&[0xffu8][..]).unwrap_err();
    let text = err.to_string();
    let e = DecodeError::from(err);
    match e.source() {
        Some(inner) => {
            assert!(inner.message.starts_with("failed to decode Protobuf message: "));
            assert_eq!(inner.message, text);
        }
        None => panic!("expected a source"),
    }
}
