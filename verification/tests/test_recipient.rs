use std::collections::hash_map::DefaultHasher;
use std::hash::{Hash, Hasher};

use acktor::address::RecipientProxy;
use acktor::channel::mpsc;
use acktor::errors::{RecvError, SendError};
use acktor::index::{ActorId, ActorIdAllocator};
use acktor::message::Message;

#[derive(Debug, PartialEq)]
struct Ping(u32);

impl Message for Ping {
    type Result = ();
}

fn hash_of<T: Hash>(value: &T) -> u64 {
    let mut hasher = DefaultHasher::new();
    value.hash(&mut hasher);
    hasher.finish()
}

#[test]
fn test_recipient_proxy() {
    let mut ids = ActorIdAllocator::new();
    let (tx, _rx) = mpsc::channel::<Ping>(1);
    let proxy = RecipientProxy::new(ids.create_actor_id(), tx);

    // clone + eq + hash
    let clone = proxy.clone();
    assert!(proxy == clone);
    assert!(proxy.index() == clone.index());
    assert_eq!(hash_of(&proxy), hash_of(&clone));

    // distinct proxies with different indices are not equal
    let (tx2, _rx2) = mpsc::channel::<Ping>(1);
    let other = RecipientProxy::new(ids.create_actor_id(), tx2);
    assert!(proxy != other);
    assert!(proxy.index() != other.index());
}

#[test]
fn test_recipient_proxy_sends() {
    let (tx, mut rx) = mpsc::channel::<Ping>(2);
    let proxy = RecipientProxy::new(ActorId::new(9), tx);
    assert_eq!(proxy.index().as_u64(), 9);
    assert_eq!(proxy.capacity(), 2);
    assert!(!proxy.is_closed());

    let mut response = match proxy.try_send(Ping(1)) {
        Ok(rx) => rx,
        Err(_) => panic!("send failed"),
    };
    assert!(response.try_recv().is_ok());
    assert!(proxy.try_do_send(Ping(2)).is_ok());
    assert_eq!(rx.len(), 2);

    // the channel is full: the message comes back
    match proxy.try_do_send(Ping(3)) {
        Err(SendError::Full(m)) => assert_eq!(m, Ping(3)),
        _ => panic!("expected Full"),
    }
    match proxy.try_send(Ping(4)) {
        Err(SendError::Full(m)) => assert_eq!(m, Ping(4)),
        _ => panic!("expected Full"),
    }

    assert_eq!(rx.try_recv().unwrap(), Ping(1));
    assert_eq!(rx.try_recv().unwrap(), Ping(2));
    assert!(matches!(rx.try_recv(), Err(RecvError::Empty)));

    // the receiving end is gone: the message comes back
    drop(rx);
    assert!(proxy.is_closed());
    match proxy.try_do_send(Ping(5)) {
        Err(SendError::Closed(m)) => assert_eq!(m, Ping(5)),
        _ => panic!("expected Closed"),
    }
    match proxy.try_send(Ping(6)) {
        Err(SendError::Closed(m)) => assert_eq!(m, Ping(6)),
        _ => panic!("expected Closed"),
    }
}
