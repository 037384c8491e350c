use acktor::address::{Address, Mailbox};
use acktor::channel::{mpsc, oneshot};
use acktor::drain::{DrainPolicy, DrainState, Drainable, NoDrain};
use acktor::envelope::DefaultEnvelopeProxy;
use acktor::errors::RecvError;
use acktor::index::ActorId;
use acktor::message::Message;

#[derive(Debug, PartialEq)]
struct Ping(u32);

impl Message for Ping {
    type Result = u32;
}

fn make_address(
    capacity: usize,
) -> (Address<DefaultEnvelopeProxy<Ping>>, Mailbox<DefaultEnvelopeProxy<Ping>>) {
    let (tx, rx) = mpsc::channel::<DefaultEnvelopeProxy<Ping>>(capacity);
    (Address::new(ActorId::new(1), tx), Mailbox::new(rx))
}

fn make_mailbox(capacity: usize) -> (tokio::sync::mpsc::Sender<Ping>, Mailbox<Ping>) {
    let (tx, rx) = mpsc::channel::<Ping>(capacity);
    (tx, Mailbox::new(rx))
}

#[test]
fn test_no_drain_is_zero_sized() {
    assert_eq!(std::mem::size_of::<<NoDrain as DrainPolicy>::State>(), 0);

    let (tx, mut mailbox) = make_mailbox(4);
    tx.try_send(Ping(1)).unwrap();
    tx.try_send(Ping(2)).unwrap();

    NoDrain::snapshot(&mut (), &mailbox);
    NoDrain::apply(&mut (), &mut mailbox);
    assert_eq!(mailbox.len(), 2);
}

#[test]
fn test_drainable_discards_only_the_snapshot() {
    let (address, mut mailbox) = make_address(4);
    assert!(address.try_do_send(Ping(1)).is_ok());
    assert!(address.try_do_send(Ping(2)).is_ok());

    let mut state = DrainState::default();
    Drainable::snapshot(&mut state, &mailbox);

    // enqueued after the snapshot, so it must survive the drain
    assert!(address.try_do_send(Ping(3)).is_ok());

    state.request();
    Drainable::apply(&mut state, &mut mailbox);
    assert_eq!(mailbox.len(), 1);

    // the request is one-shot
    Drainable::apply(&mut state, &mut mailbox);
    assert_eq!(mailbox.len(), 1);
    let mut envelope = mailbox.try_recv().unwrap();
    assert_eq!(envelope.message(), Some(Ping(3)));
}

#[test]
fn test_drainable_without_request_keeps_everything() {
    let (address, mut mailbox) = make_address(4);
    assert!(address.try_do_send(Ping(1)).is_ok());
    assert!(address.try_do_send(Ping(2)).is_ok());

    let mut state = DrainState::default();
    Drainable::snapshot(&mut state, &mailbox);
    Drainable::apply(&mut state, &mut mailbox);
    assert_eq!(mailbox.len(), 2);
}

#[test]
fn test_drainable_request_is_idempotent() {
    let (address, mut mailbox) = make_address(8);
    for i in 0..5 {
        assert!(address.try_do_send(Ping(i)).is_ok());
    }
    let mut state = DrainState::default();
    Drainable::snapshot(&mut state, &mailbox);
    assert!(address.try_do_send(Ping(5)).is_ok());
    state.request();
    state.request();
    Drainable::apply(&mut state, &mut mailbox);
    assert_eq!(mailbox.len(), 1);
    assert_eq!(mailbox.try_recv().unwrap().message(), Some(Ping(5)));
}

#[test]
fn test_mailbox_queries() {
    let (tx, mut mailbox) = make_mailbox(3);
    assert!(mailbox.is_empty());
    assert_eq!(mailbox.capacity(), 3);
    assert_eq!(mailbox.max_capacity(), 3);
    tx.try_send(Ping(7)).unwrap();
    assert!(!mailbox.is_empty());
    assert_eq!(mailbox.len(), 1);
    assert_eq!(mailbox.capacity(), 2);
    assert_eq!(mailbox.try_recv().unwrap(), Ping(7));
    assert!(matches!(mailbox.try_recv(), Err(RecvError::Empty)));
    assert!(!mailbox.is_closed());
    mailbox.close();
    assert!(mailbox.is_closed());
    assert!(matches!(mailbox.try_recv(), Err(RecvError::Closed)));
}

#[test]
fn test_mpsc_receiver() {
    let (tx, mut rx) = mpsc::channel::<u32>(2);
    assert_eq!(rx.sender_strong_count(), 1);
    assert_eq!(rx.sender_weak_count(), 0);
    assert!(matches!(rx.try_recv(), Err(RecvError::Empty)));
    tx.try_send(10).unwrap();
    assert_eq!(rx.len(), 1);
    assert_eq!(rx.try_recv().unwrap(), 10);
    drop(tx);
    assert!(rx.is_closed());
    assert!(matches!(rx.try_recv(), Err(RecvError::Closed)));
    let mut rx = rx.into_inner();
    assert!(rx.try_recv().is_err());
}

#[test]
fn test_oneshot_receiver() {
    let (tx, mut rx) = oneshot::channel::<u32>();
    assert!(rx.is_empty());
    assert!(!rx.is_terminated());
    assert!(matches!(rx.try_recv(), Err(RecvError::Empty)));
    assert!(!oneshot::sender_is_closed(&tx));
    assert!(oneshot::send_value(tx, 5).is_ok());
    assert_eq!(rx.try_recv().unwrap(), 5);
    assert!(rx.is_terminated());
    assert!(matches!(rx.try_recv(), Err(RecvError::Closed)));

    let (tx, mut rx) = oneshot::channel::<u32>();
    rx.close();
    assert!(oneshot::sender_is_closed(&tx));
    assert_eq!(oneshot::send_value(tx, 6), Err(6));
}

#[test]
fn test_envelope_message_taken_once() {
    let mut proxy = DefaultEnvelopeProxy::new(Ping(1), None);
    assert_eq!(proxy.message(), Some(Ping(1)));
    assert_eq!(proxy.message(), None);
    assert!(proxy.take_for_handling().is_none());
}

#[test]
fn test_envelope_take_for_handling() {
    let mut proxy = DefaultEnvelopeProxy::new(Ping(2), None);
    let (msg, tx) = proxy.take_for_handling().unwrap();
    assert_eq!(msg, Ping(2));
    assert!(tx.is_none());
    assert!(proxy.take_for_handling().is_none());

    let (tx, rx) = tokio::sync::oneshot::channel::<u32>();
    let mut proxy = DefaultEnvelopeProxy::new(Ping(3), Some(tx));
    let (msg, tx) = proxy.take_for_handling().unwrap();
    assert_eq!(msg, Ping(3));
    tx.unwrap().send(30).unwrap();
    assert_eq!(rx.blocking_recv().unwrap(), 30);

    // the sender stopped waiting for the result: the message is skipped
    let (tx, rx) = tokio::sync::oneshot::channel::<u32>();
    drop(rx);
    let mut proxy = DefaultEnvelopeProxy::new(Ping(4), Some(tx));
    assert!(proxy.take_for_handling().is_none());
    assert_eq!(proxy.message(), None);
}
