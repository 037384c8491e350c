use acktor::actor::{next_state, ActorContext, ActorState, LifecycleEvent, Stopping};
use acktor::address::{Address, RecipientProxy};
use acktor::channel::mpsc;
use acktor::envelope::DefaultEnvelopeProxy;
use acktor::errors::{BoxError, SendError};
use acktor::index::ActorId;
use acktor::message::Message;
use acktor::supervisor::{try_notify_supervisor, LogLevel, SupervisionEvent};
use acktor::utils::NoOpHasher;

#[derive(Debug, PartialEq)]
struct Ping(u32);

impl Message for Ping {
    type Result = u32;
}

struct Context {
    state: ActorState,
}

impl ActorContext for Context {
    fn state(&self) -> ActorState {
        self.state
    }

    fn set_state(&mut self, state: ActorState) {
        self.state = state;
    }
}

#[test]
fn test_lifecycle_transitions() {
    assert_eq!(next_state(LifecycleEvent::PreStarted), ActorState::Starting);
    assert_eq!(next_state(LifecycleEvent::PostStarted), ActorState::Running);
    assert_eq!(next_state(LifecycleEvent::Stop), ActorState::Stopping);
    assert_eq!(next_state(LifecycleEvent::Terminate), ActorState::Stopped);
    assert_eq!(next_state(LifecycleEvent::StoppingDecided(Stopping::Stop)), ActorState::Stopped);
    assert_eq!(
        next_state(LifecycleEvent::StoppingDecided(Stopping::Continue)),
        ActorState::Running
    );
}

#[test]
fn test_context_stop_and_terminate() {
    let mut ctx = Context { state: ActorState::Running };
    ctx.stop();
    assert_eq!(ctx.state(), ActorState::Stopping);
    ctx.terminate();
    assert_eq!(ctx.state(), ActorState::Stopped);
}

type Event = SupervisionEvent<ActorId, BoxError>;

#[test]
fn test_try_notify_supervisor_sends_to_supervisor() {
    let (tx, mut rx) = mpsc::channel::<Event>(1);
    let supervisor = RecipientProxy::new(ActorId::new(1), tx);
    let line = try_notify_supervisor(
        Some(&supervisor),
        SupervisionEvent::Warn(ActorId::new(7), BoxError::from("A")),
    );
    assert!(line.is_none());
    match rx.try_recv().ok().unwrap() {
        SupervisionEvent::Warn(id, e) => {
            assert_eq!(id.as_u64(), 7);
            assert_eq!(e.message, "A");
        }
        _ => panic!("expected the warning"),
    }
    // the supervisor's mailbox is full: the event is dropped
    assert!(supervisor
        .try_do_send(SupervisionEvent::Terminated(ActorId::new(7), None))
        .is_ok());
    let line = try_notify_supervisor(
        Some(&supervisor),
        SupervisionEvent::Terminated(ActorId::new(7), None),
    );
    assert!(line.is_none());
}

#[test]
fn test_try_notify_supervisor_logs_without_supervisor() {
    let none: Option<&RecipientProxy<Event>> = None;
    let mut source = BoxError::from("B");
    source.source = Some(Box::new(BoxError::from("C")));
    let line = try_notify_supervisor(none, SupervisionEvent::Warn(ActorId::new(3), source)).unwrap();
    assert_eq!(line.level, LogLevel::Warn);
    assert_eq!(line.actor.as_u64(), 3);
    assert_eq!(line.report, "B: C");

    let line = try_notify_supervisor(
        none,
        SupervisionEvent::Terminated(ActorId::new(4), Some(BoxError::from("D"))),
    )
    .unwrap();
    assert_eq!(line.level, LogLevel::Error);
    assert_eq!(line.actor.as_u64(), 4);
    assert_eq!(line.report, "D");

    assert!(try_notify_supervisor(none, SupervisionEvent::Terminated(ActorId::new(5), None)).is_none());
}

#[test]
fn test_no_op_hasher() {
    let mut h = NoOpHasher::new();
    assert_eq!(h.finish(), 0);
    h.write_u64(42);
    assert_eq!(h.finish(), 42);
    h.write_u8(7);
    assert_eq!(h.finish(), 7);
    h.write_u128((5u128 << 64) | 9);
    assert_eq!(h.finish(), 9);
    h.write_usize(11);
    assert_eq!(h.finish(), 11);
    assert_eq!(NoOpHasher::default().finish(), 0);
}

#[test]
fn test_address_try_reserve() {
    let (tx, mut rx) = mpsc::channel::<DefaultEnvelopeProxy<Ping>>(1);
    let address = Address::new(ActorId::new(2), tx);
    let permit = address.try_reserve().ok().unwrap();
    assert_eq!(address.capacity(), 0);
    assert!(matches!(address.try_reserve(), Err(SendError::Full(()))));
    permit.into_inner().send(DefaultEnvelopeProxy::new(Ping(3), None));
    assert_eq!(rx.try_recv().ok().unwrap().message(), Some(Ping(3)));
    rx.close();
    assert!(matches!(address.try_reserve(), Err(SendError::Closed(()))));
}
