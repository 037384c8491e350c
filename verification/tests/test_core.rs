use std::convert::TryFrom;

use acktor::actor::{ActorState, Stopping};
use acktor::index::{ActorId, ActorIdAllocator, SenderId, MAX_ACTOR_ID};
use acktor::utils::short_name;

#[test]
fn test_actor_state_try_from() {
    assert_eq!(ActorState::try_from(0u8), Ok(ActorState::Unstarted));
    assert_eq!(ActorState::try_from(1u8), Ok(ActorState::Starting));
    assert_eq!(ActorState::try_from(2u8), Ok(ActorState::Running));
    assert_eq!(ActorState::try_from(3u8), Ok(ActorState::Stopping));
    assert_eq!(ActorState::try_from(4u8), Ok(ActorState::Stopped));
    assert_eq!(ActorState::try_from(5u8), Err(()));
    assert_eq!(ActorState::try_from(255u8), Err(()));
}

#[test]
fn test_actor_state_code_roundtrip() {
    for state in [
        ActorState::Unstarted,
        ActorState::Starting,
        ActorState::Running,
        ActorState::Stopping,
        ActorState::Stopped,
    ] {
        assert_eq!(ActorState::try_from(state.code()), Ok(state));
    }
    assert_eq!(ActorState::Stopped.code(), 4);
    assert_ne!(Stopping::Stop, Stopping::Continue);
}

#[test]
fn test_actor_id_local() {
    let id = ActorId::new(7);
    assert_eq!(id.as_u64(), 7);
    assert_eq!(id.as_local(), 7);
    assert!(!id.is_remote());
    assert_eq!(id.to_string(), "7");
    assert!(id == ActorId::new(7));
    assert!(id != ActorId::new(8));
    assert_eq!(ActorId::new(0).to_string(), "0");
    assert_eq!(ActorId::new(u64::MAX).to_string(), "18446744073709551615");
}

#[test]
fn test_actor_id_remote() {
    let id = ActorId::new_remote(42, 3);
    assert_eq!(id.as_u64(), 42);
    assert_eq!(id.as_local(), 42);
    assert!(id.is_remote());
    assert_eq!(id.to_string(), "42@3");
    assert!(id != ActorId::new(42));
    assert!(ActorId::new(42) < id);
    assert!(ActorId::new_remote(41, 9) < id);
}

#[test]
fn test_sender_id_for_actor_id() {
    let local = ActorId::new(5);
    let remote = ActorId::new_remote(5, 1);
    assert!(SenderId::index(&local) == local);
    assert!(!SenderId::is_remote(&local));
    assert!(SenderId::is_remote(&remote));
}

#[test]
fn test_allocator_hands_out_increasing_local_ids() {
    let mut alloc = ActorIdAllocator::new();
    assert!(!alloc.is_exhausted());
    let a = alloc.create_actor_id();
    let b = alloc.create_actor_id();
    let c = alloc.create_actor_id();
    assert_eq!(a.as_u64(), 0);
    assert_eq!(b.as_u64(), 1);
    assert_eq!(c.as_u64(), 2);
    assert!(a < b && b < c);
    assert!(!a.is_remote() && !b.is_remote() && !c.is_remote());
    assert_eq!(MAX_ACTOR_ID, (1u64 << 63) - 1);
}

#[test]
fn test_short_name() {
    assert_eq!(short_name("acktor::test_utils::Ping"), "Ping");
    assert_eq!(short_name("alloc::vec::Vec<alloc::string::String>"), "Vec");
    assert_eq!(short_name("u32"), "u32");
    assert_eq!(short_name("a:::b"), "b");
    assert_eq!(short_name("a::"), "");
    assert_eq!(short_name("<a::b as c::D>::E"), "");
    assert_eq!(short_name(""), "");
}
