//! Channels whose receivers yield this crate's `RecvError` on failure.

pub mod mpsc;
pub mod oneshot;
