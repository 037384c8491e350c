//! Verified core of an actor framework built on top of tokio.

pub mod actor;
pub mod index;
pub mod errors;
pub mod codec;
pub mod report_impl;
pub mod channel;
pub mod address;
pub mod drain;
pub mod utils;
pub mod message;
pub mod envelope;
pub mod supervisor;
