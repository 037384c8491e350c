//! Addresses of actors, their mailboxes, and recipients which are not backed by an actor.

mod address_impl;
mod mailbox;
mod recipient;
mod remote;
mod sender;
mod recipient_dyn;
pub use address_impl::{
    pack_request, refused_envelope, refused_with, unpack_closed, unpack_refused,
    unpack_timed_out, reserve_error, reserve_outcome, reserve_owned_outcome, Address,
    OwnedSendPermit, SendPermit, law_address_try_send_carries_reply,
    law_address_try_do_send_without_reply,
};
pub use mailbox::Mailbox;
pub use recipient::RecipientProxy;
pub use remote::{
    answers_like_proxy, encoded_request, law_remote_blocking_do_send_follows_proxy,
    law_remote_blocking_send_follows_proxy, law_remote_try_do_send_follows_proxy,
    law_remote_try_send_follows_proxy, proxy_outcome, refused_encoding, RemoteAddress, RemoteProxy,
};
pub use recipient_dyn::{law_recipient_try_do_send_forwards, law_recipient_try_send_forwards, Recipient};
pub use sender::{full_or_closed, given_back, Sender};
