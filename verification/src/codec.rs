//! Encoding and decoding remote messages: their errors, the wire form of an actor index, and
//! the addresses of actors inside messages.

mod context;
mod error;
pub mod wire;
pub use error::{decode_error_text, decoded_reply, encode_error_text, DecodeError, EncodeError};
pub use context::{
    decode_address, encode_address, new_with_decode_context, register, DecodeContext, EncodeContext,
};
