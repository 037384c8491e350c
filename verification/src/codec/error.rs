//! Errors of encoding and decoding.

use vstd::prelude::*;
use vstd::string::*;

use prost::DecodeError as ProstDecodeError;
use prost::EncodeError as ProstEncodeError;

use crate::errors::BoxError;
use crate::index::{decimal, push_decimal};

verus! {

/// Declares `ProstEncodeError` to the verifier as an opaque type.
#[verifier::external_type_specification]
#[verifier::external_body]
pub struct ExProstEncodeError(ProstEncodeError);

/// Declares `ProstDecodeError` to the verifier as an opaque type.
#[verifier::external_type_specification]
#[verifier::external_body]
pub struct ExProstDecodeError(ProstDecodeError);

/// The text that the `Display` of a `prost::EncodeError` shows.
pub uninterp spec fn prost_encode_error_text(e: ProstEncodeError) -> Seq<char>;

/// The text that the `Display` of a `prost::DecodeError` shows.
pub uninterp spec fn prost_decode_error_text(e: ProstDecodeError) -> Seq<char>;

/// Renders a `prost::EncodeError` with its `Display`, which always begins with
/// "failed to encode Protobuf message".
#[verifier::external_body]
fn prost_encode_error_to_string(e: &ProstEncodeError) -> (r: String)
    ensures
        r@ == prost_encode_error_text(*e),
        "failed to encode Protobuf message"@.is_prefix_of(r@),
{
    e.to_string()
}

/// Renders a `prost::DecodeError` with its `Display`, which always begins with
/// "failed to decode Protobuf message: ".
#[verifier::external_body]
fn prost_decode_error_to_string(e: &ProstDecodeError) -> (r: String)
    ensures
        r@ == prost_decode_error_text(*e),
        "failed to decode Protobuf message: "@.is_prefix_of(r@),
{
    e.to_string()
}

fn owned(s: &str) -> (r: String)
    ensures
        r@ == s@,
{
    String::from_str(s)
}

/// Error type used by encoding.
#[derive(Debug)]
pub enum EncodeError {
    MissingEncodeContext,
    EncodeRemoteAddress,
    NotRemoteAddressable,
    Other(BoxError),
}

/// The text of an encode error, as its `Display` shows it.
pub open spec fn encode_error_text(e: EncodeError) -> Seq<char> {
    match e {
        EncodeError::MissingEncodeContext => "missing encode context"@,
        EncodeError::EncodeRemoteAddress => "remote address should not be encoded into a message"@,
        EncodeError::NotRemoteAddressable => "the actor is not remote addressable"@,
        EncodeError::Other(_) => "could not encode the message"@,
    }
}

impl EncodeError {
    /// Constructs a new `EncodeError` from an arbitrary error.
    pub fn other<E: Into<BoxError>>(err: E) -> (r: Self)
        ensures
            r is Other,
            call_ensures(<E as Into<BoxError>>::into, (err,), r->Other_0),
    {
        EncodeError::Other(err.into())
    }

    /// Returns the text of the error, as its `Display` shows it.
    pub fn to_string(&self) -> (r: String)
        ensures
            r@ == encode_error_text(*self),
    {
        match self {
            EncodeError::MissingEncodeContext => {
                proof { reveal_strlit("missing encode context"); }
                owned("missing encode context")
            },
            EncodeError::EncodeRemoteAddress => {
                proof { reveal_strlit("remote address should not be encoded into a message"); }
                owned("remote address should not be encoded into a message")
            },
            EncodeError::NotRemoteAddressable => {
                proof { reveal_strlit("the actor is not remote addressable"); }
                owned("the actor is not remote addressable")
            },
            EncodeError::Other(_) => {
                proof { reveal_strlit("could not encode the message"); }
                owned("could not encode the message")
            },
        }
    }

    /// Returns the error that this error reports as its source, if any.
    pub fn source(&self) -> (r: Option<&BoxError>)
        ensures
            match *self {
                EncodeError::Other(inner) => r == Some(&inner),
                _ => r is None,
            },
    {
        match self {
            EncodeError::Other(inner) => Some(inner),
            _ => None,
        }
    }
}

impl From<BoxError> for EncodeError {
    fn from(e: BoxError) -> (r: Self) {
        EncodeError::Other(e)
    }
}

impl vstd::std_specs::convert::FromSpecImpl<BoxError> for EncodeError {
    open spec fn obeys_from_spec() -> bool {
        true
    }

    open spec fn from_spec(e: BoxError) -> Self {
        EncodeError::Other(e)
    }
}

impl From<String> for EncodeError {
    fn from(s: String) -> (r: Self) {
        EncodeError::Other(BoxError::new(s))
    }
}

impl vstd::std_specs::convert::FromSpecImpl<String> for EncodeError {
    open spec fn obeys_from_spec() -> bool {
        true
    }

    open spec fn from_spec(s: String) -> Self {
        EncodeError::Other(BoxError { message: s, source: None })
    }
}

impl<'a> From<&'a str> for EncodeError {
    fn from(s: &'a str) -> (r: Self)
        ensures
            r matches EncodeError::Other(inner) && inner.message@ == s@ && inner.source is None,
    {
        EncodeError::Other(BoxError::new(owned(s)))
    }
}

/// A `&str` is copied into a fresh `String`; the impl's own `ensures` states the resulting
/// error, which no spec value can name.
impl<'a> vstd::std_specs::convert::FromSpecImpl<&'a str> for EncodeError {
    open spec fn obeys_from_spec() -> bool {
        false
    }

    open spec fn from_spec(s: &'a str) -> Self {
        arbitrary()
    }
}

impl From<ProstEncodeError> for EncodeError {
    fn from(e: ProstEncodeError) -> (r: Self)
        ensures
            r matches EncodeError::Other(inner) && inner.message@ == prost_encode_error_text(e)
                && inner.source is None,
    {
        EncodeError::Other(BoxError::new(prost_encode_error_to_string(&e)))
    }
}

/// The message is rendered into a fresh `String`; the impl's own `ensures` states its text.
impl vstd::std_specs::convert::FromSpecImpl<ProstEncodeError> for EncodeError {
    open spec fn obeys_from_spec() -> bool {
        false
    }

    open spec fn from_spec(e: ProstEncodeError) -> Self {
        arbitrary()
    }
}

/// An encode error becomes a boxed error whose message is its `Display` and whose source is
/// the error it wraps.
impl From<EncodeError> for BoxError {
    fn from(e: EncodeError) -> (r: Self)
        ensures
            r.message@ == encode_error_text(e),
            match e {
                EncodeError::Other(inner) => r.source == Some(Box::new(inner)),
                _ => r.source is None,
            },
    {
        let message = e.to_string();
        match e {
            EncodeError::Other(inner) => BoxError { message, source: Some(Box::new(inner)) },
            _ => BoxError { message, source: None },
        }
    }
}

/// The message is rendered into a fresh `String`; the impl's own `ensures` states its text.
impl vstd::std_specs::convert::FromSpecImpl<EncodeError> for BoxError {
    open spec fn obeys_from_spec() -> bool {
        false
    }

    open spec fn from_spec(e: EncodeError) -> Self {
        arbitrary()
    }
}

/// Error type used by decoding.
#[derive(Debug)]
pub enum DecodeError {
    MissingDecodeContext,
    DecodeRemoteAddress,
    UnknownMessageId(u64),
    MissingRemoteProxy,
    Other(BoxError),
}

/// The text of a decode error, as its `Display` shows it.
pub open spec fn decode_error_text(e: DecodeError) -> Seq<char> {
    match e {
        DecodeError::MissingDecodeContext => "missing decode context"@,
        DecodeError::DecodeRemoteAddress => "message should not contain a remote address"@,
        DecodeError::UnknownMessageId(id) => "unknown message id: "@ + decimal(id as nat),
        DecodeError::MissingRemoteProxy => "decode context does not contain a remote proxy"@,
        DecodeError::Other(_) => "could not decode the message"@,
    }
}

impl DecodeError {
    /// Constructs a new `DecodeError` from an arbitrary error.
    pub fn other<E: Into<BoxError>>(err: E) -> (r: Self)
        ensures
            r is Other,
            call_ensures(<E as Into<BoxError>>::into, (err,), r->Other_0),
    {
        DecodeError::Other(err.into())
    }

    /// Returns the text of the error, as its `Display` shows it.
    pub fn to_string(&self) -> (r: String)
        ensures
            r@ == decode_error_text(*self),
    {
        match self {
            DecodeError::MissingDecodeContext => {
                proof { reveal_strlit("missing decode context"); }
                owned("missing decode context")
            },
            DecodeError::DecodeRemoteAddress => {
                proof { reveal_strlit("message should not contain a remote address"); }
                owned("message should not contain a remote address")
            },
            DecodeError::UnknownMessageId(id) => {
                proof { reveal_strlit("unknown message id: "); }
                let mut out = owned("unknown message id: ");
                push_decimal(&mut out, *id);
                out
            },
            DecodeError::MissingRemoteProxy => {
                proof { reveal_strlit("decode context does not contain a remote proxy"); }
                owned("decode context does not contain a remote proxy")
            },
            DecodeError::Other(_) => {
                proof { reveal_strlit("could not decode the message"); }
                owned("could not decode the message")
            },
        }
    }

    /// Returns the error that this error reports as its source, if any.
    pub fn source(&self) -> (r: Option<&BoxError>)
        ensures
            match *self {
                DecodeError::Other(inner) => r == Some(&inner),
                _ => r is None,
            },
    {
        match self {
            DecodeError::Other(inner) => Some(inner),
            _ => None,
        }
    }
}

impl From<BoxError> for DecodeError {
    fn from(e: BoxError) -> (r: Self) {
        DecodeError::Other(e)
    }
}

impl vstd::std_specs::convert::FromSpecImpl<BoxError> for DecodeError {
    open spec fn obeys_from_spec() -> bool {
        true
    }

    open spec fn from_spec(e: BoxError) -> Self {
        DecodeError::Other(e)
    }
}

impl From<String> for DecodeError {
    fn from(s: String) -> (r: Self) {
        DecodeError::Other(BoxError::new(s))
    }
}

impl vstd::std_specs::convert::FromSpecImpl<String> for DecodeError {
    open spec fn obeys_from_spec() -> bool {
        true
    }

    open spec fn from_spec(s: String) -> Self {
        DecodeError::Other(BoxError { message: s, source: None })
    }
}

impl<'a> From<&'a str> for DecodeError {
    fn from(s: &'a str) -> (r: Self)
        ensures
            r matches DecodeError::Other(inner) && inner.message@ == s@ && inner.source is None,
    {
        DecodeError::Other(BoxError::new(owned(s)))
    }
}

/// A `&str` is copied into a fresh `String`; the impl's own `ensures` states the resulting
/// error, which no spec value can name.
impl<'a> vstd::std_specs::convert::FromSpecImpl<&'a str> for DecodeError {
    open spec fn obeys_from_spec() -> bool {
        false
    }

    open spec fn from_spec(s: &'a str) -> Self {
        arbitrary()
    }
}

impl From<ProstDecodeError> for DecodeError {
    fn from(e: ProstDecodeError) -> (r: Self)
        ensures
            r matches DecodeError::Other(inner) && inner.message@ == prost_decode_error_text(e)
                && inner.source is None,
    {
        DecodeError::Other(BoxError::new(prost_decode_error_to_string(&e)))
    }
}

/// The message is rendered into a fresh `String`; the impl's own `ensures` states its text.
impl vstd::std_specs::convert::FromSpecImpl<ProstDecodeError> for DecodeError {
    open spec fn obeys_from_spec() -> bool {
        false
    }

    open spec fn from_spec(e: ProstDecodeError) -> Self {
        arbitrary()
    }
}

/// A decode error becomes a boxed error whose message is its `Display` and whose source is
/// the error it wraps.
impl From<DecodeError> for BoxError {
    fn from(e: DecodeError) -> (r: Self)
        ensures
            r.message@ == decode_error_text(e),
            match e {
                DecodeError::Other(inner) => r.source == Some(Box::new(inner)),
                _ => r.source is None,
            },
    {
        let message = e.to_string();
        match e {
            DecodeError::Other(inner) => BoxError { message, source: Some(Box::new(inner)) },
            _ => BoxError { message, source: None },
        }
    }
}

/// The message is rendered into a fresh `String`; the impl's own `ensures` states its text.
impl vstd::std_specs::convert::FromSpecImpl<DecodeError> for BoxError {
    open spec fn obeys_from_spec() -> bool {
        false
    }

    open spec fn from_spec(e: DecodeError) -> Self {
        arbitrary()
    }
}

/// What goes back to the sender of a request to a remote actor once the reply has been decoded:
/// the result itself when the decoded value has the result's type (`Some`), a `downcast failed`
/// error when it has another type (`None`), and the decoding error, wrapped, when decoding failed.
pub fn decoded_reply<T>(decoded: Result<Option<T>, DecodeError>) -> (r: Result<T, DecodeError>)
    ensures
        match decoded {
            Ok(Some(v)) => r == Ok::<T, DecodeError>(v),
            Ok(None) => (r matches Err(DecodeError::Other(b)) && b.message@ == "downcast failed"@
                && b.source is None),
            Err(e) => (r matches Err(DecodeError::Other(b)) && b.message@ == decode_error_text(e)
                && match e {
                DecodeError::Other(inner) => b.source == Some(Box::new(inner)),
                _ => b.source is None,
            }),
        },
{
    match decoded {
        Ok(Some(v)) => Ok(v),
        Ok(None) => {
            let text = "downcast failed";
            proof {
                reveal_strlit("downcast failed");
            }
            Err(DecodeError::other(text))
        },
        Err(e) => Err(DecodeError::other(e)),
    }
}

} // verus!
