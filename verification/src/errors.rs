//! Error types used by this crate.

use vstd::prelude::*;
use vstd::string::*;

use tokio::sync::mpsc::error::SendError as MpscSendError;
use tokio::sync::mpsc::error::TryRecvError as MpscTryRecvError;
use tokio::sync::mpsc::error::TrySendError as MpscTrySendError;
use tokio::sync::mpsc::error::SendTimeoutError as MpscSendTimeoutError;
use tokio::sync::oneshot::error::RecvError as OneshotRecvError;
use tokio::sync::oneshot::error::TryRecvError as OneshotTryRecvError;

verus! {

/// Declares tokio's mpsc `SendError<T>`, a tuple struct whose one public field holds the value
/// that could not be sent.
#[verifier::external_type_specification]
#[verifier::reject_recursive_types(T)]
pub struct ExMpscSendError<T>(MpscSendError<T>);

/// Declares tokio's mpsc `TrySendError<T>`, a public enum whose two variants, `Full` and
/// `Closed`, hold the value that could not be sent.
#[verifier::external_type_specification]
#[verifier::reject_recursive_types(T)]
pub struct ExMpscTrySendError<T>(MpscTrySendError<T>);

/// Declares tokio's mpsc `SendTimeoutError<T>`, a public enum whose two variants, `Timeout` and
/// `Closed`, hold the value that could not be sent.
#[verifier::external_type_specification]
#[verifier::reject_recursive_types(T)]
pub struct ExMpscSendTimeoutError<T>(MpscSendTimeoutError<T>);

/// Declares tokio's mpsc `TryRecvError`, a public enum with the variants `Empty` and
/// `Disconnected`.
#[verifier::external_type_specification]
pub struct ExMpscTryRecvError(MpscTryRecvError);

/// Declares tokio's oneshot `RecvError` to the verifier as an opaque type (its one field is
/// private).
#[verifier::external_type_specification]
#[verifier::external_body]
pub struct ExOneshotRecvError(OneshotRecvError);

/// Declares tokio's oneshot `TryRecvError`, a public enum with the variants `Empty` and
/// `Closed`.
#[verifier::external_type_specification]
pub struct ExOneshotTryRecvError(OneshotTryRecvError);

/// A boxed error, held as text: the message its `Display` shows and, if it has one, the error
/// it reports as its source.
#[derive(Debug)]
pub struct BoxError {
    pub message: String,
    pub source: Option<Box<BoxError>>,
}

/// The text of an error report: the message of an error followed by the report of its source,
/// if any, after `": "`.
pub open spec fn report_text(e: BoxError) -> Seq<char>
    decreases e,
{
    match e.source {
        None => e.message@,
        Some(source) => e.message@ + seq![':', ' '] + report_text(*source),
    }
}

impl BoxError {
    /// Constructs an error with the given message and no source.
    pub fn new(message: String) -> (r: Self)
        ensures
            r.message == message,
            r.source is None,
    {
        BoxError { message, source: None }
    }

    /// Returns the message of the error itself, as its `Display` shows it.
    pub fn message(&self) -> (r: &str)
        ensures
            r@ == self.message@,
    {
        self.message.as_str()
    }

    /// Returns the message of the error followed by the messages of its sources, nearest first,
    /// each preceded by `": "`.
    pub fn report(&self) -> (r: String)
        ensures
            r@ == report_text(*self),
        decreases *self,
    {
        let mut out = self.message.clone();
        match &self.source {
            None => {},
            Some(source) => {
                let sep = ": ";
                proof {
                    reveal_strlit(": ");
                }
                out.append(sep);
                let rest = source.report();
                out.append(rest.as_str());
            },
        }
        out
    }
}

/// Law: the report of an error with no source is its message.
pub proof fn law_report_without_source(e: BoxError, text: String)
    requires
        e.source is None,
        call_ensures(BoxError::report, (&e,), text),
    ensures
        text@ == e.message@,
{
}

/// Law: the report of an error whose source is `source` is its message, then `": "`, then the
/// report of the source; so every message of the chain of sources appears in it, in order, the
/// deepest last.
pub proof fn law_report_chains_source(
    e: BoxError,
    source: BoxError,
    text: String,
    source_text: String,
)
    requires
        e.source == Some(Box::new(source)),
        call_ensures(BoxError::report, (&e,), text),
        call_ensures(BoxError::report, (&source,), source_text),
    ensures
        text@ == e.message@ + seq![':', ' '] + source_text@,
{
}

/// The messages of an error and of its chain of sources, the error's own first.
pub open spec fn chain_messages(e: BoxError) -> Seq<Seq<char>>
    decreases e,
{
    match e.source {
        None => seq![e.message@],
        Some(source) => seq![e.message@] + chain_messages(*source),
    }
}

/// Law: the report of an error holds the message of every error in its chain of sources: the
/// report of the `i`-th source follows the messages before it, each followed by `": "`.
pub proof fn law_report_holds_chain(e: BoxError, text: String)
    requires
        call_ensures(BoxError::report, (&e,), text),
    ensures
        chain_messages(e)[0].is_prefix_of(text@),
        text@.len() >= chain_len_text(e),
        report_holds_messages(e, text@),
{
    lemma_report_holds_messages(e);
}

/// The length of the messages of the chain, with a `": "` between two of them.
pub open spec fn chain_len_text(e: BoxError) -> nat
    decreases e,
{
    match e.source {
        None => e.message@.len(),
        Some(source) => e.message@.len() + 2 + chain_len_text(*source),
    }
}

/// `text` is the message of `e`, then, if `e` has a source, `": "` and a text holding the
/// messages of the source's chain the same way.
pub open spec fn report_holds_messages(e: BoxError, text: Seq<char>) -> bool
    decreases e,
{
    &&& e.message@.is_prefix_of(text)
    &&& match e.source {
        None => text.len() == e.message@.len(),
        Some(source) => text.len() >= e.message@.len() + 2 && text[e.message@.len() as int] == ':'
            && text[e.message@.len() + 1int] == ' ' && report_holds_messages(
            *source,
            text.subrange(e.message@.len() + 2int, text.len() as int),
        ),
    }
}

proof fn lemma_report_holds_messages(e: BoxError)
    ensures
        report_holds_messages(e, report_text(e)),
        report_text(e).len() == chain_len_text(e),
    decreases e,
{
    let t = report_text(e);
    assert(e.message@ =~= t.subrange(0, e.message@.len() as int));
    match e.source {
        None => {},
        Some(source) => {
            lemma_report_holds_messages(*source);
            assert(t.subrange(e.message@.len() + 2int, t.len() as int) =~= report_text(*source));
        },
    }
}

impl From<String> for BoxError {
    fn from(message: String) -> (r: Self) {
        BoxError::new(message)
    }
}

impl vstd::std_specs::convert::FromSpecImpl<String> for BoxError {
    open spec fn obeys_from_spec() -> bool {
        true
    }

    open spec fn from_spec(message: String) -> Self {
        BoxError { message, source: None }
    }
}

impl<'a> From<&'a str> for BoxError {
    fn from(message: &'a str) -> (r: Self)
        ensures
            r.message@ == message@,
            r.source is None,
    {
        BoxError::new(String::from_str(message))
    }
}

/// A `&str` is copied into a fresh `String`; the impl's own `ensures` states the resulting
/// message, which no spec value can name.
impl<'a> vstd::std_specs::convert::FromSpecImpl<&'a str> for BoxError {
    open spec fn obeys_from_spec() -> bool {
        false
    }

    open spec fn from_spec(message: &'a str) -> Self {
        arbitrary()
    }
}

/// Error returned when sending a message. Each variant gives the message back.
pub enum SendError<M> {
    Closed(M),
    Full(M),
    Timeout(M),
    Other(BoxError, M),
}

/// The text of a send error, as its `Display` shows it.
pub open spec fn send_error_text<M>(e: SendError<M>) -> Seq<char> {
    match e {
        SendError::Closed(_) => "sending on a closed channel"@,
        SendError::Full(_) => "sending on a full channel"@,
        SendError::Timeout(_) => "timed out waiting on sending"@,
        SendError::Other(inner, _) => inner.message@,
    }
}

impl<M> SendError<M> {
    /// Returns the text of the error, as its `Display` shows it.
    pub fn to_string(&self) -> (r: String)
        ensures
            r@ == send_error_text(*self),
    {
        match self {
            SendError::Closed(_) => {
                let s = "sending on a closed channel";
                proof { reveal_strlit("sending on a closed channel"); }
                String::from_str(s)
            },
            SendError::Full(_) => {
                let s = "sending on a full channel";
                proof { reveal_strlit("sending on a full channel"); }
                String::from_str(s)
            },
            SendError::Timeout(_) => {
                let s = "timed out waiting on sending";
                proof { reveal_strlit("timed out waiting on sending"); }
                String::from_str(s)
            },
            SendError::Other(inner, _) => String::from_str(inner.message()),
        }
    }

    /// Returns the source of the error: for `Other`, the source of the wrapped error, which the
    /// error stands for transparently; nothing otherwise.
    pub fn source(&self) -> (r: Option<&BoxError>)
        ensures
            match *self {
                SendError::Other(inner, _) => match inner.source {
                    Some(b) => r == Some(&*b),
                    None => r is None,
                },
                _ => r is None,
            },
    {
        match self {
            SendError::Other(inner, _) => match &inner.source {
                Some(b) => Some(&**b),
                None => None,
            },
            _ => None,
        }
    }
}

/// The same kind of error as `e`, giving `msg` back.
pub open spec fn with_msg_spec<M>(e: SendError<()>, msg: M) -> SendError<M> {
    match e {
        SendError::Closed(()) => SendError::Closed(msg),
        SendError::Full(()) => SendError::Full(msg),
        SendError::Timeout(()) => SendError::Timeout(msg),
        SendError::Other(inner, ()) => SendError::Other(inner, msg),
    }
}

impl SendError<()> {
    /// Attaches `msg` to an error that was raised before the message was handed over: the same
    /// kind of error, now giving the message back.
    pub fn with_msg<M>(self, msg: M) -> (r: SendError<M>)
        ensures
            r == with_msg_spec(self, msg),
    {
        match self {
            SendError::Closed(()) => SendError::Closed(msg),
            SendError::Full(()) => SendError::Full(msg),
            SendError::Timeout(()) => SendError::Timeout(msg),
            SendError::Other(inner, ()) => SendError::Other(inner, msg),
        }
    }
}

impl<M> From<MpscSendError<M>> for SendError<M> {
    fn from(e: MpscSendError<M>) -> (r: Self) {
        SendError::Closed(e.0)
    }
}

impl<M> vstd::std_specs::convert::FromSpecImpl<MpscSendError<M>> for SendError<M> {
    open spec fn obeys_from_spec() -> bool {
        true
    }

    open spec fn from_spec(e: MpscSendError<M>) -> Self {
        SendError::Closed(e.0)
    }
}

/// This crate's error for tokio's refusal of an immediate send: the same kind of error, giving the
/// value back.
pub open spec fn try_send_error<M>(e: MpscTrySendError<M>) -> SendError<M> {
    match e {
        MpscTrySendError::Full(m) => SendError::Full(m),
        MpscTrySendError::Closed(m) => SendError::Closed(m),
    }
}

impl<M> From<MpscTrySendError<M>> for SendError<M> {
    fn from(e: MpscTrySendError<M>) -> (r: Self) {
        match e {
            MpscTrySendError::Full(m) => SendError::Full(m),
            MpscTrySendError::Closed(m) => SendError::Closed(m),
        }
    }
}

impl<M> vstd::std_specs::convert::FromSpecImpl<MpscTrySendError<M>> for SendError<M> {
    open spec fn obeys_from_spec() -> bool {
        true
    }

    open spec fn from_spec(e: MpscTrySendError<M>) -> Self {
        try_send_error(e)
    }
}

impl<M> From<MpscSendTimeoutError<M>> for SendError<M> {
    fn from(e: MpscSendTimeoutError<M>) -> (r: Self) {
        match e {
            MpscSendTimeoutError::Timeout(m) => SendError::Timeout(m),
            MpscSendTimeoutError::Closed(m) => SendError::Closed(m),
        }
    }
}

impl<M> vstd::std_specs::convert::FromSpecImpl<MpscSendTimeoutError<M>> for SendError<M> {
    open spec fn obeys_from_spec() -> bool {
        true
    }

    open spec fn from_spec(e: MpscSendTimeoutError<M>) -> Self {
        match e {
            MpscSendTimeoutError::Timeout(m) => SendError::Timeout(m),
            MpscSendTimeoutError::Closed(m) => SendError::Closed(m),
        }
    }
}

/// Error returned when receiving a message.
#[derive(Debug)]
pub enum RecvError {
    Closed,
    Empty,
    Timeout,
    Other(BoxError),
}

/// The text of a receive error, as its `Display` shows it.
pub open spec fn recv_error_text(e: RecvError) -> Seq<char> {
    match e {
        RecvError::Closed => "receiving on a closed channel"@,
        RecvError::Empty => "receiving on an empty channel"@,
        RecvError::Timeout => "timed out waiting on receiving"@,
        RecvError::Other(inner) => inner.message@,
    }
}

impl RecvError {
    /// Returns the text of the error, as its `Display` shows it.
    pub fn to_string(&self) -> (r: String)
        ensures
            r@ == recv_error_text(*self),
    {
        match self {
            RecvError::Closed => {
                let s = "receiving on a closed channel";
                proof { reveal_strlit("receiving on a closed channel"); }
                String::from_str(s)
            },
            RecvError::Empty => {
                let s = "receiving on an empty channel";
                proof { reveal_strlit("receiving on an empty channel"); }
                String::from_str(s)
            },
            RecvError::Timeout => {
                let s = "timed out waiting on receiving";
                proof { reveal_strlit("timed out waiting on receiving"); }
                String::from_str(s)
            },
            RecvError::Other(inner) => String::from_str(inner.message()),
        }
    }

    /// Returns the source of the error: for `Other`, the source of the wrapped error, which the
    /// error stands for transparently; nothing otherwise.
    pub fn source(&self) -> (r: Option<&BoxError>)
        ensures
            match *self {
                RecvError::Other(inner) => match inner.source {
                    Some(b) => r == Some(&*b),
                    None => r is None,
                },
                _ => r is None,
            },
    {
        match self {
            RecvError::Other(inner) => match &inner.source {
                Some(b) => Some(&**b),
                None => None,
            },
            _ => None,
        }
    }
}

impl From<MpscTryRecvError> for RecvError {
    fn from(e: MpscTryRecvError) -> (r: Self) {
        match e {
            MpscTryRecvError::Empty => RecvError::Empty,
            MpscTryRecvError::Disconnected => RecvError::Closed,
        }
    }
}

impl vstd::std_specs::convert::FromSpecImpl<MpscTryRecvError> for RecvError {
    open spec fn obeys_from_spec() -> bool {
        true
    }

    open spec fn from_spec(e: MpscTryRecvError) -> Self {
        match e {
            MpscTryRecvError::Empty => RecvError::Empty,
            MpscTryRecvError::Disconnected => RecvError::Closed,
        }
    }
}

impl From<OneshotRecvError> for RecvError {
    fn from(e: OneshotRecvError) -> (r: Self) {
        RecvError::Closed
    }
}

impl vstd::std_specs::convert::FromSpecImpl<OneshotRecvError> for RecvError {
    open spec fn obeys_from_spec() -> bool {
        true
    }

    open spec fn from_spec(e: OneshotRecvError) -> Self {
        RecvError::Closed
    }
}

impl From<OneshotTryRecvError> for RecvError {
    fn from(e: OneshotTryRecvError) -> (r: Self) {
        match e {
            OneshotTryRecvError::Empty => RecvError::Empty,
            OneshotTryRecvError::Closed => RecvError::Closed,
        }
    }
}

impl vstd::std_specs::convert::FromSpecImpl<OneshotTryRecvError> for RecvError {
    open spec fn obeys_from_spec() -> bool {
        true
    }

    open spec fn from_spec(e: OneshotTryRecvError) -> Self {
        match e {
            OneshotTryRecvError::Empty => RecvError::Empty,
            OneshotTryRecvError::Closed => RecvError::Closed,
        }
    }
}

} // verus!
