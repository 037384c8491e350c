//! Supervision events, and what an actor does with one when it notifies its supervisor without
//! waiting.

use vstd::prelude::*;

use crate::address::Sender;
use crate::errors::{report_text, BoxError};
use crate::index::{ActorId, SenderId};
use crate::message::Message;

verus! {

/// An event an actor reports to its supervisor, about the actor at address `A`, with errors of
/// type `X`.
pub enum SupervisionEvent<A, X> {
    /// The actor met an error and goes on.
    Warn(A, X),
    /// The actor stopped, with the error it stopped on, if any.
    Terminated(A, Option<X>),
}

impl<A, X> Message for SupervisionEvent<A, X> {
    type Result = ();
}

/// How loud a log line is.
#[derive(Debug, Clone, Copy, PartialEq, Eq, Structural)]
pub enum LogLevel {
    Warn,
    Error,
}

/// A line to log about an actor: its level, the actor, and the report of the error.
pub struct LogLine {
    pub level: LogLevel,
    pub actor: ActorId,
    pub report: String,
}

/// `line` is the line logged for an error `e` of the actor at `address`, at `level`: the actor's
/// index as the address gives it and the report of the error once it is boxed.
pub open spec fn logged<A: SenderId, X: Into<BoxError>>(
    line: LogLine,
    level: LogLevel,
    address: A,
    e: X,
) -> bool {
    &&& line.level == level
    &&& call_ensures(A::index, (&address,), line.actor)
    &&& exists|boxed: BoxError|
        call_ensures(<X as Into<BoxError>>::into, (e,), boxed) && line.report@ == report_text(
            boxed,
        )
}

/// Notifies the supervisor of an event without waiting: with a supervisor, the event goes to
/// its `try_do_send` and is dropped if refused; without one, a warning is logged for `Warn`, an
/// error for `Terminated` with an error, and nothing otherwise. Returns the line to log.
pub fn try_notify_supervisor<A: SenderId, X: Into<BoxError>, S: Sender<SupervisionEvent<A, X>>>(
    supervisor: Option<&S>,
    event: SupervisionEvent<A, X>,
) -> (r: Option<LogLine>)
    ensures
        match supervisor {
            Some(s) => r is None && exists|answer: Result<
                (),
                crate::errors::SendError<SupervisionEvent<A, X>>,
            >| call_ensures(S::try_do_send, (s, event), answer),
            None => match event {
                SupervisionEvent::Warn(address, e) => r matches Some(line) && logged(
                    line,
                    LogLevel::Warn,
                    address,
                    e,
                ),
                SupervisionEvent::Terminated(address, Some(e)) => r matches Some(line) && logged(
                    line,
                    LogLevel::Error,
                    address,
                    e,
                ),
                SupervisionEvent::Terminated(_, None) => r is None,
            },
        },
{
    match supervisor {
        Some(s) => {
            let ghost sent = event;
            let answer = s.try_do_send(event);
            assert(call_ensures(S::try_do_send, (s, sent), answer));
            None
        },
        None => match event {
            SupervisionEvent::Warn(address, e) => {
                let actor = address.index();
                let ghost err = e;
                let boxed: BoxError = e.into();
                let line = LogLine { level: LogLevel::Warn, actor, report: boxed.report() };
                assert(call_ensures(<X as Into<BoxError>>::into, (err,), boxed));
                Some(line)
            },
            SupervisionEvent::Terminated(address, Some(e)) => {
                let actor = address.index();
                let ghost err = e;
                let boxed: BoxError = e.into();
                let line = LogLine { level: LogLevel::Error, actor, report: boxed.report() };
                assert(call_ensures(<X as Into<BoxError>>::into, (err,), boxed));
                Some(line)
            },
            SupervisionEvent::Terminated(_, None) => None,
        },
    }
}

} // verus!
