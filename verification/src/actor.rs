//! Lifecycle states of an actor.

use vstd::prelude::*;
use vstd::string::*;

verus! {

/// State of an actor.
#[derive(Debug, Clone, Copy, PartialEq, Eq, Structural)]
pub enum ActorState {
    Unstarted,
    Starting,
    Running,
    Stopping,
    Stopped,
}

/// Return value of `Actor::stopping`.
#[derive(Debug, Clone, Copy, PartialEq, Eq, Structural)]
pub enum Stopping {
    /// The actor could not resume by itself. Stop the actor.
    Stop,
    /// The actor could resume by itself.
    Continue,
}

/// The byte an actor state is stored as: its position in the lifecycle order.
pub open spec fn state_code(state: ActorState) -> u8 {
    match state {
        ActorState::Unstarted => 0,
        ActorState::Starting => 1,
        ActorState::Running => 2,
        ActorState::Stopping => 3,
        ActorState::Stopped => 4,
    }
}

/// The state stored as `value`, if `value` is the code of a state.
pub open spec fn state_of_code(value: u8) -> Option<ActorState> {
    if value == 0 {
        Some(ActorState::Unstarted)
    } else if value == 1 {
        Some(ActorState::Starting)
    } else if value == 2 {
        Some(ActorState::Running)
    } else if value == 3 {
        Some(ActorState::Stopping)
    } else if value == 4 {
        Some(ActorState::Stopped)
    } else {
        None
    }
}

impl ActorState {
    /// Returns the byte this state is stored as.
    pub fn code(self) -> (r: u8)
        ensures
            r == state_code(self),
    {
        match self {
            ActorState::Unstarted => 0,
            ActorState::Starting => 1,
            ActorState::Running => 2,
            ActorState::Stopping => 3,
            ActorState::Stopped => 4,
        }
    }
}

impl core::convert::TryFrom<u8> for ActorState {
    type Error = ();

    fn try_from(value: u8) -> (r: Result<Self, Self::Error>) {
        match value {
            0 => Ok(ActorState::Unstarted),
            1 => Ok(ActorState::Starting),
            2 => Ok(ActorState::Running),
            3 => Ok(ActorState::Stopping),
            4 => Ok(ActorState::Stopped),
            _ => Err(()),
        }
    }
}

impl vstd::std_specs::convert::TryFromSpecImpl<u8> for ActorState {
    open spec fn obeys_try_from_spec() -> bool {
        true
    }

    open spec fn try_from_spec(value: u8) -> Result<Self, Self::Error> {
        match state_of_code(value) {
            Some(s) => Ok(s),
            None => Err(()),
        }
    }
}

/// Decoding the code of a state gives the state back.
pub proof fn lemma_state_code_roundtrip(state: ActorState)
    ensures
        state_of_code(state_code(state)) == Some(state),
{
}

/// A byte decodes to a state exactly when it is below five, and the decoded state is stored as
/// that byte again.
pub proof fn lemma_code_state_roundtrip(value: u8)
    ensures
        state_of_code(value) is Some <==> value < 5,
        state_of_code(value) matches Some(s) ==> state_code(s) == value,
{
}

/// The state an actor's run moves to once its `pre_start` hook has returned: `Starting` when the
/// hook succeeded; otherwise the hook's error, which the run hands back to its caller without
/// spawning the actor.
pub fn after_pre_start<E>(hook: Result<(), E>) -> (r: Result<ActorState, E>)
    ensures
        r == match hook {
            Ok(()) => Ok::<ActorState, E>(ActorState::Starting),
            Err(e) => Err(e),
        },
{
    match hook {
        Ok(()) => Ok(ActorState::Starting),
        Err(e) => Err(e),
    }
}

/// The error an actor's supervisor is told of when the actor's processing loop has ended: none
/// when the loop ended normally, the loop's error otherwise.
pub fn termination_error<E>(processing: Result<(), E>) -> (r: Option<E>)
    ensures
        r == match processing {
            Ok(()) => None::<E>,
            Err(e) => Some(e),
        },
{
    match processing {
        Ok(()) => None,
        Err(e) => Some(e),
    }
}

/// The text logged when an actor panics, for a panic payload that is a `String`, or else one that
/// is a `&str`, or else neither.
pub open spec fn panic_text(as_string: Option<Seq<char>>, as_str: Option<Seq<char>>) -> Seq<char> {
    match as_string {
        Some(s) => s,
        None => match as_str {
            Some(s) => s,
            None => "could not capture the panic message"@,
        },
    }
}

/// Returns the text logged when an actor panics: the panic payload when it is a `String`
/// (`as_string`) or a `&str` (`as_str`), and a fixed text when it is neither.
pub fn panic_message(as_string: Option<&String>, as_str: Option<&str>) -> (r: String)
    ensures
        r@ == panic_text(
            match as_string {
                Some(s) => Some(s@),
                None => None,
            },
            match as_str {
                Some(s) => Some(s@),
                None => None,
            },
        ),
{
    match as_string {
        Some(s) => String::from_str(s.as_str()),
        None => match as_str {
            Some(s) => String::from_str(s),
            None => {
                let text = "could not capture the panic message";
                proof {
                    reveal_strlit("could not capture the panic message");
                }
                String::from_str(text)
            },
        },
    }
}

/// What happens to an actor in its lifecycle.
#[derive(Debug, Clone, Copy, PartialEq, Eq, Structural)]
pub enum LifecycleEvent {
    /// The `pre_start` hook returned successfully.
    PreStarted,
    /// The `post_start` hook returned.
    PostStarted,
    /// The actor was asked to stop (`ActorContext::stop`).
    Stop,
    /// The actor was asked to terminate (`ActorContext::terminate`).
    Terminate,
    /// The `stopping` hook decided whether the actor stops or resumes.
    StoppingDecided(Stopping),
}

/// The state an actor is in after `event`: `Starting` once `pre_start` has returned, `Running`
/// once `post_start` has returned, `Stopping` when asked to stop, `Stopped` when asked to
/// terminate, and after the `stopping` hook `Stopped` when it decides to stop or `Running` when
/// the actor resumes.
pub open spec fn lifecycle_next(event: LifecycleEvent) -> ActorState {
    match event {
        LifecycleEvent::PreStarted => ActorState::Starting,
        LifecycleEvent::PostStarted => ActorState::Running,
        LifecycleEvent::Stop => ActorState::Stopping,
        LifecycleEvent::Terminate => ActorState::Stopped,
        LifecycleEvent::StoppingDecided(Stopping::Stop) => ActorState::Stopped,
        LifecycleEvent::StoppingDecided(Stopping::Continue) => ActorState::Running,
    }
}

/// Returns the state an actor is in after `event`.
pub fn next_state(event: LifecycleEvent) -> (r: ActorState)
    ensures
        r == lifecycle_next(event),
{
    match event {
        LifecycleEvent::PreStarted => ActorState::Starting,
        LifecycleEvent::PostStarted => ActorState::Running,
        LifecycleEvent::Stop => ActorState::Stopping,
        LifecycleEvent::Terminate => ActorState::Stopped,
        LifecycleEvent::StoppingDecided(Stopping::Stop) => ActorState::Stopped,
        LifecycleEvent::StoppingDecided(Stopping::Continue) => ActorState::Running,
    }
}

/// The lifecycle only moves forward, but for an actor that resumes: a successful start moves
/// an actor up the lifecycle order, and the only event after which an actor is back in an
/// earlier state than `Stopping` is a `stopping` hook that lets it resume.
pub proof fn lemma_lifecycle_order(event: LifecycleEvent)
    ensures
        event == LifecycleEvent::PreStarted ==> state_code(lifecycle_next(event)) == state_code(
            ActorState::Unstarted,
        ) + 1,
        event == LifecycleEvent::PostStarted ==> state_code(lifecycle_next(event)) == state_code(
            ActorState::Starting,
        ) + 1,
        event == LifecycleEvent::StoppingDecided(Stopping::Stop) ==> state_code(
            lifecycle_next(event),
        ) == state_code(ActorState::Stopping) + 1,
        state_code(lifecycle_next(event)) < state_code(ActorState::Stopping) ==> (event
            == LifecycleEvent::PreStarted || event == LifecycleEvent::PostStarted || event
            == LifecycleEvent::StoppingDecided(Stopping::Continue)),
{
}

/// The execution context of an actor, which keeps its lifecycle state. Users implement it for
/// their contexts; stopping and terminating are provided, and set the state the lifecycle
/// event leads to.
pub trait ActorContext: Sized {
    /// Returns the state of the actor.
    fn state(&self) -> ActorState;

    /// Sets the state of the actor.
    fn set_state(&mut self, state: ActorState);

    /// Stops the actor: it moves to the `Stopping` state, through `set_state`.
    fn stop(&mut self)
        ensures
            exists|ctx: &mut Self|
                call_ensures(Self::set_state, (ctx, lifecycle_next(LifecycleEvent::Stop)), ())
                    && *ctx == *old(self) && *final(ctx) == *final(self),
    {
        self.set_state(ActorState::Stopping)
    }

    /// Terminates the actor: it moves to the `Stopped` state, through `set_state`.
    fn terminate(&mut self)
        ensures
            exists|ctx: &mut Self|
                call_ensures(Self::set_state, (ctx, lifecycle_next(LifecycleEvent::Terminate)), ())
                    && *ctx == *old(self) && *final(ctx) == *final(self),
    {
        self.set_state(ActorState::Stopped)
    }
}

} // verus!
