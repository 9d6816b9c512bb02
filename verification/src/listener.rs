//! Listener loop: the state machine that accepts clients until stopped.
//!
//! The loop binds the requested port once (no retry), then races two events
//! on every iteration — an inbound connection against the stop signal — so
//! that a continuous stream of connection attempts can never starve the
//! stop check. The racing itself suspends in the unverified runtime; each
//! decision between suspension points is `listener_step`, verified here.

use vstd::prelude::*;

verus! {

/// Where the listener loop stands.
#[derive(Clone, Copy, Debug, PartialEq, Eq, Structural)]
pub enum ListenerPhase {
    /// Attempting the single bind of the requested port.
    Binding,
    /// Bound; racing inbound connections against the stop signal.
    Listening,
    /// Done: the loop exits and never runs again.
    Terminated,
}

/// What the runtime observed at the listener's last suspension point.
#[derive(Clone, Copy, Debug, PartialEq, Eq, Structural)]
pub enum ListenerEvent {
    /// The port was bound.
    BindSucceeded,
    /// The port could not be bound; reported to the log only, never to the
    /// caller of `start`.
    BindFailed,
    /// An inbound connection was accepted.
    ConnectionAccepted,
    /// An `accept` failed; per-connection errors are non-fatal.
    AcceptFailed,
    /// The stop signal fired.
    StopRequested,
}

/// What the listener loop does next.
#[derive(Clone, Copy, Debug, PartialEq, Eq, Structural)]
pub enum ListenerCommand {
    /// Race the next inbound connection against the stop signal.
    AwaitEvent,
    /// Subscribe the accepted socket to the channel and spawn its session,
    /// then race again.
    SpawnSession,
    /// Exit the loop.
    Exit,
}

/// The listener policy: bind failure and the stop signal terminate the
/// loop; an accepted connection spawns a session; accept errors are logged
/// and the loop goes on; a terminated loop stays terminated. The connection
/// events cannot arise before the bind completes, and the bind events not
/// after; on those the machine stays where it is.
pub open spec fn listener_transition(phase: ListenerPhase, event: ListenerEvent) -> (
    ListenerPhase,
    ListenerCommand,
) {
    match (phase, event) {
        (ListenerPhase::Binding, ListenerEvent::BindSucceeded) => (
            ListenerPhase::Listening,
            ListenerCommand::AwaitEvent,
        ),
        (ListenerPhase::Binding, ListenerEvent::BindFailed) => (
            ListenerPhase::Terminated,
            ListenerCommand::Exit,
        ),
        (ListenerPhase::Binding, ListenerEvent::StopRequested) => (
            ListenerPhase::Terminated,
            ListenerCommand::Exit,
        ),
        (ListenerPhase::Binding, _) => (ListenerPhase::Binding, ListenerCommand::AwaitEvent),
        (ListenerPhase::Listening, ListenerEvent::ConnectionAccepted) => (
            ListenerPhase::Listening,
            ListenerCommand::SpawnSession,
        ),
        (ListenerPhase::Listening, ListenerEvent::AcceptFailed) => (
            ListenerPhase::Listening,
            ListenerCommand::AwaitEvent,
        ),
        (ListenerPhase::Listening, ListenerEvent::StopRequested) => (
            ListenerPhase::Terminated,
            ListenerCommand::Exit,
        ),
        (ListenerPhase::Listening, _) => (ListenerPhase::Listening, ListenerCommand::AwaitEvent),
        (ListenerPhase::Terminated, _) => (ListenerPhase::Terminated, ListenerCommand::Exit),
    }
}

/// One decision of the listener loop.
pub fn listener_step(phase: ListenerPhase, event: ListenerEvent) -> (r: (
    ListenerPhase,
    ListenerCommand,
))
    ensures
        r == listener_transition(phase, event),
{
    match (phase, event) {
        (ListenerPhase::Binding, ListenerEvent::BindSucceeded) => (
            ListenerPhase::Listening,
            ListenerCommand::AwaitEvent,
        ),
        (ListenerPhase::Binding, ListenerEvent::BindFailed) => (
            ListenerPhase::Terminated,
            ListenerCommand::Exit,
        ),
        (ListenerPhase::Binding, ListenerEvent::StopRequested) => (
            ListenerPhase::Terminated,
            ListenerCommand::Exit,
        ),
        (ListenerPhase::Binding, _) => (ListenerPhase::Binding, ListenerCommand::AwaitEvent),
        (ListenerPhase::Listening, ListenerEvent::ConnectionAccepted) => (
            ListenerPhase::Listening,
            ListenerCommand::SpawnSession,
        ),
        (ListenerPhase::Listening, ListenerEvent::AcceptFailed) => (
            ListenerPhase::Listening,
            ListenerCommand::AwaitEvent,
        ),
        (ListenerPhase::Listening, ListenerEvent::StopRequested) => (
            ListenerPhase::Terminated,
            ListenerCommand::Exit,
        ),
        (ListenerPhase::Listening, _) => (ListenerPhase::Listening, ListenerCommand::AwaitEvent),
        (ListenerPhase::Terminated, _) => (ListenerPhase::Terminated, ListenerCommand::Exit),
    }
}

/// The stop signal always wins its race: whatever phase it arrives in, the
/// loop terminates and exits.
pub proof fn lemma_stop_terminates_listener(phase: ListenerPhase)
    ensures
        listener_transition(phase, ListenerEvent::StopRequested).0 == ListenerPhase::Terminated,
{
}

/// Accept errors are non-fatal: the loop keeps listening and spawns no
/// session for them.
pub proof fn lemma_accept_error_nonfatal()
    ensures
        listener_transition(ListenerPhase::Listening, ListenerEvent::AcceptFailed) == (
            ListenerPhase::Listening,
            ListenerCommand::AwaitEvent,
        ),
{
}

/// Termination is final: no event revives a terminated listener.
pub proof fn lemma_terminated_is_absorbing(event: ListenerEvent)
    ensures
        listener_transition(ListenerPhase::Terminated, event).0 == ListenerPhase::Terminated,
        listener_transition(ListenerPhase::Terminated, event).1 == ListenerCommand::Exit,
{
}

} // verus!
