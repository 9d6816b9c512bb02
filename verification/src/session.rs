//! Per-client session handler: the decisions of the relay loop.
//!
//! One session per accepted connection drains its subscription and writes
//! each payload to its socket, in publish order, one write in flight at a
//! time. The waiting (for the next payload, for the write) suspends in the
//! unverified runtime; every decision between those suspension points is
//! `session_step`, verified here against the channel model's outcomes.

use vstd::prelude::*;

use crate::channel::ChannelModel;
use crate::channel::poll;

verus! {

/// What the runtime observed at the session's last suspension point.
#[derive(Debug, PartialEq, Eq)]
pub enum SessionEvent {
    /// The subscription handed over the next payload, in publish order.
    Received(Vec<u8>),
    /// The channel has no publisher any more: the server stopped.
    ChannelClosed,
    /// The session fell more than the backlog capacity behind.
    LagOverrun,
    /// The pending socket write completed in full.
    WriteFinished,
    /// The pending socket write failed (peer gone, I/O error).
    WriteFailed,
}

/// What the session does next.
#[derive(Debug, PartialEq, Eq)]
pub enum SessionCommand {
    /// Write this whole payload to the socket before anything else.
    Write(Vec<u8>),
    /// Wait for the next payload from the subscription.
    AwaitNext,
    /// Terminate the session and drop the socket.
    Shutdown,
}

/// The session policy: relay every payload, terminate on closure, on lag
/// and on the first write failure — no retry, no resynchronization.
pub open spec fn session_decision(event: SessionEvent) -> SessionCommand {
    match event {
        SessionEvent::Received(payload) => SessionCommand::Write(payload),
        SessionEvent::ChannelClosed => SessionCommand::Shutdown,
        SessionEvent::LagOverrun => SessionCommand::Shutdown,
        SessionEvent::WriteFinished => SessionCommand::AwaitNext,
        SessionEvent::WriteFailed => SessionCommand::Shutdown,
    }
}

/// One decision of the session loop.
pub fn session_step(event: SessionEvent) -> (cmd: SessionCommand)
    ensures
        cmd == session_decision(event),
{
    match event {
        SessionEvent::Received(payload) => SessionCommand::Write(payload),
        SessionEvent::ChannelClosed => SessionCommand::Shutdown,
        SessionEvent::LagOverrun => SessionCommand::Shutdown,
        SessionEvent::WriteFinished => SessionCommand::AwaitNext,
        SessionEvent::WriteFailed => SessionCommand::Shutdown,
    }
}

/// A session on a closed channel never stalls and never outlives the
/// backlog: whatever its cursor, the next outcome either hands it a payload
/// published before the close, or is one on which the session policy shuts
/// the session down — so every client connected before `stop` eventually
/// observes its connection being closed, after at most the drained backlog.
pub proof fn lemma_session_ends_after_stop(ch: ChannelModel, cursor: nat)
    requires
        ch.closed,
    ensures
        poll(ch, cursor) !is Pending,
        cursor >= ch.log.len() ==> poll(ch, cursor) is Closed
            && session_decision(SessionEvent::ChannelClosed) == SessionCommand::Shutdown,
        poll(ch, cursor) is Lagged ==> session_decision(SessionEvent::LagOverrun)
            == SessionCommand::Shutdown,
{
}

} // verus!
