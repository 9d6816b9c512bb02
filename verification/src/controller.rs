//! Server controller: lifecycle of the single allowed server instance.
//!
//! The controller owns the publish handle of the current fan-out channel and
//! the stop signal of the current listener. `start` refuses to run two
//! servers at once, `stop` clears the state and may be repeated freely, and
//! `broadcast` hands a payload to the current channel or silently discards
//! it when no server runs. The caller serializes access (the operations take
//! `&mut self`); the critical sections are flag and handle swaps only.

use vstd::prelude::*;

use crate::channel::ChannelModel;
use crate::channel::publish;
use crate::tokio_sync::backlog_capacity;
use crate::tokio_sync::clone_sender;
use crate::tokio_sync::fire_stop;
use crate::tokio_sync::make_channel;
use crate::tokio_sync::make_stop_signal;
use crate::tokio_sync::send_payload;
use crate::tokio_sync::sent_log;

verus! {

/// Backlog bound requested for every fan-out channel a `start` creates.
pub const BACKLOG_CAPACITY: usize = 100;

/// The one failure `start` reports to its caller.
#[derive(Clone, Copy, Debug, PartialEq, Eq, Structural)]
pub enum ServerError {
    /// A server instance is already running; at most one is allowed.
    AlreadyRunning,
}

/// What a successful `start` hands back: the confirmation for the caller
/// (the requested port) together with everything the listener loop needs — a
/// publish handle to subscribe new clients to, and the stop signal to race
/// against `accept`. `start` returns before any bind is attempted, so
/// holding this value is no promise that the port could be bound.
pub struct ListenerTask {
    /// The port the listener is asked to bind.
    pub port: u16,
    /// Second publish handle onto the fresh channel; each accepted client is
    /// subscribed through it.
    pub sender: tokio::sync::broadcast::Sender<Vec<u8>>,
    /// Resolves once `stop` fires the signal.
    pub stop_rx: tokio::sync::oneshot::Receiver<()>,
}

/// The controller's state as the contracts speak of it.
#[verifier::ext_equal]
pub struct ControllerView {
    /// Whether a server instance is currently running.
    pub running: bool,
    /// The port the running instance was started with; 0 when stopped.
    pub port: u16,
    /// The current fan-out channel; a closed, empty one when stopped.
    pub channel: ChannelModel,
}

/// The channel the view shows while no server runs.
pub open spec fn no_channel() -> ChannelModel {
    ChannelModel { log: Seq::empty(), capacity: 0, closed: true }
}

/// The view of a controller with no server running.
pub open spec fn idle_view() -> ControllerView {
    ControllerView { running: false, port: 0, channel: no_channel() }
}

/// The view `stop` leaves when it finds the controller in view `v`: the
/// idle one, whatever `v` was — which is why repeating `stop` changes
/// nothing (`lemma_stop_idempotent`).
pub open spec fn stop_transition(v: ControllerView) -> ControllerView {
    idle_view()
}

/// What start's ensures say of the state a successful `start(port)` leaves:
/// running on that port, with a fresh, open channel whose backlog holds at
/// least `BACKLOG_CAPACITY` entries.
pub open spec fn started(v: ControllerView, port: u16) -> bool {
    &&& v.running
    &&& v.port == port
    &&& v.channel.log == Seq::<Seq<u8>>::empty()
    &&& !v.channel.closed
    &&& v.channel.capacity >= BACKLOG_CAPACITY
}

/// Owns the publish handle and the stop signal of the current instance.
pub struct Controller {
    publisher: Option<tokio::sync::broadcast::Sender<Vec<u8>>>,
    stop_tx: Option<tokio::sync::oneshot::Sender<()>>,
    port: u16,
}

impl View for Controller {
    type V = ControllerView;

    closed spec fn view(&self) -> ControllerView {
        ControllerView {
            running: self.publisher is Some,
            port: self.port,
            channel: match self.publisher {
                Option::Some(tx) => ChannelModel {
                    log: sent_log(tx),
                    capacity: backlog_capacity(tx),
                    closed: false,
                },
                Option::None => no_channel(),
            },
        }
    }
}

impl Controller {
    /// The publish handle and the stop signal are set and cleared together,
    /// so no caller can observe one without the other; and a stopped
    /// controller carries no stale port.
    pub closed spec fn wf(self) -> bool {
        &&& (self.publisher is Some <==> self.stop_tx is Some)
        &&& (self.publisher is None ==> self.port == 0)
    }

    /// A controller with no server running.
    pub fn new() -> (c: Controller)
        ensures
            c.wf(),
            c@ == idle_view(),
    {
        let c = Controller { publisher: None, stop_tx: None, port: 0 };
        proof {
            assert(c@ =~= idle_view());
        }
        c
    }

    /// Start the single server instance on `port`.
    ///
    /// Fails with `AlreadyRunning`, changing nothing, if and only if an
    /// instance already runs — so a `start` right after a successful `start`
    /// always fails, whatever port either asked for. On success the
    /// controller runs a fresh, empty channel, and the returned task carries
    /// the same channel and the requested port to the listener loop.
    pub fn start(&mut self, port: u16) -> (r: Result<ListenerTask, ServerError>)
        requires
            old(self).wf(),
        ensures
            final(self).wf(),
            old(self)@.running ==> (r matches Err(e) && e == ServerError::AlreadyRunning
                && final(self)@ == old(self)@),
            !old(self)@.running ==> (r matches Ok(t) && started(final(self)@, port)
                && t.port == port
                && sent_log(t.sender) == final(self)@.channel.log
                && backlog_capacity(t.sender) == final(self)@.channel.capacity),
    {
        if self.publisher.is_some() {
            return Err(ServerError::AlreadyRunning);
        }
        let tx = make_channel(BACKLOG_CAPACITY);
        let listener_tx = clone_sender(&tx);
        let (stop_tx, stop_rx) = make_stop_signal();
        self.publisher = Some(tx);
        self.stop_tx = Some(stop_tx);
        self.port = port;
        Ok(ListenerTask { port, sender: listener_tx, stop_rx })
    }

    /// Stop the server if one runs; doing nothing is not an error.
    ///
    /// Drops the publish handle — the channel behind it closes once the
    /// listener's own handle is gone too, which is how every client session
    /// learns of the shutdown — and fires the stop signal so the listener
    /// loop exits at its next suspension point. Returns at once; it does not
    /// wait for the listener or the sessions to terminate. The state left
    /// behind is the same whatever came before, so a second `stop` is
    /// harmless.
    pub fn stop(&mut self)
        requires
            old(self).wf(),
        ensures
            final(self).wf(),
            final(self)@ == stop_transition(old(self)@),
    {
        self.publisher = None;
        self.port = 0;
        let signal = self.stop_tx.take();
        match signal {
            Some(s) => fire_stop(s),
            None => (),
        }
        proof {
            assert(self@ =~= idle_view());
        }
    }

    /// Publish `payload` to every currently connected client.
    ///
    /// Never an error: before any `start` (or after `stop`) the payload is
    /// silently discarded and the controller is left exactly as it was.
    /// While running, the payload is appended to the current channel's log —
    /// unless not a single subscriber exists, in which case the channel
    /// discards it, which no present or future subscriber can observe. The
    /// call never waits for slow subscribers: they are evicted, not waited
    /// for (`channel::lemma_slow_subscriber_evicted`).
    pub fn broadcast(&mut self, payload: Vec<u8>)
        requires
            old(self).wf(),
        ensures
            final(self).wf(),
            final(self)@.running == old(self)@.running,
            final(self)@.port == old(self)@.port,
            !old(self)@.running ==> final(self)@ == old(self)@,
            old(self)@.running ==> final(self)@.channel == publish(
                old(self)@.channel,
                payload@,
            ) || final(self)@.channel == old(self)@.channel,
    {
        let tx_opt = self.publisher.take();
        match tx_opt {
            Some(mut tx) => {
                let _ = send_payload(&mut tx, payload);
                self.publisher = Some(tx);
                proof {
                    assert(self@.channel == publish(old(self)@.channel, payload@) || self@.channel
                        =~= old(self)@.channel);
                }
            },
            None => {
                self.publisher = None;
                proof {
                    assert(self@ =~= old(self)@);
                }
            },
        }
    }

    /// Whether a server instance currently runs.
    pub fn is_running(&self) -> (r: bool)
        ensures
            r == self@.running,
    {
        self.publisher.is_some()
    }
}

/// A successful `start` excludes a second one: any state `start` can leave
/// on success is running, and `start` on a running controller is rejected
/// with `AlreadyRunning` by its contract, whatever port the second call
/// asks for.
pub proof fn lemma_start_excludes_second_start(v: ControllerView, port: u16)
    requires
        started(v, port),
    ensures
        v.running,
{
}

/// Stopping is idempotent: the state `stop` leaves does not depend on the
/// state it found, so two stops in a row end exactly where one does, and
/// neither can fail (`stop` returns nothing and its contract admits every
/// well-formed controller).
pub proof fn lemma_stop_idempotent(v: ControllerView)
    ensures
        stop_transition(stop_transition(v)) == stop_transition(v),
{
}

} // verus!
