//! Trusted boundary to tokio's synchronization primitives.
//!
//! The controller keeps the real fan-out channel (`tokio::sync::broadcast`)
//! and the listener's stop signal (`tokio::sync::oneshot`) behind the small
//! set of declarations and wrappers in this module. The backlog a sender has
//! accumulated, and the bound it was created with, are named by the two
//! uninterpreted functions below; every contract about the live channel goes
//! through those names.

use vstd::prelude::*;

verus! {

#[verifier::external_type_specification]
#[verifier::external_body]
#[verifier::reject_recursive_types(T)]
pub struct ExBroadcastSender<T>(tokio::sync::broadcast::Sender<T>);

#[verifier::external_type_specification]
#[verifier::external_body]
#[verifier::reject_recursive_types(T)]
pub struct ExOneshotSender<T>(tokio::sync::oneshot::Sender<T>);

#[verifier::external_type_specification]
#[verifier::external_body]
#[verifier::reject_recursive_types(T)]
pub struct ExOneshotReceiver<T>(tokio::sync::oneshot::Receiver<T>);

#[verifier::external_type_specification]
#[verifier::external_body]
pub struct ExOneshotRecvError(tokio::sync::oneshot::error::RecvError);

/// The payloads this publish handle has appended to its channel's backlog,
/// in publish order.
pub uninterp spec fn sent_log(tx: tokio::sync::broadcast::Sender<Vec<u8>>) -> Seq<Seq<u8>>;

/// The backlog bound the channel behind this publish handle was created
/// with (how far a subscriber may trail before it is evicted).
pub uninterp spec fn backlog_capacity(tx: tokio::sync::broadcast::Sender<Vec<u8>>) -> nat;

/// Relies on `tokio::sync::broadcast::channel`: creates a channel that has
/// had nothing published yet, with a backlog of at least `capacity` entries
/// (tokio rounds the bound up to a power of two). The call panics on a
/// capacity of zero or above `usize::MAX / 2`, so those are excluded here.
/// The initial subscription is dropped: a receiver observes only payloads
/// published after its own subscription.
#[verifier::external_body]
pub(crate) fn make_channel(capacity: usize) -> (tx: tokio::sync::broadcast::Sender<Vec<u8>>)
    requires
        1 <= capacity <= usize::MAX / 2,
    ensures
        sent_log(tx) == Seq::<Seq<u8>>::empty(),
        backlog_capacity(tx) >= capacity,
{
    let (tx, _) = tokio::sync::broadcast::channel(capacity);
    tx
}

/// Relies on `tokio::sync::broadcast::Sender::clone`: the clone is a second
/// publish handle onto the same channel.
#[verifier::external_body]
pub(crate) fn clone_sender(tx: &tokio::sync::broadcast::Sender<Vec<u8>>) -> (r:
    tokio::sync::broadcast::Sender<Vec<u8>>)
    ensures
        sent_log(r) == sent_log(*tx),
        backlog_capacity(r) == backlog_capacity(*tx),
{
    tx.clone()
}

/// Relies on `tokio::sync::broadcast::Sender::send`: with at least one live
/// subscriber the payload is appended to the backlog (evicting none but the
/// laggards' view of it, never blocking); with no subscriber at all tokio
/// returns an error and drops the payload, which the fan-out semantics
/// cannot observe, since a subscriber joining later never sees earlier
/// payloads anyway. Whether a subscriber existed depends on the other side
/// of the channel, so the contract only ties each case to the result.
#[verifier::external_body]
pub(crate) fn send_payload(
    tx: &mut tokio::sync::broadcast::Sender<Vec<u8>>,
    payload: Vec<u8>,
) -> (accepted: bool)
    ensures
        accepted ==> sent_log(*final(tx)) == sent_log(*old(tx)).push(payload@),
        !accepted ==> sent_log(*final(tx)) == sent_log(*old(tx)),
        backlog_capacity(*final(tx)) == backlog_capacity(*old(tx)),
{
    tx.send(payload).is_ok()
}

/// Relies on `tokio::sync::oneshot::channel`: a fresh single-use stop
/// signal; firing the sender resolves the receiver.
#[verifier::external_body]
pub(crate) fn make_stop_signal() -> (pair: (
    tokio::sync::oneshot::Sender<()>,
    tokio::sync::oneshot::Receiver<()>,
))
{
    tokio::sync::oneshot::channel()
}

/// Relies on `tokio::sync::oneshot::Sender::send`: consumes the sender and
/// fires the signal; whether anyone still listens is the receiver's side,
/// so nothing is promised of the outcome.
#[verifier::external_body]
pub(crate) fn fire_stop(signal: tokio::sync::oneshot::Sender<()>) {
    let _ = signal.send(());
}

} // verus!
