//! Mathematical model of the fan-out channel.
//!
//! The channel keeps a log of every payload published to the current server
//! instance, bounded by a backlog capacity: a subscriber is an independent
//! cursor into that log, and a subscriber that trails the newest entry by
//! more than the capacity is evicted instead of slowing the publisher down.

use vstd::prelude::*;

verus! {

/// One instance of the fan-out channel, as seen by its subscribers.
///
/// A fresh instance is created by every successful `start`; dropping the
/// publish handle on `stop` closes it. Subscribers are not part of the
/// channel value: each one is just a cursor into `log`, so publishing can
/// never depend on (or be blocked by) any subscriber.
#[verifier::ext_equal]
pub struct ChannelModel {
    /// Every payload published to this instance, in publish order.
    pub log: Seq<Seq<u8>>,
    /// How far a subscriber may trail the newest entry before it is evicted.
    pub capacity: nat,
    /// True once the publish handle has been dropped.
    pub closed: bool,
}

/// What one subscriber observes when it next asks for a message.
pub enum PollOutcome {
    /// The next payload, in publish order.
    Delivered(Seq<u8>),
    /// Nothing published yet beyond this cursor; the subscriber waits.
    Pending,
    /// The channel has no publisher any more and the backlog is drained.
    Closed,
    /// The subscriber trailed by more than the capacity and is evicted.
    Lagged,
}

/// The channel a successful `start` creates: empty backlog, open.
pub open spec fn fresh_channel(capacity: nat) -> ChannelModel {
    ChannelModel { log: Seq::empty(), capacity, closed: false }
}

/// Publishing appends to the log and touches nothing else.
pub open spec fn publish(ch: ChannelModel, payload: Seq<u8>) -> ChannelModel {
    ChannelModel { log: ch.log.push(payload), ..ch }
}

/// Dropping the publish handle closes the channel; the log stops growing.
pub open spec fn close(ch: ChannelModel) -> ChannelModel {
    ChannelModel { closed: true, ..ch }
}

/// A subscriber that joins now sees only payloads published after this point.
pub open spec fn subscribe_cursor(ch: ChannelModel) -> nat {
    ch.log.len()
}

/// What a subscriber at `cursor` observes next.
pub open spec fn poll(ch: ChannelModel, cursor: nat) -> PollOutcome {
    if cursor + ch.capacity < ch.log.len() {
        PollOutcome::Lagged
    } else if cursor < ch.log.len() {
        PollOutcome::Delivered(ch.log[cursor as int])
    } else if ch.closed {
        PollOutcome::Closed
    } else {
        PollOutcome::Pending
    }
}

/// The payloads a subscriber at `cursor` obtains by polling `count` times,
/// stopping at the first outcome that is not a delivery.
pub open spec fn received(ch: ChannelModel, cursor: nat, count: nat) -> Seq<Seq<u8>>
    decreases count,
{
    if count == 0 {
        Seq::empty()
    } else {
        match poll(ch, cursor) {
            PollOutcome::Delivered(m) => seq![m] + received(ch, cursor + 1, (count - 1) as nat),
            _ => Seq::empty(),
        }
    }
}

/// Each subscriber sees payloads in exactly the order they were published:
/// a run of deliveries starting at `cursor` is the contiguous slice of the
/// publish log that begins there. Since concurrent publishers append to the
/// log one at a time, this also says that a subscriber's stream matches the
/// interleaving in which the publish calls completed, never a reordering.
pub proof fn lemma_delivery_in_publish_order(ch: ChannelModel, cursor: nat, count: nat)
    requires
        cursor + count <= ch.log.len(),
        ch.log.len() <= cursor + ch.capacity,
    ensures
        received(ch, cursor, count) == ch.log.subrange(cursor as int, (cursor + count) as int),
    decreases count,
{
    if count == 0 {
        assert(received(ch, cursor, count) =~= ch.log.subrange(
            cursor as int,
            (cursor + count) as int,
        ));
    } else {
        assert(poll(ch, cursor) == PollOutcome::Delivered(ch.log[cursor as int]));
        lemma_delivery_in_publish_order(ch, cursor + 1, (count - 1) as nat);
        assert(received(ch, cursor, count) =~= ch.log.subrange(
            cursor as int,
            (cursor + count) as int,
        ));
    }
}

/// A delivered payload always comes from the channel's own log.
pub proof fn lemma_delivered_from_log(ch: ChannelModel, cursor: nat)
    ensures
        poll(ch, cursor) matches PollOutcome::Delivered(m) ==> cursor < ch.log.len()
            && m == ch.log[cursor as int] && ch.log.contains(m),
{
    if cursor < ch.log.len() {
        assert(ch.log.contains(ch.log[cursor as int]));
    }
}

/// After the publisher is gone, nothing further is written and no
/// subscriber is left waiting forever: closing adds no payload, and every
/// poll of the closed channel delivers a payload published before the
/// close, reports the lag, or observes closure — once the backlog is
/// drained, always closure. `stop` returns before the subscribers get
/// here, so this is the state each of them eventually observes, not one
/// `stop` waits for.
pub proof fn lemma_closed_channel_terminates(ch: ChannelModel, cursor: nat)
    ensures
        close(ch).log == ch.log,
        poll(close(ch), cursor) !is Pending,
        cursor >= ch.log.len() ==> poll(close(ch), cursor) is Closed,
        poll(close(ch), cursor) matches PollOutcome::Delivered(m) ==> cursor < ch.log.len() && m
            == ch.log[cursor as int],
{
}

/// A subscriber that trails the newest entry by more than the capacity is
/// evicted: its next poll reports the lag rather than a payload.
pub proof fn lemma_slow_subscriber_evicted(ch: ChannelModel, cursor: nat)
    requires
        cursor + ch.capacity < ch.log.len(),
    ensures
        poll(ch, cursor) is Lagged,
{
}

/// Publishing never blocks on subscribers: on any open channel it is always
/// enabled and only appends to the log. Subscriber cursors are no part of
/// the channel value, so no slow consumer can stall it; the slow consumer is
/// evicted instead (`lemma_slow_subscriber_evicted`).
pub proof fn lemma_publish_never_blocks(ch: ChannelModel, payload: Seq<u8>)
    requires
        !ch.closed,
    ensures
        publish(ch, payload).log == ch.log.push(payload),
        publish(ch, payload).capacity == ch.capacity,
        !publish(ch, payload).closed,
{
}

/// A subscription begins strictly after everything already published: a
/// new subscriber's first outcome is never a delivery of an earlier
/// payload. This is the accept-then-subscribe race made precise — a client
/// connecting at the exact moment of a publish may miss that payload,
/// because its cursor starts past it.
pub proof fn lemma_new_subscriber_sees_only_later_payloads(ch: ChannelModel)
    ensures
        poll(ch, subscribe_cursor(ch)) !is Delivered,
        poll(ch, subscribe_cursor(ch)) !is Lagged,
        !ch.closed ==> poll(ch, subscribe_cursor(ch)) is Pending,
{
}

/// No payload leaks across a stop/start cycle. A subscriber of the closed
/// first-cycle channel never receives a payload the first cycle did not
/// publish; a subscriber that joined the fresh second-cycle channel before
/// its first publish receives exactly that publish next. (If the two cycles
/// publish byte-for-byte equal payloads the two deliveries are of course
/// indistinguishable, so the first clause asks that `y` not be among the
/// first cycle's payloads.)
pub proof fn lemma_no_leak_across_cycles(first: ChannelModel, cap: nat, y: Seq<u8>, cursor: nat)
    requires
        first.closed,
        !first.log.contains(y),
        cap >= 1,
    ensures
        poll(first, cursor) matches PollOutcome::Delivered(m) ==> m != y,
        poll(publish(fresh_channel(cap), y), subscribe_cursor(fresh_channel(cap)))
            == PollOutcome::Delivered(y),
{
    lemma_delivered_from_log(first, cursor);
    let second = publish(fresh_channel(cap), y);
    assert(second.log[0] == y);
}

} // verus!
