//! Connection signal: a one-publisher, many-subscriber boolean broadcast.
//!
//! `true` means the downstream link is active. A reading of `false`, and a
//! closed channel, are both terminal: a provider that sees either stops.
//! Seeing nothing new since the last reading keeps the last known answer, so
//! a provider keeps running between broadcasts.

use vstd::prelude::*;

verus! {

/// Declares tokio's broadcast sender so it can stand in fields and
/// signatures; the library never looks inside a value of it.
#[verifier::external_type_specification]
#[verifier::external_body]
#[verifier::reject_recursive_types(T)]
pub struct ExBroadcastSender<T>(tokio::sync::broadcast::Sender<T>);

/// Declares tokio's broadcast receiver, the subscription handle each
/// provider worker polls for the shutdown signal.
#[verifier::external_type_specification]
#[verifier::external_body]
#[verifier::reject_recursive_types(T)]
pub struct ExBroadcastReceiver<T>(tokio::sync::broadcast::Receiver<T>);

/// What one non-blocking poll of the connection signal can observe.
#[derive(Clone, Copy, PartialEq, Eq, Structural, Debug)]
pub enum LinkEvent {
    /// A fresh broadcast value arrived: the link is active iff it is `true`.
    Update(bool),
    /// Nothing new since the last poll; the publisher is still alive.
    NoNews,
    /// The subscriber fell behind and missed broadcasts; it stays subscribed.
    Lagged,
    /// Every publisher handle is gone; no further value can ever arrive.
    Closed,
}

/// Whether the link counts as active after observing one event. A broadcast
/// of `false` and a closed signal are both terminal; silence and lag are not.
pub open spec fn spec_link_active(e: LinkEvent) -> bool {
    match e {
        LinkEvent::Update(active) => active,
        LinkEvent::NoNews => true,
        LinkEvent::Lagged => true,
        LinkEvent::Closed => false,
    }
}

/// Relies on tokio's `broadcast::Receiver::try_recv`: it never blocks, and
/// its outcome is exactly one of a received value, an empty buffer, a lagged
/// cursor, or a closed channel. What comes back depends on the publisher's
/// thread, so nothing is promised of the value.
#[verifier::external_body]
pub(crate) fn poll_link(receiver: &mut tokio::sync::broadcast::Receiver<bool>) -> (r: LinkEvent) {
    match receiver.try_recv() {
        Ok(active) => LinkEvent::Update(active),
        Err(tokio::sync::broadcast::error::TryRecvError::Empty) => LinkEvent::NoNews,
        Err(tokio::sync::broadcast::error::TryRecvError::Lagged(_)) => LinkEvent::Lagged,
        Err(tokio::sync::broadcast::error::TryRecvError::Closed) => LinkEvent::Closed,
    }
}

/// Decide from one observed event whether the link is still active.
pub fn link_active(e: &LinkEvent) -> (r: bool)
    ensures
        r == spec_link_active(*e),
{
    match e {
        LinkEvent::Update(active) => *active,
        LinkEvent::NoNews => true,
        LinkEvent::Lagged => true,
        LinkEvent::Closed => false,
    }
}

} // verus!
