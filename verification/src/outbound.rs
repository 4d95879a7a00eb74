//! Outbound data channel: a bounded, many-producer single-consumer channel
//! of encoded frames. Producers never block: a full channel drops the newest
//! frame (the provider retries on its next change), and a closed channel
//! tells the provider the consumer is gone for good.

use vstd::prelude::*;

verus! {

/// Declares tokio's bounded mpsc sender so providers can hold a clone of it;
/// the library never looks inside a value of it.
#[verifier::external_type_specification]
#[verifier::external_body]
#[verifier::reject_recursive_types(T)]
pub struct ExMpscSender<T>(tokio::sync::mpsc::Sender<T>);

/// What one non-blocking send of a frame can come to.
#[derive(Clone, Copy, PartialEq, Eq, Structural, Debug)]
pub enum SendOutcome {
    /// The frame was placed on the channel.
    Sent,
    /// The channel had no free slot; the frame was dropped, not queued.
    ChannelFull,
    /// The consumer half is gone; nothing can ever be sent again.
    ChannelClosed,
}

/// Relies on tokio's `mpsc::Sender::try_send`: it never blocks, and it fails
/// exactly when the channel has no free capacity or the receiver has been
/// dropped. Whether a slot is free depends on the consumer's thread, so
/// nothing is promised of the outcome.
#[verifier::external_body]
pub(crate) fn try_send_frame(
    sender: &tokio::sync::mpsc::Sender<Vec<u8>>,
    frame: Vec<u8>,
) -> (r: SendOutcome) {
    match sender.try_send(frame) {
        Ok(()) => SendOutcome::Sent,
        Err(tokio::sync::mpsc::error::TrySendError::Full(_)) => SendOutcome::ChannelFull,
        Err(tokio::sync::mpsc::error::TrySendError::Closed(_)) => SendOutcome::ChannelClosed,
    }
}

} // verus!
