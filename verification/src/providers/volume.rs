//! Notification provider for the master audio volume.
//!
//! On start the provider reads the current volume once and emits a frame for
//! it, so the consumer has an initial value before any change. A background
//! worker then registers a change callback with the OS audio endpoint; the
//! callback encodes and sends a frame for every new value, on whatever
//! thread the OS chooses. The worker itself only polls the connection signal
//! at short intervals and, on the first terminal event, deregisters the
//! callback before it exits. The scale conversion, the frame building, and
//! the wait/deregister decisions are verified here; the host supplies the
//! thread, the sleeps, and the OS audio binding.
//!
//! The raw volume is a fraction of full scale in zero to one; the library
//! takes it as an integer count of millionths of full scale, and the encoded
//! byte is the whole number of percent, truncated toward zero and clamped
//! at one hundred.

use vstd::prelude::*;
use vstd::arithmetic::div_mod::lemma_div_is_ordered;

use crate::codec::{spec_encode, encode_value, MetricValue};
use crate::link::{spec_link_active, link_active, poll_link, LinkEvent};
use crate::outbound::{try_send_frame, SendOutcome};

verus! {

/// One whole volume scale, as a count of millionths.
pub const FULL_SCALE: u32 = 1000000;

/// Millionths of scale per percent point.
pub const PER_PERCENT: u32 = 10000;

/// The encoded volume byte for a reading of `millionths` of full scale:
/// whole percent, truncated toward zero, clamped at one hundred.
pub open spec fn spec_percent(millionths: u32) -> u8 {
    if millionths >= FULL_SCALE {
        100
    } else {
        (millionths / PER_PERCENT) as u8
    }
}

/// The conversion never leaves the payload's range.
pub proof fn lemma_percent_bounded(millionths: u32)
    ensures
        spec_percent(millionths) <= 100,
{
    if millionths < FULL_SCALE {
        lemma_div_is_ordered(millionths as int, (FULL_SCALE - 1) as int, PER_PERCENT as int);
    }
}

/// The conversion is monotonic non-decreasing in the raw reading.
pub proof fn lemma_percent_monotonic(a: u32, b: u32)
    requires
        a <= b,
    ensures
        spec_percent(a) <= spec_percent(b),
{
    lemma_percent_bounded(a);
    if a < FULL_SCALE && b < FULL_SCALE {
        lemma_div_is_ordered(a as int, b as int, PER_PERCENT as int);
    }
}

/// Convert a raw reading to its encoded percent byte.
pub fn volume_percent(millionths: u32) -> (r: u8)
    ensures
        r == spec_percent(millionths),
{
    if millionths >= FULL_SCALE {
        100
    } else {
        proof {
            lemma_percent_bounded(millionths);
        }
        (millionths / PER_PERCENT) as u8
    }
}

/// The frame for one volume reading.
pub open spec fn spec_volume_frame(millionths: u32) -> Seq<u8> {
    spec_encode(MetricValue::Volume { percent: spec_percent(millionths) })
}

/// Encode one volume reading as a frame.
pub fn volume_frame(millionths: u32) -> (r: Vec<u8>)
    ensures
        r@ == spec_volume_frame(millionths),
{
    let percent = volume_percent(millionths);
    encode_value(&MetricValue::Volume { percent })
}

/// Watches the master volume and reports every change the OS notifies.
pub struct VolumeProvider {
    data_sender: tokio::sync::mpsc::Sender<Vec<u8>>,
    connected_sender: tokio::sync::broadcast::Sender<bool>,
}

impl VolumeProvider {
    /// A provider holding a clone of the outbound channel sender and of the
    /// connection signal's publisher handle.
    pub fn new(
        data_sender: tokio::sync::mpsc::Sender<Vec<u8>>,
        connected_sender: tokio::sync::broadcast::Sender<bool>,
    ) -> VolumeProvider {
        VolumeProvider { data_sender, connected_sender }
    }

    /// Encode one reading and place the frame on the channel without
    /// blocking; a full or closed channel is reported, never a panic. The
    /// OS change callback calls this with each notified value.
    pub fn send(value: u32, push_sender: &tokio::sync::mpsc::Sender<Vec<u8>>) -> (r: SendOutcome) {
        let data = volume_frame(value);
        try_send_frame(push_sender, data)
    }

    /// The synchronous first emit on start: one frame for the current
    /// reading, before any change notification can arrive.
    pub fn emit_current(&self, millionths: u32) -> (r: SendOutcome) {
        VolumeProvider::send(millionths, &self.data_sender)
    }

    /// One waiting cycle of the background worker: poll the connection
    /// signal and decide whether to keep waiting or to deregister the OS
    /// callback and exit. The observed event is returned with the command,
    /// and the command is `Deregister` exactly when the event is terminal.
    pub fn wait_cycle(connected_receiver: &mut tokio::sync::broadcast::Receiver<bool>) -> (r:
        WaitObservation)
        ensures
            (r.command == WorkerCommand::Deregister) <==> !spec_link_active(r.event),
            (r.command == WorkerCommand::Wait) <==> spec_link_active(r.event),
    {
        let event = poll_link(connected_receiver);
        let command = notify_wait_step(&event);
        WaitObservation { event, command }
    }
}

/// What the notification worker does after one poll of the connection
/// signal.
#[derive(Clone, Copy, PartialEq, Eq, Structural, Debug)]
pub enum WorkerCommand {
    /// The link is still active: sleep and poll again.
    Wait,
    /// The link is terminal: deregister the OS callback, then exit.
    Deregister,
}

/// One waiting cycle's observation: the link event seen and the command it
/// forces.
pub struct WaitObservation {
    pub event: LinkEvent,
    pub command: WorkerCommand,
}

/// The notification worker's whole decision: deregister exactly on a
/// terminal link event, wait on anything else.
pub fn notify_wait_step(link: &LinkEvent) -> (r: WorkerCommand)
    ensures
        (r == WorkerCommand::Deregister) <==> !spec_link_active(*link),
        (r == WorkerCommand::Wait) <==> spec_link_active(*link),
{
    if link_active(link) {
        WorkerCommand::Wait
    } else {
        WorkerCommand::Deregister
    }
}

/// The commands a worker issues when fed the link events `events` in order:
/// it waits through every active event and stops at the first terminal one,
/// issuing `Deregister` as its last act.
pub open spec fn spec_worker_commands(events: Seq<LinkEvent>) -> Seq<WorkerCommand>
    decreases events.len(),
{
    if events.len() == 0 {
        Seq::empty()
    } else if spec_link_active(events[0]) {
        seq![WorkerCommand::Wait] + spec_worker_commands(events.drop_first())
    } else {
        seq![WorkerCommand::Deregister]
    }
}

/// Shutdown discipline of the notification worker: if any polled event is
/// terminal, the worker's run ends no later than that event, its one and
/// only `Deregister` is its last command, and nothing follows it — the OS
/// callback is deregistered before the worker exits.
pub proof fn lemma_worker_deregisters_before_exit(events: Seq<LinkEvent>, i: int)
    requires
        0 <= i < events.len(),
        !spec_link_active(events[i]),
    ensures
        1 <= spec_worker_commands(events).len() <= i + 1,
        spec_worker_commands(events).last() == WorkerCommand::Deregister,
        forall|j: int|
            0 <= j < spec_worker_commands(events).len() - 1 ==> spec_worker_commands(events)[j]
                == WorkerCommand::Wait,
    decreases i,
{
    if spec_link_active(events[0]) {
        let tail = events.drop_first();
        assert(tail[i - 1] == events[i]);
        lemma_worker_deregisters_before_exit(tail, i - 1);
        let cmds = spec_worker_commands(events);
        let tail_cmds = spec_worker_commands(tail);
        assert(cmds == seq![WorkerCommand::Wait] + tail_cmds);
        assert(cmds.last() == tail_cmds.last());
        assert forall|j: int| 0 <= j < cmds.len() - 1 implies cmds[j] == WorkerCommand::Wait by {
            if j >= 1 {
                assert(cmds[j] == tail_cmds[j - 1]);
            }
        }
    }
}

} // verus!
