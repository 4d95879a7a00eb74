//! Polling provider for the local wall-clock time.
//!
//! A background worker owned by the host polls once per interval: it checks
//! the connection signal, reads the clock, and emits a frame only when the
//! reading differs from the last value it sent (change suppression). The
//! worker's per-cycle decisions are verified here; the host only supplies
//! the thread and the sleep between cycles.

use vstd::prelude::*;

use crate::codec::{spec_encode, encode_value, MetricValue};
use crate::link::{spec_link_active, link_active, poll_link, LinkEvent};
use crate::outbound::{try_send_frame, SendOutcome};

verus! {

/// One clock reading: hour and minute, each a single payload byte.
#[derive(Clone, Copy, PartialEq, Eq, Structural, Debug)]
pub struct TimeReading {
    pub hour: u8,
    pub minute: u8,
}

/// The value LastSentValue starts from. It doubles as the midnight reading,
/// so a genuine first reading of 00:00 is suppressed; see
/// `lemma_sentinel_first_read_suppressed`.
pub open spec fn spec_sentinel() -> TimeReading {
    TimeReading { hour: 0, minute: 0 }
}

/// The initial LastSentValue for a fresh worker.
pub fn sentinel() -> (r: TimeReading)
    ensures
        r == spec_sentinel(),
{
    TimeReading { hour: 0, minute: 0 }
}

/// What one polling cycle decides to do, before any channel traffic.
#[derive(Clone, Copy, PartialEq, Eq, Structural, Debug)]
pub enum PollDecision {
    /// The link is down or gone: stop the worker, emit nothing.
    Stop,
    /// The reading equals the last sent value: emit nothing, keep polling.
    Hold,
    /// The reading changed: emit one frame for it.
    Emit,
}

/// How one executed cycle ended, as reported to the host loop.
#[derive(Clone, Copy, PartialEq, Eq, Structural, Debug)]
pub enum CycleOutcome {
    /// The connection signal read inactive or is gone: the worker is done.
    Disconnected,
    /// The reading matched the last sent value: nothing was emitted.
    Unchanged,
    /// One frame for the new reading was placed on the channel.
    Sent,
    /// The channel was full: the frame was dropped, the last sent value kept,
    /// so the change is emitted again on a later cycle.
    SendDropped,
    /// The channel's consumer is gone: the worker is done.
    ChannelGone,
}

/// The per-cycle decision of the polling provider: stop exactly when the
/// link is inactive, and otherwise emit exactly when the reading differs
/// from the last sent value.
pub fn poll_decide(link: &LinkEvent, last_sent: &TimeReading, reading: &TimeReading) -> (r:
    PollDecision)
    ensures
        (r == PollDecision::Stop) <==> !spec_link_active(*link),
        (r == PollDecision::Emit) <==> (spec_link_active(*link) && *reading != *last_sent),
        (r == PollDecision::Hold) <==> (spec_link_active(*link) && *reading == *last_sent),
{
    if !link_active(link) {
        PollDecision::Stop
    } else if *reading != *last_sent {
        PollDecision::Emit
    } else {
        PollDecision::Hold
    }
}

/// The frame for one clock reading.
pub open spec fn spec_time_frame(t: TimeReading) -> Seq<u8> {
    spec_encode(MetricValue::Time { hour: t.hour, minute: t.minute })
}

/// Encode one clock reading as a frame.
pub fn time_frame(t: &TimeReading) -> (r: Vec<u8>)
    ensures
        r@ == spec_time_frame(*t),
{
    encode_value(&MetricValue::Time { hour: t.hour, minute: t.minute })
}

/// Watches the local clock and reports its changes, minute-grained.
pub struct TimeProvider {
    data_sender: tokio::sync::mpsc::Sender<Vec<u8>>,
    connected_sender: tokio::sync::broadcast::Sender<bool>,
}

impl TimeProvider {
    /// A provider holding a clone of the outbound channel sender and of the
    /// connection signal's publisher handle.
    pub fn new(
        data_sender: tokio::sync::mpsc::Sender<Vec<u8>>,
        connected_sender: tokio::sync::broadcast::Sender<bool>,
    ) -> TimeProvider {
        TimeProvider { data_sender, connected_sender }
    }

    /// Relies on chrono's `Local::now` and the `Timelike` accessors: the hour
    /// is 0 to 23 and the minute 0 to 59. The value depends on the clock, so
    /// nothing more is promised of it.
    #[verifier::external_body]
    fn get() -> (r: TimeReading)
        ensures
            r.hour < 24,
            r.minute < 60,
    {
        let now: chrono::DateTime<chrono::Local> = chrono::Local::now();
        let hour = chrono::Timelike::hour(&now) as u8;
        let minute = chrono::Timelike::minute(&now) as u8;
        TimeReading { hour, minute }
    }

    /// Encode one reading and place the frame on the channel without
    /// blocking; a full or closed channel is reported, never a panic.
    pub fn send(value: TimeReading, push_sender: &tokio::sync::mpsc::Sender<Vec<u8>>) -> (r:
        SendOutcome) {
        let data = time_frame(&value);
        try_send_frame(push_sender, data)
    }

    /// One polling cycle of the background worker: poll the connection
    /// signal, stop if it is terminal, otherwise read the clock and emit a
    /// frame exactly when the reading changed. The last sent value advances
    /// exactly when a frame was actually placed on the channel, so a frame
    /// dropped by a full channel is retried on a later cycle.
    pub fn run_cycle(
        &self,
        connected_receiver: &mut tokio::sync::broadcast::Receiver<bool>,
        last_sent: &mut TimeReading,
    ) -> (r: CycleOutcome)
        ensures
            r != CycleOutcome::Sent ==> *final(last_sent) == *old(last_sent),
            r == CycleOutcome::Sent ==> *final(last_sent) != *old(last_sent)
                && final(last_sent).hour < 24 && final(last_sent).minute < 60,
    {
        let event = poll_link(connected_receiver);
        if !link_active(&event) {
            return CycleOutcome::Disconnected;
        }
        let reading = TimeProvider::get();
        match poll_decide(&event, last_sent, &reading) {
            PollDecision::Stop => {
                // Unreachable: the event was just seen active above.
                proof {
                    assert(false);
                }
                CycleOutcome::Disconnected
            }
            PollDecision::Hold => CycleOutcome::Unchanged,
            PollDecision::Emit => {
                match TimeProvider::send(reading, &self.data_sender) {
                    SendOutcome::Sent => {
                        *last_sent = reading;
                        CycleOutcome::Sent
                    }
                    SendOutcome::ChannelFull => CycleOutcome::SendDropped,
                    SendOutcome::ChannelClosed => CycleOutcome::ChannelGone,
                }
            }
        }
    }
}

/// What one polling cycle observes: the connection signal event and the
/// clock reading of that cycle.
pub struct PollInput {
    pub link: LinkEvent,
    pub reading: TimeReading,
}

/// The last sent value after one active cycle on `input`.
pub open spec fn spec_next_last(last: TimeReading, input: PollInput) -> TimeReading {
    if input.reading != last {
        input.reading
    } else {
        last
    }
}

/// Whether the worker, started with LastSentValue `last` and fed the cycles
/// `steps` in order, emits a frame on cycle `i`. Once any cycle observes a
/// terminal link event, the worker has stopped and no later cycle runs.
pub open spec fn spec_emits_at(steps: Seq<PollInput>, last: TimeReading, i: int) -> bool
    decreases i,
{
    if i < 0 || i >= steps.len() {
        false
    } else if !spec_link_active(steps[0].link) {
        false
    } else if i == 0 {
        steps[0].reading != last
    } else {
        spec_emits_at(steps.drop_first(), spec_next_last(last, steps[0]), i - 1)
    }
}

/// Whether the link has stayed active through cycles 0 to `i` inclusive, so
/// that cycle `i` actually runs.
pub open spec fn spec_live_through(steps: Seq<PollInput>, i: int) -> bool {
    forall|j: int| 0 <= j <= i ==> spec_link_active(steps[j].link)
}

/// The worker's LastSentValue when cycle `i` begins, starting from `last`.
pub open spec fn spec_last_before(steps: Seq<PollInput>, last: TimeReading, i: int) -> TimeReading
    decreases i,
{
    if i <= 0 {
        last
    } else {
        spec_last_before(steps.drop_first(), spec_next_last(last, steps[0]), i - 1)
    }
}

/// Change suppression, exactly: a frame is emitted on cycle `i` if and only
/// if the worker is still running and that cycle's reading differs from the
/// previously sent value.
pub proof fn lemma_emit_iff_changed(steps: Seq<PollInput>, last: TimeReading, i: int)
    requires
        0 <= i < steps.len(),
    ensures
        spec_emits_at(steps, last, i) <==> (spec_live_through(steps, i) && steps[i].reading
            != spec_last_before(steps, last, i)),
    decreases i,
{
    if i == 0 {
        assert(spec_live_through(steps, 0) == spec_link_active(steps[0].link));
    } else if !spec_link_active(steps[0].link) {
        assert(!spec_live_through(steps, i));
    } else {
        let tail = steps.drop_first();
        let next = spec_next_last(last, steps[0]);
        lemma_emit_iff_changed(tail, next, i - 1);
        assert forall|j: int| 1 <= j <= i implies steps[j] == tail[j - 1] by {}
        assert(spec_live_through(steps, i) == spec_live_through(tail, i - 1));
        assert(spec_last_before(steps, last, i) == spec_last_before(tail, next, i - 1));
        assert(spec_emits_at(steps, last, i) == spec_emits_at(tail, next, i - 1));
    }
}

/// Change suppression over a whole run: two consecutive cycles with equal
/// readings never both emit; the second one is always silent, whatever the
/// link events and the starting value were.
pub proof fn lemma_equal_consecutive_suppressed(steps: Seq<PollInput>, last: TimeReading, i: int)
    requires
        1 <= i < steps.len(),
        steps[i - 1].reading == steps[i].reading,
    ensures
        !spec_emits_at(steps, last, i),
    decreases i,
{
    if spec_link_active(steps[0].link) {
        let tail = steps.drop_first();
        let next = spec_next_last(last, steps[0]);
        if i == 1 {
            assert(tail[0] == steps[1]);
            assert(next == steps[0].reading);
            assert(!spec_emits_at(tail, next, 0));
            assert(spec_emits_at(steps, last, 1) == spec_emits_at(tail, next, 0));
        } else {
            assert(tail[i - 2] == steps[i - 1]);
            assert(tail[i - 1] == steps[i]);
            lemma_equal_consecutive_suppressed(tail, next, i - 1);
        }
    }
}

/// First-read boundary: a worker whose genuine first reading equals the
/// sentinel emits no frame for it, because the sentinel is the starting
/// LastSentValue.
pub proof fn lemma_sentinel_first_read_suppressed(steps: Seq<PollInput>)
    requires
        steps.len() > 0,
        steps[0].reading == spec_sentinel(),
    ensures
        !spec_emits_at(steps, spec_sentinel(), 0),
{
}

/// Shutdown: once any cycle observes a terminal link event, no frame is
/// emitted on that cycle or on any later one.
pub proof fn lemma_no_frames_after_shutdown(
    steps: Seq<PollInput>,
    last: TimeReading,
    i: int,
    j: int,
)
    requires
        0 <= i <= j < steps.len(),
        !spec_link_active(steps[i].link),
    ensures
        !spec_emits_at(steps, last, j),
    decreases i,
{
    if spec_link_active(steps[0].link) {
        let tail = steps.drop_first();
        assert(tail[i - 1] == steps[i]);
        lemma_no_frames_after_shutdown(tail, spec_next_last(last, steps[0]), i - 1, j - 1);
    }
}

} // verus!
