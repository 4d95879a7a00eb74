use statebridge::link::LinkEvent;
use statebridge::outbound::SendOutcome;
use statebridge::providers::time::{
    poll_decide, sentinel, CycleOutcome, PollDecision, TimeProvider, TimeReading,
};
use statebridge::providers::volume::{notify_wait_step, VolumeProvider, WorkerCommand};

fn millionths(raw: f32) -> u32 {
    if !(raw > 0.0) {
        0
    } else if raw >= 1.0 {
        1_000_000
    } else {
        (raw * 1_000_000.0) as u32
    }
}

/// Drive the polling decision over a list of readings the way a worker
/// would, sending through a real channel, and return the frames that came
/// out the other end.
fn poll_through_channel(readings: &[TimeReading]) -> Vec<Vec<u8>> {
    let (tx, mut rx) = tokio::sync::mpsc::channel::<Vec<u8>>(16);
    let mut last_sent = sentinel();
    for reading in readings {
        match poll_decide(&LinkEvent::NoNews, &last_sent, reading) {
            PollDecision::Emit => {
                assert_eq!(TimeProvider::send(*reading, &tx), SendOutcome::Sent);
                last_sent = *reading;
            }
            PollDecision::Hold => {}
            PollDecision::Stop => unreachable!("the link stayed up"),
        }
    }
    let mut frames = Vec::new();
    while let Ok(frame) = rx.try_recv() {
        frames.push(frame);
    }
    frames
}

#[test]
fn change_suppression_emits_only_on_change() {
    let r = |hour, minute| TimeReading { hour, minute };
    let frames = poll_through_channel(&[
        r(14, 5),
        r(14, 5),
        r(14, 5),
        r(14, 6),
        r(14, 6),
        r(14, 5),
    ]);
    assert_eq!(frames, vec![vec![1u8, 14, 5], vec![1u8, 14, 6], vec![1u8, 14, 5]]);
}

#[test]
fn sentinel_equal_first_reading_is_silent() {
    // The sentinel doubles as the midnight reading: a genuine first reading
    // of 00:00 produces no frame, a documented boundary of the design.
    let frames = poll_through_channel(&[TimeReading { hour: 0, minute: 0 }]);
    assert!(frames.is_empty());
    let decision = poll_decide(
        &LinkEvent::Update(true),
        &sentinel(),
        &TimeReading { hour: 0, minute: 0 },
    );
    assert_eq!(decision, PollDecision::Hold);
}

#[test]
fn clock_scenario_one_frame_per_minute_change() {
    let frames = poll_through_channel(&[
        TimeReading { hour: 14, minute: 5 },
        TimeReading { hour: 14, minute: 6 },
    ]);
    assert_eq!(frames, vec![vec![1u8, 14, 5], vec![1u8, 14, 6]]);
}

#[test]
fn volume_scenario_exactly_one_frame_per_transition() {
    let (tx, mut rx) = tokio::sync::mpsc::channel::<Vec<u8>>(16);
    // The OS notifies 0.10, then the user moves the volume to 0.37.
    assert_eq!(VolumeProvider::send(millionths(0.10), &tx), SendOutcome::Sent);
    assert_eq!(VolumeProvider::send(millionths(0.37), &tx), SendOutcome::Sent);
    assert_eq!(rx.try_recv().unwrap(), vec![2u8, 10]);
    assert_eq!(rx.try_recv().unwrap(), vec![2u8, 37]);
    assert!(rx.try_recv().is_err());
}

#[test]
fn stop_decision_on_every_terminal_event() {
    let last = TimeReading { hour: 3, minute: 4 };
    let next = TimeReading { hour: 3, minute: 5 };
    assert_eq!(poll_decide(&LinkEvent::Update(false), &last, &next), PollDecision::Stop);
    assert_eq!(poll_decide(&LinkEvent::Closed, &last, &next), PollDecision::Stop);
    assert_eq!(poll_decide(&LinkEvent::NoNews, &last, &next), PollDecision::Emit);
    assert_eq!(poll_decide(&LinkEvent::Lagged, &last, &next), PollDecision::Emit);
    assert_eq!(poll_decide(&LinkEvent::Update(true), &last, &last), PollDecision::Hold);
}

#[test]
fn run_cycle_stops_and_stays_silent_after_disconnect() {
    let (tx, mut data_rx) = tokio::sync::mpsc::channel::<Vec<u8>>(16);
    let (conn_tx, mut conn_rx) = tokio::sync::broadcast::channel::<bool>(4);
    let provider = TimeProvider::new(tx, conn_tx.clone());
    let mut last_sent = TimeReading { hour: 99, minute: 99 };

    conn_tx.send(false).unwrap();
    let outcome = provider.run_cycle(&mut conn_rx, &mut last_sent);
    assert_eq!(outcome, CycleOutcome::Disconnected);
    assert_eq!(last_sent, TimeReading { hour: 99, minute: 99 });
    assert!(data_rx.try_recv().is_err());
}

#[test]
fn run_cycle_stops_when_signal_is_gone() {
    let (tx, _data_rx) = tokio::sync::mpsc::channel::<Vec<u8>>(16);
    let (conn_tx, mut conn_rx) = tokio::sync::broadcast::channel::<bool>(4);
    // The provider keeps its own publisher handle of a different signal, so
    // dropping `conn_tx` really closes the signal the worker polls.
    let (other_tx, _other_rx) = tokio::sync::broadcast::channel::<bool>(4);
    let provider = TimeProvider::new(tx, other_tx);
    let mut last_sent = sentinel();

    drop(conn_tx);
    let outcome = provider.run_cycle(&mut conn_rx, &mut last_sent);
    assert_eq!(outcome, CycleOutcome::Disconnected);
}

#[test]
fn run_cycle_emits_a_well_formed_clock_frame() {
    let (tx, mut data_rx) = tokio::sync::mpsc::channel::<Vec<u8>>(16);
    let (conn_tx, mut conn_rx) = tokio::sync::broadcast::channel::<bool>(4);
    let provider = TimeProvider::new(tx, conn_tx.clone());
    // No genuine reading can match this value, so the cycle must emit.
    let mut last_sent = TimeReading { hour: 99, minute: 99 };

    let outcome = provider.run_cycle(&mut conn_rx, &mut last_sent);
    assert_eq!(outcome, CycleOutcome::Sent);
    let frame = data_rx.try_recv().unwrap();
    assert_eq!(frame.len(), 3);
    assert_eq!(frame[0], 1);
    assert!(frame[1] < 24);
    assert!(frame[2] < 60);
    assert_eq!(last_sent, TimeReading { hour: frame[1], minute: frame[2] });
}

#[test]
fn run_cycle_drops_frame_but_keeps_state_when_channel_is_full() {
    let (tx, mut data_rx) = tokio::sync::mpsc::channel::<Vec<u8>>(1);
    let (conn_tx, mut conn_rx) = tokio::sync::broadcast::channel::<bool>(4);
    tx.try_send(vec![0u8]).unwrap();
    let provider = TimeProvider::new(tx, conn_tx.clone());
    let mut last_sent = TimeReading { hour: 99, minute: 99 };

    let outcome = provider.run_cycle(&mut conn_rx, &mut last_sent);
    assert_eq!(outcome, CycleOutcome::SendDropped);
    // The change was not recorded as sent, so it is retried next cycle.
    assert_eq!(last_sent, TimeReading { hour: 99, minute: 99 });
    assert_eq!(data_rx.try_recv().unwrap(), vec![0u8]);
    assert!(data_rx.try_recv().is_err());
}

#[test]
fn run_cycle_reports_a_gone_channel() {
    let (tx, data_rx) = tokio::sync::mpsc::channel::<Vec<u8>>(16);
    let (conn_tx, mut conn_rx) = tokio::sync::broadcast::channel::<bool>(4);
    drop(data_rx);
    let provider = TimeProvider::new(tx, conn_tx.clone());
    let mut last_sent = TimeReading { hour: 99, minute: 99 };

    let outcome = provider.run_cycle(&mut conn_rx, &mut last_sent);
    assert_eq!(outcome, CycleOutcome::ChannelGone);
    assert_eq!(last_sent, TimeReading { hour: 99, minute: 99 });
}

#[test]
fn send_reports_full_and_closed_channels() {
    let (tx, rx) = tokio::sync::mpsc::channel::<Vec<u8>>(1);
    tx.try_send(vec![0u8]).unwrap();
    assert_eq!(
        TimeProvider::send(TimeReading { hour: 1, minute: 2 }, &tx),
        SendOutcome::ChannelFull
    );
    drop(rx);
    assert_eq!(
        VolumeProvider::send(millionths(0.5), &tx),
        SendOutcome::ChannelClosed
    );
}

#[test]
fn worker_waits_until_terminal_then_deregisters() {
    assert_eq!(notify_wait_step(&LinkEvent::Update(true)), WorkerCommand::Wait);
    assert_eq!(notify_wait_step(&LinkEvent::NoNews), WorkerCommand::Wait);
    assert_eq!(notify_wait_step(&LinkEvent::Lagged), WorkerCommand::Wait);
    assert_eq!(notify_wait_step(&LinkEvent::Update(false)), WorkerCommand::Deregister);
    assert_eq!(notify_wait_step(&LinkEvent::Closed), WorkerCommand::Deregister);
}

#[test]
fn wait_cycle_observes_the_broadcast() {
    let (conn_tx, mut conn_rx) = tokio::sync::broadcast::channel::<bool>(4);
    let observed = VolumeProvider::wait_cycle(&mut conn_rx);
    assert_eq!(observed.event, LinkEvent::NoNews);
    assert_eq!(observed.command, WorkerCommand::Wait);

    conn_tx.send(true).unwrap();
    let observed = VolumeProvider::wait_cycle(&mut conn_rx);
    assert_eq!(observed.event, LinkEvent::Update(true));
    assert_eq!(observed.command, WorkerCommand::Wait);

    conn_tx.send(false).unwrap();
    let observed = VolumeProvider::wait_cycle(&mut conn_rx);
    assert_eq!(observed.event, LinkEvent::Update(false));
    assert_eq!(observed.command, WorkerCommand::Deregister);

    drop(conn_tx);
    let observed = VolumeProvider::wait_cycle(&mut conn_rx);
    assert_eq!(observed.event, LinkEvent::Closed);
    assert_eq!(observed.command, WorkerCommand::Deregister);
}

#[test]
fn emit_current_puts_the_initial_frame_on_the_channel() {
    let (tx, mut data_rx) = tokio::sync::mpsc::channel::<Vec<u8>>(16);
    let (conn_tx, _conn_rx) = tokio::sync::broadcast::channel::<bool>(4);
    let provider = VolumeProvider::new(tx, conn_tx);
    assert_eq!(provider.emit_current(millionths(0.10)), SendOutcome::Sent);
    assert_eq!(data_rx.try_recv().unwrap(), vec![2u8, 10]);
}
