use cloak_core::{
    deliver_samples, poll_sample, resolve_handshake, samples_from_le_bytes, streaming_step,
    CaptureAction, CaptureEvent, HandshakeOutcome, PollOutcome, SampleBuffer, StopReason,
    WakeState, FALLBACK_SAMPLE_RATE,
};

fn sample_of(outcome: PollOutcome) -> Option<u32> {
    match outcome {
        PollOutcome::Sample(bits) => Some(bits),
        _ => None,
    }
}

#[test]
fn poll_on_open_empty_stream_is_pending() {
    let mut buffer = SampleBuffer::new();
    let mut wake: WakeState<u32> = WakeState::new();
    let outcome = poll_sample(&mut buffer, &mut wake, 7);
    assert!(matches!(outcome, PollOutcome::Pending));
}

#[test]
fn poll_returns_buffered_sample_first() {
    let mut buffer = SampleBuffer::new();
    let mut wake: WakeState<u32> = WakeState::new();
    buffer.push_batch(&vec![11, 22]);
    assert_eq!(sample_of(poll_sample(&mut buffer, &mut wake, 1)), Some(11));
    assert_eq!(sample_of(poll_sample(&mut buffer, &mut wake, 2)), Some(22));
    assert!(matches!(poll_sample(&mut buffer, &mut wake, 3), PollOutcome::Pending));
}

#[test]
fn poll_after_shutdown_is_closed_idempotently() {
    let mut buffer = SampleBuffer::new();
    let mut wake: WakeState<u32> = WakeState::new();
    buffer.push_batch(&vec![11]);
    wake.request_shutdown();
    // A closed stream never produces again, even with buffered samples.
    assert!(matches!(poll_sample(&mut buffer, &mut wake, 1), PollOutcome::Closed));
    assert!(matches!(poll_sample(&mut buffer, &mut wake, 2), PollOutcome::Closed));
}

#[test]
fn delivery_after_pending_wakes_the_parked_consumer() {
    let mut buffer = SampleBuffer::new();
    let mut wake: WakeState<u32> = WakeState::new();

    // Consumer suspends: poll finds nothing and parks continuation 42.
    assert!(matches!(poll_sample(&mut buffer, &mut wake, 42), PollOutcome::Pending));

    // Producer delivers strictly afterwards: the parked continuation comes
    // back for invocation, and the next poll returns the sample.
    let (dropped, woken) = deliver_samples(&mut buffer, &mut wake, &vec![5]);
    assert_eq!(dropped, 0);
    assert_eq!(woken, Some(42));
    assert_eq!(sample_of(poll_sample(&mut buffer, &mut wake, 43)), Some(5));
}

#[test]
fn repeated_race_of_delivery_against_registration_never_stalls() {
    // Alternate registration and delivery many times: every pending poll is
    // followed by a delivery that hands the continuation back, and the next
    // poll always finds the sample.
    let mut buffer = SampleBuffer::new();
    let mut wake: WakeState<u32> = WakeState::new();
    for round in 0..10_000u32 {
        assert!(matches!(poll_sample(&mut buffer, &mut wake, round), PollOutcome::Pending));
        let (_, woken) = deliver_samples(&mut buffer, &mut wake, &vec![round]);
        assert_eq!(woken, Some(round), "stalled at round {}", round);
        assert_eq!(sample_of(poll_sample(&mut buffer, &mut wake, round)), Some(round));
    }
}

#[test]
fn second_delivery_without_poll_wakes_nobody() {
    let mut buffer = SampleBuffer::new();
    let mut wake: WakeState<u32> = WakeState::new();
    assert!(matches!(poll_sample(&mut buffer, &mut wake, 1), PollOutcome::Pending));
    let (_, woken) = deliver_samples(&mut buffer, &mut wake, &vec![8]);
    assert_eq!(woken, Some(1));
    // The data flag is still up: no second wake for the second delivery.
    let (_, woken) = deliver_samples(&mut buffer, &mut wake, &vec![9]);
    assert_eq!(woken, None);
}

#[test]
fn empty_delivery_wakes_nobody() {
    let mut buffer = SampleBuffer::new();
    let mut wake: WakeState<u32> = WakeState::new();
    assert!(matches!(poll_sample(&mut buffer, &mut wake, 1), PollOutcome::Pending));
    let (dropped, woken) = deliver_samples(&mut buffer, &mut wake, &vec![]);
    assert_eq!(dropped, 0);
    assert_eq!(woken, None);
}

#[test]
fn streaming_step_decisions() {
    assert!(matches!(
        streaming_step(CaptureEvent::ShutdownSeen),
        CaptureAction::Stop(StopReason::Clean)
    ));
    assert!(matches!(
        streaming_step(CaptureEvent::EventTimeout),
        CaptureAction::Stop(StopReason::Timeout)
    ));
    assert!(matches!(streaming_step(CaptureEvent::ReadFailed), CaptureAction::Idle));
    assert!(matches!(streaming_step(CaptureEvent::Data(vec![0, 0])), CaptureAction::Idle));
    match streaming_step(CaptureEvent::Data(vec![0x00, 0x00, 0x80, 0x3F, 0xAA])) {
        CaptureAction::Deliver(samples) => {
            assert_eq!(samples, vec![0x3F80_0000]);
        }
        _ => panic!("four complete bytes must be delivered"),
    }
}

#[test]
fn handshake_resolution() {
    assert_eq!(resolve_handshake(HandshakeOutcome::Ready(48_000)), 48_000);
    assert_eq!(resolve_handshake(HandshakeOutcome::Failed), FALLBACK_SAMPLE_RATE);
    assert_eq!(resolve_handshake(HandshakeOutcome::TimedOut), 44_100);
}

#[test]
fn byte_conversion_little_endian() {
    // Little-endian IEEE-754 bytes of 1.0 become the sample 1.0.
    let samples = samples_from_le_bytes(&vec![0x00, 0x00, 0x80, 0x3F]);
    assert_eq!(samples.len(), 1);
    assert_eq!(f32::from_bits(samples[0]), 1.0f32);
}

#[test]
fn byte_conversion_drops_trailing_partial_group() {
    // Three trailing bytes with no completing byte are dropped in this read.
    let samples = samples_from_le_bytes(&vec![0x00, 0x00, 0x80, 0x3F, 0x01, 0x02, 0x03]);
    assert_eq!(samples.len(), 1);
    let samples = samples_from_le_bytes(&vec![0x01, 0x02, 0x03]);
    assert!(samples.is_empty());
}

#[test]
fn byte_conversion_keeps_order() {
    let bytes = vec![1, 0, 0, 0, 2, 0, 0, 0, 3, 0, 0, 0];
    let samples = samples_from_le_bytes(&bytes);
    assert_eq!(samples, vec![1, 2, 3]);
}
