//! The capture engine's decision logic. The dedicated capture thread and the
//! OS audio calls live outside the library; every decision they act on is a
//! function here, stated over the sample queue and the wake cell.
//!
//! Two independent exclusions guard the queue and the wake cell, never held
//! nested. The composite operations below take both structures in the order
//! the protocol acquires their locks, one at a time.

use vstd::prelude::*;

use crate::buffer::{buffer_after_push, dropped_count, SampleBuffer};
use crate::convert::{sample_at, samples_from_le_bytes};
use crate::wake::{after_notify, notify_taken, WakeState};

verus! {

/// Declared sample rate when the startup handshake fails or times out:
/// streaming proceeds degraded rather than aborting, though no samples will
/// arrive in that branch.
pub const FALLBACK_SAMPLE_RATE: u32 = 44100;

/// How long the caller starting a stream waits for the open/negotiate
/// handshake before declaring the fallback rate.
pub const HANDSHAKE_TIMEOUT_SECS: u64 = 5;

/// How long one pass of the streaming loop waits for the device's
/// data-ready event; exceeding it is fatal, since a healthy device never
/// goes this long without an event at capture rates.
pub const EVENT_WAIT_TIMEOUT_MS: u32 = 3000;

/// Why the capture thread left its streaming loop.
pub enum StopReason {
    /// The consumer requested shutdown.
    Clean,
    /// The device went silent past the event-wait bound.
    Timeout,
    /// Opening or negotiating with the device failed.
    Failure,
}

/// The engine's lifecycle. Terminal states are absorbing: no further
/// samples, no resurrection.
pub enum EngineState {
    Initializing,
    Streaming,
    Stopped(StopReason),
}

/// What the capture thread observed in one pass of its loop.
pub enum CaptureEvent {
    /// The shutdown flag was set when the pass began.
    ShutdownSeen,
    /// The device's data-ready event did not fire within the wait bound.
    EventTimeout,
    /// A read from the device failed; treated as transient.
    ReadFailed,
    /// Raw bytes drained from the device.
    Data(Vec<u8>),
}

/// What the capture thread must do next.
pub enum CaptureAction {
    /// Leave the loop and release the device.
    Stop(StopReason),
    /// Keep looping without delivering anything.
    Idle,
    /// Append these samples and notify the consumer.
    Deliver(Vec<u32>),
}

/// One consumer poll outcome.
pub enum PollOutcome {
    /// The stream is closed and never produces again.
    Closed,
    /// The oldest buffered sample.
    Sample(u32),
    /// Nothing buffered; a continuation is parked for the next delivery.
    Pending,
}

/// The streaming-loop decision for one observed event: a seen shutdown flag
/// stops the loop cleanly, an event-wait timeout stops it as fatal, a failed
/// read is absorbed, and drained bytes become samples — delivered only when
/// at least one complete 4-byte group arrived. A trailing partial group is
/// dropped with its read, not carried into the next one: up to 3 bytes per
/// read can be lost at the boundary, a documented policy of this engine.
pub fn streaming_step(event: CaptureEvent) -> (action: CaptureAction)
    ensures
        event is ShutdownSeen ==> action == CaptureAction::Stop(StopReason::Clean),
        event is EventTimeout ==> action == CaptureAction::Stop(StopReason::Timeout),
        event is ReadFailed ==> action == CaptureAction::Idle,
        event matches CaptureEvent::Data(bytes) ==> if bytes@.len() < 4 {
            action == CaptureAction::Idle
        } else {
            action matches CaptureAction::Deliver(samples) && samples@.len() == bytes@.len() / 4
                && (forall|i: int|
                0 <= i < samples@.len() ==> samples@[i] == sample_at(bytes@, i))
        },
{
    match event {
        CaptureEvent::ShutdownSeen => CaptureAction::Stop(StopReason::Clean),
        CaptureEvent::EventTimeout => CaptureAction::Stop(StopReason::Timeout),
        CaptureEvent::ReadFailed => CaptureAction::Idle,
        CaptureEvent::Data(bytes) => {
            if bytes.len() < 4 {
                CaptureAction::Idle
            } else {
                CaptureAction::Deliver(samples_from_le_bytes(&bytes))
            }
        },
    }
}

/// The engine state after `event` is observed in `state`.
pub open spec fn spec_engine_step(state: EngineState, event: CaptureEvent) -> EngineState {
    match state {
        EngineState::Stopped(_) => state,
        EngineState::Initializing => state,
        EngineState::Streaming => match event {
            CaptureEvent::ShutdownSeen => EngineState::Stopped(StopReason::Clean),
            CaptureEvent::EventTimeout => EngineState::Stopped(StopReason::Timeout),
            CaptureEvent::ReadFailed => EngineState::Streaming,
            CaptureEvent::Data(_) => EngineState::Streaming,
        },
    }
}

/// The engine state after the startup handshake: streaming on success, else
/// stopped with the failure recorded; the thread exits without entering the
/// loop.
pub open spec fn spec_after_handshake(ok: bool) -> EngineState {
    if ok {
        EngineState::Streaming
    } else {
        EngineState::Stopped(StopReason::Failure)
    }
}

/// Terminal states are absorbing: once stopped, no event moves the engine
/// again, and only a streaming engine ever stops for a new reason.
pub proof fn lemma_stopped_is_absorbing(state: EngineState, event: CaptureEvent)
    requires
        state is Stopped,
    ensures
        spec_engine_step(state, event) == state,
{
}

/// A failed or timed-out handshake leaves the engine stopped for good: the
/// capture thread exits without entering the streaming loop, so no samples
/// ever arrive in that branch, whatever events follow.
pub proof fn lemma_failed_handshake_is_final(event: CaptureEvent)
    ensures
        spec_after_handshake(false) is Stopped,
        spec_engine_step(spec_after_handshake(false), event) == spec_after_handshake(false),
{
}

/// The outcome of the startup handshake, as seen by the caller that waited
/// on it.
pub enum HandshakeOutcome {
    /// The device was opened and this rate negotiated.
    Ready(u32),
    /// The capture thread reported an initialization failure.
    Failed,
    /// No report arrived within the startup wait bound.
    TimedOut,
}

/// The sample rate a new stream declares: the negotiated rate when the
/// handshake succeeded, and the fallback sentinel when it failed or timed
/// out.
pub fn resolve_handshake(outcome: HandshakeOutcome) -> (rate: u32)
    ensures
        outcome matches HandshakeOutcome::Ready(negotiated) ==> rate == negotiated,
        !(outcome is Ready) ==> rate == FALLBACK_SAMPLE_RATE,
{
    match outcome {
        HandshakeOutcome::Ready(negotiated) => negotiated,
        HandshakeOutcome::Failed => FALLBACK_SAMPLE_RATE,
        HandshakeOutcome::TimedOut => FALLBACK_SAMPLE_RATE,
    }
}

/// The producer's delivery: appends `batch` to the queue (evicting oldest
/// entries on overflow) and then notifies through the wake cell. Returns the
/// eviction count, to be logged as a buffer-overflow warning when nonzero,
/// and the continuation to invoke once the wake exclusion is released.
/// An empty batch changes nothing and wakes nobody.
pub fn deliver_samples<W>(
    buffer: &mut SampleBuffer,
    wake: &mut WakeState<W>,
    batch: &Vec<u32>,
) -> (r: (usize, Option<W>))
    requires
        old(buffer).wf(),
    ensures
        final(buffer).wf(),
        batch@.len() == 0 ==> final(buffer)@ == old(buffer)@ && *final(wake) == *old(wake) && r.0
            == 0 && r.1 is None,
        batch@.len() > 0 ==> final(buffer)@ == buffer_after_push(old(buffer)@, batch@) && r.0
            == dropped_count(old(buffer)@, batch@) && *final(wake) == after_notify(*old(wake))
            && r.1 == notify_taken(*old(wake)),
{
    if batch.len() == 0 {
        return (0, None);
    }
    let dropped = buffer.push_batch(batch);
    let woken = wake.notify();
    (dropped, woken)
}

/// One consumer poll, in the order the protocol acquires the two exclusions:
/// a shut-down stream is closed and never produces again; otherwise the
/// oldest buffered sample is returned without touching the wake cell; with
/// nothing buffered, the continuation is parked (data flag down) and the
/// queue is checked once more before the consumer suspends, so a delivery
/// racing with registration is never missed.
pub fn poll_sample<W>(buffer: &mut SampleBuffer, wake: &mut WakeState<W>, waker: W) -> (outcome:
    PollOutcome)
    requires
        old(buffer).wf(),
    ensures
        final(buffer).wf(),
        old(wake).shutdown ==> outcome == PollOutcome::Closed && final(buffer)@ == old(buffer)@
            && *final(wake) == *old(wake),
        !old(wake).shutdown && old(buffer)@.len() > 0 ==> outcome == PollOutcome::Sample(
            old(buffer)@[0],
        ) && final(buffer)@ == old(buffer)@.drop_first() && *final(wake) == *old(wake),
        !old(wake).shutdown && old(buffer)@.len() == 0 ==> outcome == PollOutcome::Pending
            && final(buffer)@ == old(buffer)@ && final(wake).waker == Some(waker)
            && !final(wake).has_data && !final(wake).shutdown,
{
    if wake.is_shutdown() {
        return PollOutcome::Closed;
    }
    match buffer.pop() {
        Some(sample) => {
            return PollOutcome::Sample(sample);
        },
        None => {},
    }
    let closed = wake.register(waker);
    if closed {
        return PollOutcome::Closed;
    }
    match buffer.pop() {
        Some(sample) => PollOutcome::Sample(sample),
        None => PollOutcome::Pending,
    }
}

} // verus!
