use sound_processor::configs::UPDATE_INTERVAL_MS;
use sound_processor::pipeline::{
    is_time_to_update, processing_step, producer_step, DisplayEvent, DisplayLoop, DisplayPhase,
    ProcessingEvent, ProcessingState, ProducerEvent, ProducerState,
};
use std::time::{Duration, Instant};

#[test]
fn update_is_false_when_no_frames_arrived() {
    let last = Instant::now();

    assert!(!is_time_to_update(last.elapsed().as_millis(), 0));
}

#[test]
fn update_is_false_before_timeout() {
    let last = Instant::now();

    assert!(!is_time_to_update(last.elapsed().as_millis(), 1));
}

#[test]
fn update_is_true_after_timeout() {
    let last = Instant::now() - Duration::from_millis(UPDATE_INTERVAL_MS + 1);

    assert!(is_time_to_update(last.elapsed().as_millis(), 1));
}

#[test]
fn update_threshold_is_inclusive() {
    assert!(is_time_to_update(100, 3));
    assert!(!is_time_to_update(99, 3));
    assert!(!is_time_to_update(100_000, 0));
}

#[test]
fn producer_sends_each_chunk_until_shutdown() {
    let mut state = ProducerState::CheckShutdown;
    state = producer_step(state, ProducerEvent::ShutdownChecked { requested: false });
    assert_eq!(state, ProducerState::ReadChunk);
    state = producer_step(state, ProducerEvent::ChunkRead { available: true });
    assert_eq!(state, ProducerState::SendFrame);
    state = producer_step(state, ProducerEvent::FrameSent { delivered: true });
    assert_eq!(state, ProducerState::CheckShutdown);
    state = producer_step(state, ProducerEvent::ShutdownChecked { requested: true });
    assert_eq!(state, ProducerState::Stopped);
    state = producer_step(state, ProducerEvent::ShutdownChecked { requested: false });
    assert_eq!(state, ProducerState::Stopped);
}

#[test]
fn producer_stops_when_source_ends_or_receiver_leaves() {
    assert_eq!(
        producer_step(ProducerState::ReadChunk, ProducerEvent::ChunkRead { available: false }),
        ProducerState::Stopped
    );
    assert_eq!(
        producer_step(ProducerState::SendFrame, ProducerEvent::FrameSent { delivered: false }),
        ProducerState::Stopped
    );
    assert_eq!(
        producer_step(ProducerState::ReadChunk, ProducerEvent::FrameSent { delivered: false }),
        ProducerState::ReadChunk
    );
}

#[test]
fn processing_skips_empty_frames_and_handles_timeouts() {
    assert_eq!(
        processing_step(ProcessingState::AwaitFrame, ProcessingEvent::FrameReceived { sample_count: 0 }),
        ProcessingState::CheckShutdown
    );
    assert_eq!(
        processing_step(ProcessingState::AwaitFrame, ProcessingEvent::FrameReceived { sample_count: 4096 }),
        ProcessingState::ProcessFrame
    );
    assert_eq!(
        processing_step(ProcessingState::AwaitFrame, ProcessingEvent::TimedOut),
        ProcessingState::CheckShutdown
    );
    assert_eq!(
        processing_step(ProcessingState::AwaitFrame, ProcessingEvent::Disconnected),
        ProcessingState::Stopped
    );
}

#[test]
fn processing_continues_after_failed_send() {
    assert_eq!(
        processing_step(ProcessingState::ProcessFrame, ProcessingEvent::ResultSent { delivered: false }),
        ProcessingState::CheckShutdown
    );
    assert_eq!(
        processing_step(ProcessingState::CheckShutdown, ProcessingEvent::ShutdownChecked { requested: false }),
        ProcessingState::AwaitFrame
    );
    assert_eq!(
        processing_step(ProcessingState::CheckShutdown, ProcessingEvent::ShutdownChecked { requested: true }),
        ProcessingState::Stopped
    );
}

#[test]
fn display_refreshes_with_all_pending_frames() {
    let mut display = DisplayLoop::new();
    display.step(DisplayEvent::ShutdownChecked { requested: false });
    assert_eq!(display.phase, DisplayPhase::AwaitFrame);
    display.step(DisplayEvent::FrameReceived { elapsed_ms: 10 });
    assert_eq!(display.phase, DisplayPhase::CheckShutdown);
    assert_eq!(display.pending, 1);
    display.step(DisplayEvent::ShutdownChecked { requested: false });
    display.step(DisplayEvent::FrameReceived { elapsed_ms: 60 });
    assert_eq!(display.pending, 2);
    display.step(DisplayEvent::ShutdownChecked { requested: false });
    display.step(DisplayEvent::FrameReceived { elapsed_ms: 120 });
    assert_eq!(display.phase, DisplayPhase::Refresh { frames: 3 });
    display.step(DisplayEvent::Refreshed);
    assert_eq!(display.phase, DisplayPhase::CheckShutdown);
    assert_eq!(display.pending, 0);
}

#[test]
fn display_stops_on_shutdown_or_disconnect() {
    let mut display = DisplayLoop::new();
    display.step(DisplayEvent::ShutdownChecked { requested: true });
    assert_eq!(display.phase, DisplayPhase::Stopped);

    let mut display = DisplayLoop::new();
    display.step(DisplayEvent::ShutdownChecked { requested: false });
    display.step(DisplayEvent::TimedOut);
    assert_eq!(display.phase, DisplayPhase::CheckShutdown);
    display.step(DisplayEvent::ShutdownChecked { requested: false });
    display.step(DisplayEvent::Disconnected);
    assert_eq!(display.phase, DisplayPhase::Stopped);
}
