use vstd::prelude::*;
use crate::configs::UPDATE_INTERVAL_MS;

verus! {

// ---------------------------------------------------------------------------
// Producer: reads chunks from the audio source and sends them on.
// ---------------------------------------------------------------------------

/// What the producer loop does next.
#[derive(Debug, Clone, Copy, PartialEq, Eq)]
pub enum ProducerState {
    /// Look at the shutdown flag.
    CheckShutdown,
    /// Ask the source for the next chunk.
    ReadChunk,
    /// Send the chunk just read, stamped with the current time.
    SendFrame,
    /// Leave the loop.
    Stopped,
}

/// What the producer loop learned from its last action.
#[derive(Debug, Clone, Copy, PartialEq, Eq)]
pub enum ProducerEvent {
    ShutdownChecked { requested: bool },
    ChunkRead { available: bool },
    FrameSent { delivered: bool },
}

/// The producer's next state. It stops when shutdown is requested, when the
/// source has no more chunks, or when nobody receives the frames any more;
/// a report that does not answer the current action changes nothing.
pub open spec fn producer_next(state: ProducerState, event: ProducerEvent) -> ProducerState {
    match (state, event) {
        (ProducerState::CheckShutdown, ProducerEvent::ShutdownChecked { requested }) => if requested {
            ProducerState::Stopped
        } else {
            ProducerState::ReadChunk
        },
        (ProducerState::ReadChunk, ProducerEvent::ChunkRead { available }) => if available {
            ProducerState::SendFrame
        } else {
            ProducerState::Stopped
        },
        (ProducerState::SendFrame, ProducerEvent::FrameSent { delivered }) => if delivered {
            ProducerState::CheckShutdown
        } else {
            ProducerState::Stopped
        },
        _ => state,
    }
}

/// Advances the producer loop by one report.
pub fn producer_step(state: ProducerState, event: ProducerEvent) -> (next: ProducerState)
    ensures
        next == producer_next(state, event),
{
    match (state, event) {
        (ProducerState::CheckShutdown, ProducerEvent::ShutdownChecked { requested }) => if requested {
            ProducerState::Stopped
        } else {
            ProducerState::ReadChunk
        },
        (ProducerState::ReadChunk, ProducerEvent::ChunkRead { available }) => if available {
            ProducerState::SendFrame
        } else {
            ProducerState::Stopped
        },
        (ProducerState::SendFrame, ProducerEvent::FrameSent { delivered }) => if delivered {
            ProducerState::CheckShutdown
        } else {
            ProducerState::Stopped
        },
        _ => state,
    }
}

/// The producer sends a frame only right after the source handed it a
/// chunk, and it leaves the loop only on a shutdown request, at the end of
/// the source, or when the receiver is gone; once stopped it stays stopped.
pub proof fn lemma_producer_stops_only_for_cause(state: ProducerState, event: ProducerEvent)
    ensures
        producer_next(state, event) == ProducerState::SendFrame ==> state == ProducerState::SendFrame
            || (state == ProducerState::ReadChunk && event == (ProducerEvent::ChunkRead { available: true })),
        producer_next(state, event) == ProducerState::Stopped && state != ProducerState::Stopped ==> {
            ||| event == (ProducerEvent::ShutdownChecked { requested: true })
            ||| event == (ProducerEvent::ChunkRead { available: false })
            ||| event == (ProducerEvent::FrameSent { delivered: false })
        },
        state == ProducerState::Stopped ==> producer_next(state, event) == ProducerState::Stopped,
{
}

/// Each action of the producer leads to the next one of its round: after
/// the shutdown check comes a read (or the end), after a chunk comes its
/// sending, after a delivered frame comes the next shutdown check; no state
/// follows itself except `Stopped`, and a report that does not answer the
/// current action leaves the state as it is.
pub proof fn lemma_producer_round(state: ProducerState, event: ProducerEvent, flag: bool)
    ensures
        producer_next(ProducerState::CheckShutdown, ProducerEvent::ShutdownChecked { requested: flag })
            == (if flag {
            ProducerState::Stopped
        } else {
            ProducerState::ReadChunk
        }),
        producer_next(ProducerState::ReadChunk, ProducerEvent::ChunkRead { available: flag }) == (if flag {
            ProducerState::SendFrame
        } else {
            ProducerState::Stopped
        }),
        producer_next(ProducerState::SendFrame, ProducerEvent::FrameSent { delivered: flag }) == (if flag {
            ProducerState::CheckShutdown
        } else {
            ProducerState::Stopped
        }),
        (state == ProducerState::CheckShutdown && !(event is ShutdownChecked)) || (state
            == ProducerState::ReadChunk && !(event is ChunkRead)) || (state == ProducerState::SendFrame
            && !(event is FrameSent)) ==> producer_next(state, event) == state,
{
}

// ---------------------------------------------------------------------------
// Processing: turns chunks of samples into band levels.
// ---------------------------------------------------------------------------

/// What the processing loop does next.
#[derive(Debug, Clone, Copy, PartialEq, Eq)]
pub enum ProcessingState {
    /// Look at the shutdown flag.
    CheckShutdown,
    /// Wait a short while for the next chunk.
    AwaitFrame,
    /// Compute the band levels of the chunk just received and send them on.
    ProcessFrame,
    /// Leave the loop.
    Stopped,
}

/// What the processing loop learned from its last action.
#[derive(Debug, Clone, Copy, PartialEq, Eq)]
pub enum ProcessingEvent {
    ShutdownChecked { requested: bool },
    /// A chunk arrived; `sample_count` is its number of samples.
    FrameReceived { sample_count: usize },
    /// No chunk arrived in time.
    TimedOut,
    /// The sending side is gone.
    Disconnected,
    /// The band levels were handed on, or could not be.
    ResultSent { delivered: bool },
}

/// The processing loop's next state. Empty chunks are skipped, a wait
/// without a chunk goes back to the shutdown check, a failed send is only
/// reported and the loop goes on; it stops on a shutdown request or when
/// the sending side is gone.
pub open spec fn processing_next(state: ProcessingState, event: ProcessingEvent) -> ProcessingState {
    match (state, event) {
        (ProcessingState::CheckShutdown, ProcessingEvent::ShutdownChecked { requested }) => if requested {
            ProcessingState::Stopped
        } else {
            ProcessingState::AwaitFrame
        },
        (ProcessingState::AwaitFrame, ProcessingEvent::FrameReceived { sample_count }) => if sample_count
            == 0 {
            ProcessingState::CheckShutdown
        } else {
            ProcessingState::ProcessFrame
        },
        (ProcessingState::AwaitFrame, ProcessingEvent::TimedOut) => ProcessingState::CheckShutdown,
        (ProcessingState::AwaitFrame, ProcessingEvent::Disconnected) => ProcessingState::Stopped,
        (ProcessingState::ProcessFrame, ProcessingEvent::ResultSent { .. }) => ProcessingState::CheckShutdown,
        _ => state,
    }
}

/// Advances the processing loop by one report.
pub fn processing_step(state: ProcessingState, event: ProcessingEvent) -> (next: ProcessingState)
    ensures
        next == processing_next(state, event),
{
    match (state, event) {
        (ProcessingState::CheckShutdown, ProcessingEvent::ShutdownChecked { requested }) => if requested {
            ProcessingState::Stopped
        } else {
            ProcessingState::AwaitFrame
        },
        (ProcessingState::AwaitFrame, ProcessingEvent::FrameReceived { sample_count }) => if sample_count
            == 0 {
            ProcessingState::CheckShutdown
        } else {
            ProcessingState::ProcessFrame
        },
        (ProcessingState::AwaitFrame, ProcessingEvent::TimedOut) => ProcessingState::CheckShutdown,
        (ProcessingState::AwaitFrame, ProcessingEvent::Disconnected) => ProcessingState::Stopped,
        (ProcessingState::ProcessFrame, ProcessingEvent::ResultSent { .. }) => ProcessingState::CheckShutdown,
        _ => state,
    }
}

/// Only non-empty chunks are processed; a failed send never ends the loop;
/// the loop ends only on a shutdown request or when the sending side is
/// gone, and once stopped it stays stopped.
pub proof fn lemma_processing_skips_empty_frames(state: ProcessingState, event: ProcessingEvent)
    ensures
        processing_next(state, event) == ProcessingState::ProcessFrame && state
            != ProcessingState::ProcessFrame ==> event is FrameReceived && event->sample_count > 0,
        event is ResultSent ==> processing_next(state, event) != ProcessingState::Stopped || state
            == ProcessingState::Stopped,
        processing_next(state, event) == ProcessingState::Stopped && state != ProcessingState::Stopped
            ==> event == (ProcessingEvent::ShutdownChecked { requested: true }) || event
            == ProcessingEvent::Disconnected,
        state == ProcessingState::Stopped ==> processing_next(state, event) == ProcessingState::Stopped,
{
}

/// A result that was handed on, delivered or not, leads back to the
/// shutdown check and so to the next chunk; a chunk is processed only right
/// after it arrived non-empty, so processing never follows processing.
pub proof fn lemma_processing_moves_on_after_sending(
    state: ProcessingState,
    event: ProcessingEvent,
    delivered: bool,
)
    ensures
        processing_next(ProcessingState::ProcessFrame, ProcessingEvent::ResultSent { delivered })
            == ProcessingState::CheckShutdown,
        processing_next(state, event) == ProcessingState::ProcessFrame ==> (state
            == ProcessingState::AwaitFrame && event is FrameReceived && event->sample_count > 0) || (state
            == ProcessingState::ProcessFrame && !(event is ResultSent)),
        processing_next(state, event) == ProcessingState::AwaitFrame ==> state
            == ProcessingState::AwaitFrame || (state == ProcessingState::CheckShutdown && event == (
        ProcessingEvent::ShutdownChecked { requested: false })),
        state == ProcessingState::AwaitFrame && (event is TimedOut || (event is FrameReceived
            && event->sample_count == 0)) ==> processing_next(state, event)
            == ProcessingState::CheckShutdown,
        state == ProcessingState::CheckShutdown && event is ShutdownChecked ==> (processing_next(
            state,
            event,
        ) == ProcessingState::Stopped <==> event->requested),
{
}

// ---------------------------------------------------------------------------
// Display: averages band levels over the frames received and redraws.
// ---------------------------------------------------------------------------

/// Whether the screen is due for a redraw: at least the update interval has
/// passed since the last redraw and at least one frame has come in.
pub open spec fn update_due(elapsed_ms: u128, count: usize) -> bool {
    elapsed_ms >= UPDATE_INTERVAL_MS && count > 0
}

/// Whether the screen is due for a redraw, `elapsed_ms` milliseconds after
/// the last one with `count` frames received since.
pub fn is_time_to_update(elapsed_ms: u128, count: usize) -> (due: bool)
    ensures
        due == update_due(elapsed_ms, count),
{
    elapsed_ms >= UPDATE_INTERVAL_MS as u128 && count > 0
}

/// What the display loop does next.
#[derive(Debug, Clone, Copy, PartialEq, Eq)]
pub enum DisplayPhase {
    /// Look at the shutdown flag.
    CheckShutdown,
    /// Wait a short while for the next band levels and add them up.
    AwaitFrame,
    /// Redraw the screen from the levels added up over `frames` frames,
    /// then clear the sums.
    Refresh { frames: usize },
    /// Leave the loop.
    Stopped,
}

/// What the display loop learned from its last action.
#[derive(Debug, Clone, Copy, PartialEq, Eq)]
pub enum DisplayEvent {
    ShutdownChecked { requested: bool },
    /// Band levels arrived and were added up; `elapsed_ms` have passed since
    /// the last redraw.
    FrameReceived { elapsed_ms: u128 },
    /// Nothing arrived in time.
    TimedOut,
    /// The sending side is gone.
    Disconnected,
    /// The screen was redrawn and the sums cleared.
    Refreshed,
}

/// The display loop: its next action and the number of frames added up
/// since the last redraw.
#[derive(Debug, Clone, Copy, PartialEq, Eq)]
pub struct DisplayLoop {
    pub phase: DisplayPhase,
    pub pending: usize,
}

/// The display loop after one report: frames are counted, a redraw is asked
/// for once it is due, and it empties the count.
pub open spec fn display_next(state: DisplayLoop, event: DisplayEvent) -> DisplayLoop {
    match (state.phase, event) {
        (DisplayPhase::CheckShutdown, DisplayEvent::ShutdownChecked { requested }) => DisplayLoop {
            phase: if requested {
                DisplayPhase::Stopped
            } else {
                DisplayPhase::AwaitFrame
            },
            ..state
        },
        (DisplayPhase::AwaitFrame, DisplayEvent::FrameReceived { elapsed_ms }) => {
            let count = (state.pending + 1) as usize;
            DisplayLoop {
                phase: if update_due(elapsed_ms, count) {
                    DisplayPhase::Refresh { frames: count }
                } else {
                    DisplayPhase::CheckShutdown
                },
                pending: count,
            }
        },
        (DisplayPhase::AwaitFrame, DisplayEvent::TimedOut) => DisplayLoop {
            phase: DisplayPhase::CheckShutdown,
            ..state
        },
        (DisplayPhase::AwaitFrame, DisplayEvent::Disconnected) => DisplayLoop {
            phase: DisplayPhase::Stopped,
            ..state
        },
        (DisplayPhase::Refresh { .. }, DisplayEvent::Refreshed) => DisplayLoop {
            phase: DisplayPhase::CheckShutdown,
            pending: 0,
        },
        _ => state,
    }
}

impl DisplayLoop {
    /// The loop before anything has arrived.
    pub fn new() -> (state: Self)
        ensures
            state == (DisplayLoop { phase: DisplayPhase::CheckShutdown, pending: 0 }),
    {
        DisplayLoop { phase: DisplayPhase::CheckShutdown, pending: 0 }
    }

    /// Advances the display loop by one report. The frame count must not
    /// overflow.
    pub fn step(&mut self, event: DisplayEvent)
        requires
            event is FrameReceived && old(self).phase == DisplayPhase::AwaitFrame ==> old(self).pending
                < usize::MAX,
        ensures
            *final(self) == display_next(*old(self), event),
    {
        match (self.phase, event) {
            (DisplayPhase::CheckShutdown, DisplayEvent::ShutdownChecked { requested }) => {
                self.phase = if requested {
                    DisplayPhase::Stopped
                } else {
                    DisplayPhase::AwaitFrame
                };
            },
            (DisplayPhase::AwaitFrame, DisplayEvent::FrameReceived { elapsed_ms }) => {
                let count = self.pending + 1;
                self.pending = count;
                self.phase = if is_time_to_update(elapsed_ms, count) {
                    DisplayPhase::Refresh { frames: count }
                } else {
                    DisplayPhase::CheckShutdown
                };
            },
            (DisplayPhase::AwaitFrame, DisplayEvent::TimedOut) => {
                self.phase = DisplayPhase::CheckShutdown;
            },
            (DisplayPhase::AwaitFrame, DisplayEvent::Disconnected) => {
                self.phase = DisplayPhase::Stopped;
            },
            (DisplayPhase::Refresh { .. }, DisplayEvent::Refreshed) => {
                self.phase = DisplayPhase::CheckShutdown;
                self.pending = 0;
            },
            _ => {},
        }
    }
}

/// A redraw is asked for only when the interval has passed, and it covers
/// every frame added up since the last redraw, at least one; after it the
/// count starts again from zero.
pub proof fn lemma_refresh_covers_pending_frames(state: DisplayLoop, event: DisplayEvent)
    requires
        state.pending < usize::MAX,
    ensures
        display_next(state, event).phase is Refresh && !(state.phase is Refresh) ==> {
            &&& event is FrameReceived
            &&& event->elapsed_ms >= UPDATE_INTERVAL_MS
            &&& display_next(state, event).phase->frames == state.pending + 1
            &&& display_next(state, event).pending == state.pending + 1
        },
        state.phase is Refresh && event == DisplayEvent::Refreshed ==> display_next(
            state,
            event,
        ).pending == 0,
{
}

/// A redraw is due exactly when the update interval has passed and at least
/// one frame came in; waiting longer never makes a due redraw undue, nor do
/// more frames.
pub proof fn lemma_update_due_exactly_after_interval(
    elapsed_ms: u128,
    later_ms: u128,
    count: usize,
    more: usize,
)
    ensures
        elapsed_ms >= UPDATE_INTERVAL_MS && count > 0 ==> update_due(elapsed_ms, count),
        update_due(elapsed_ms, count) ==> elapsed_ms >= UPDATE_INTERVAL_MS && count > 0,
        update_due(elapsed_ms, count) && later_ms >= elapsed_ms && more >= count ==> update_due(
            later_ms,
            more,
        ),
        elapsed_ms < UPDATE_INTERVAL_MS || count == 0 ==> !update_due(elapsed_ms, count),
{
}

/// The number of pending frames counts the frames received since the last
/// redraw: a received frame adds one, a finished redraw clears it, and every
/// other report (a time-out, a shutdown check, a disconnection, or a report
/// that does not answer the current action) leaves it as it is.
pub proof fn lemma_pending_counts_frames(state: DisplayLoop, event: DisplayEvent)
    requires
        state.pending < usize::MAX,
    ensures
        state.phase == DisplayPhase::AwaitFrame && event is FrameReceived ==> display_next(
            state,
            event,
        ).pending == state.pending + 1,
        state.phase is Refresh && event == DisplayEvent::Refreshed ==> display_next(state, event).pending
            == 0,
        !(state.phase == DisplayPhase::AwaitFrame && event is FrameReceived) && !(state.phase is Refresh
            && event == DisplayEvent::Refreshed) ==> display_next(state, event).pending == state.pending,
        event == DisplayEvent::TimedOut ==> display_next(state, event).pending == state.pending,
{
}

/// A frame leads to a redraw exactly when one is due with the frames now
/// pending, and the redraw averages over all of them; otherwise the loop
/// goes back to the shutdown check. Once stopped, the loop stays stopped.
pub proof fn lemma_frame_leads_to_redraw_when_due(state: DisplayLoop, elapsed_ms: u128)
    requires
        state.phase == DisplayPhase::AwaitFrame,
        state.pending < usize::MAX,
    ensures
        update_due(elapsed_ms, (state.pending + 1) as usize) ==> display_next(
            state,
            DisplayEvent::FrameReceived { elapsed_ms },
        ).phase == (DisplayPhase::Refresh { frames: (state.pending + 1) as usize }),
        elapsed_ms >= UPDATE_INTERVAL_MS ==> display_next(
            state,
            DisplayEvent::FrameReceived { elapsed_ms },
        ).phase == (DisplayPhase::Refresh { frames: (state.pending + 1) as usize }),
        elapsed_ms < UPDATE_INTERVAL_MS ==> display_next(
            state,
            DisplayEvent::FrameReceived { elapsed_ms },
        ).phase == DisplayPhase::CheckShutdown,
{
}

/// A stopped display loop stays stopped, whatever is reported.
pub proof fn lemma_display_stopped_is_final(state: DisplayLoop, event: DisplayEvent)
    requires
        state.phase == DisplayPhase::Stopped,
    ensures
        display_next(state, event) == state,
{
}

} // verus!
