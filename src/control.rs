use vstd::prelude::*;

verus! {

/// How long a discovery cycle may run before the loop moves on without it.
pub const CYCLE_TIMEOUT_MS: u64 = 60_000;

/// How long the loop waits after a failed cycle.
pub const ERROR_BACKOFF_MS: u64 = 3_000;

/// How long the loop takes inbound events between two cycles.
pub const EVENT_WINDOW_MS: u64 = 10_000;

/// What the control loop saw happen.
#[derive(Clone, Copy, Debug, PartialEq, Eq, Structural)]
pub enum LoopEvent {
    /// A discovery cycle ended, well or with an error.
    CycleFinished { ok: bool },
    /// A discovery cycle ran past `CYCLE_TIMEOUT_MS`.
    CycleTimedOut,
    /// The wait after a failed cycle is over.
    BackoffElapsed,
    /// Shutdown was asked for.
    Shutdown,
    /// A message of the core arrived, and it could or could not be read.
    Inbound { parsed: bool },
    /// The inbox of core messages is closed.
    InboxClosed,
    /// The event window ended.
    WindowElapsed,
}

/// What the control loop does next.
#[derive(Clone, Copy, Debug, PartialEq, Eq, Structural)]
pub enum LoopAction {
    /// Sleep this long, then take events.
    Backoff { ms: u64 },
    /// Take inbound events for this long.
    OpenWindow { ms: u64 },
    /// Stay in the event window.
    KeepWaiting,
    /// Run the next discovery cycle.
    StartCycle,
    /// End the loop.
    Stop,
}

/// The control loop's decision on an event: back off after a failed cycle,
/// open the event window after a cycle that ended or timed out and after
/// the back-off, keep the
/// window open while messages are read, start the next cycle when a message
/// cannot be read, the inbox closes or the window ends, and stop on shutdown.
pub fn control_step(ev: &LoopEvent) -> (a: LoopAction)
    ensures
        *ev == (LoopEvent::CycleFinished { ok: false }) ==> a == (LoopAction::Backoff {
            ms: ERROR_BACKOFF_MS,
        }),
        (*ev == (LoopEvent::CycleFinished { ok: true }) || *ev == LoopEvent::CycleTimedOut || *ev
            == LoopEvent::BackoffElapsed) ==> a == (LoopAction::OpenWindow { ms: EVENT_WINDOW_MS }),
        *ev == LoopEvent::Shutdown ==> a == LoopAction::Stop,
        *ev == (LoopEvent::Inbound { parsed: true }) ==> a == LoopAction::KeepWaiting,
        (*ev == (LoopEvent::Inbound { parsed: false }) || *ev == LoopEvent::InboxClosed || *ev
            == LoopEvent::WindowElapsed) ==> a == LoopAction::StartCycle,
{
    match ev {
        LoopEvent::CycleFinished { ok } => if *ok {
            LoopAction::OpenWindow { ms: EVENT_WINDOW_MS }
        } else {
            LoopAction::Backoff { ms: ERROR_BACKOFF_MS }
        },
        LoopEvent::CycleTimedOut => LoopAction::OpenWindow { ms: EVENT_WINDOW_MS },
        LoopEvent::BackoffElapsed => LoopAction::OpenWindow { ms: EVENT_WINDOW_MS },
        LoopEvent::Shutdown => LoopAction::Stop,
        LoopEvent::Inbound { parsed } => if *parsed {
            LoopAction::KeepWaiting
        } else {
            LoopAction::StartCycle
        },
        LoopEvent::InboxClosed => LoopAction::StartCycle,
        LoopEvent::WindowElapsed => LoopAction::StartCycle,
    }
}

} // verus!
