//! The presentation loop of the live preview.
//!
//! The loop owns no window and draws nothing.  The caller turns each event
//! of its windowing system into a [`LoopEvent`], asks [`react`] what to do,
//! and does it.  The loop presents the texture that a render has filled; it
//! never starts a render of its own.

use vstd::prelude::*;

verus! {

/// Time between two presented frames, in nanoseconds: a sixtieth of a
/// second.
pub const FRAME_PERIOD_NANOS: u64 = 16_666_667;

/// Whether the loop is still presenting.
#[derive(Debug, Clone, Copy, PartialEq, Eq)]
pub enum LoopState {
    Running,
    Terminated,
}

/// What the windowing system delivers.
#[derive(Debug, Clone, Copy, PartialEq, Eq)]
pub enum LoopEvent {
    /// The loop has just started.
    Started,
    /// The time set for the next frame has come.
    FrameDue,
    /// The user asked to close the window.
    CloseRequested,
    /// The window changed size.
    Resized,
    /// Anything else.
    Other,
}

/// What the caller is to do about an event.
#[derive(Debug, Clone, Copy, PartialEq, Eq)]
pub enum LoopAction {
    /// Clear the screen, draw the full-screen quad that samples the
    /// texture, present the frame, and wake again after `wait_nanos`.
    Present { wait_nanos: u64 },
    /// Nothing; keep waiting as before.
    Skip,
    /// Leave the loop, without drawing and without setting a wake-up time.
    Exit,
}

/// The state after `event` and the action that answers it.
///
/// A running loop presents on start-up and whenever a frame is due, stops
/// on a close request, and lets everything else pass.  A terminated loop
/// stays terminated and only ever asks to exit.
pub open spec fn react_spec(state: LoopState, event: LoopEvent) -> (LoopState, LoopAction) {
    match state {
        LoopState::Terminated => (LoopState::Terminated, LoopAction::Exit),
        LoopState::Running => match event {
            LoopEvent::CloseRequested => (LoopState::Terminated, LoopAction::Exit),
            LoopEvent::Started | LoopEvent::FrameDue => (
                LoopState::Running,
                LoopAction::Present { wait_nanos: FRAME_PERIOD_NANOS },
            ),
            LoopEvent::Resized | LoopEvent::Other => (LoopState::Running, LoopAction::Skip),
        },
    }
}

/// Decides what the loop does about `event`.
pub fn react(state: LoopState, event: LoopEvent) -> (r: (LoopState, LoopAction))
    ensures
        r == react_spec(state, event),
{
    match state {
        LoopState::Terminated => (LoopState::Terminated, LoopAction::Exit),
        LoopState::Running => match event {
            LoopEvent::CloseRequested => (LoopState::Terminated, LoopAction::Exit),
            LoopEvent::Started | LoopEvent::FrameDue => (
                LoopState::Running,
                LoopAction::Present { wait_nanos: FRAME_PERIOD_NANOS },
            ),
            LoopEvent::Resized | LoopEvent::Other => (LoopState::Running, LoopAction::Skip),
        },
    }
}

/// The state of a loop that started running and has since seen the first
/// `n` of `events`.
pub open spec fn state_after(events: Seq<LoopEvent>, n: nat) -> LoopState
    decreases n,
{
    if n == 0 {
        LoopState::Running
    } else {
        react_spec(state_after(events, (n - 1) as nat), events[n - 1]).0
    }
}

/// The action taken on the event at position `n` of `events`.
pub open spec fn action_at(events: Seq<LoopEvent>, n: nat) -> LoopAction {
    react_spec(state_after(events, n), events[n as int]).1
}

/// A close request ends the loop at once: the request itself and every
/// event after it are answered with `Exit`, so that nothing is drawn and no
/// wake-up is set from then on.
pub proof fn lemma_close_is_final(events: Seq<LoopEvent>, close: nat, later: nat)
    requires
        close <= later < events.len(),
        events[close as int] == LoopEvent::CloseRequested,
    ensures
        action_at(events, later) == LoopAction::Exit,
        state_after(events, later + 1) == LoopState::Terminated,
    decreases later - close,
{
    if later > close {
        lemma_close_is_final(events, close, (later - 1) as nat);
    }
}

/// Until a close request arrives the loop keeps running, and it draws
/// exactly on start-up and when a frame is due, always one frame period
/// ahead.
pub proof fn lemma_runs_until_closed(events: Seq<LoopEvent>, n: nat)
    requires
        n < events.len(),
        forall|i: int| 0 <= i < n ==> events[i] != LoopEvent::CloseRequested,
    ensures
        state_after(events, n) == LoopState::Running,
        action_at(events, n) == react_spec(LoopState::Running, events[n as int]).1,
        action_at(events, n) is Present <==> (events[n as int] == LoopEvent::Started || events[n as int]
            == LoopEvent::FrameDue),
        action_at(events, n) is Present ==> action_at(events, n) == (LoopAction::Present {
            wait_nanos: FRAME_PERIOD_NANOS,
        }),
    decreases n,
{
    if n > 0 {
        lemma_runs_until_closed(events, (n - 1) as nat);
    }
}

} // verus!
