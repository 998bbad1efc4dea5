//! The event-loop state machine that drives the render program.
//!
//! An external driver owns the window library's event loop and delivers one
//! event at a time; `step` decides the next phase and what the driver should
//! do, and the driver performs it (create the window and surface, render a
//! frame, or stop the loop). Suspension happens only at the driver's
//! event-wait point, never inside this logic.

use vstd::prelude::*;

verus! {

/// Where the application is in its life cycle.
#[derive(Clone, Copy, Debug, PartialEq, Eq, Structural)]
pub enum Phase {
    /// No window or GPU state exists yet.
    Uninitialized,
    /// The window, surface and pipeline are set up; frames can be drawn.
    Running,
    /// The loop has exited; nothing further happens.
    Terminated,
}

/// One event the driver delivers.
#[derive(Clone, Copy, Debug, PartialEq, Eq, Structural)]
pub enum LoopEvent {
    /// The loop has started (or resumed): the window can be created.
    Resumed,
    /// The user asked to close the window.
    CloseRequested,
    /// The user pressed the escape key.
    EscapePressed,
    /// The window wants to be redrawn.
    RedrawRequested,
    /// Any other window event.
    Other,
}

/// What the driver must do after a step.
#[derive(Clone, Copy, Debug, PartialEq, Eq, Structural)]
pub enum Action {
    /// Create the window, attach the surface, build the GPU state, and
    /// request a first redraw.
    Initialize,
    /// Render one frame and request the next redraw.
    RenderFrame,
    /// Exit the event loop.
    Exit,
    /// Do nothing.
    Ignore,
}

/// The transition table. Window events are acted on only once the GPU state
/// exists, so a close request or key press before initialization is ignored;
/// termination is final.
pub open spec fn spec_step(p: Phase, e: LoopEvent) -> (Phase, Action) {
    match (p, e) {
        (Phase::Terminated, _) => (Phase::Terminated, Action::Ignore),
        (_, LoopEvent::Resumed) => (Phase::Running, Action::Initialize),
        (Phase::Uninitialized, _) => (Phase::Uninitialized, Action::Ignore),
        (Phase::Running, LoopEvent::CloseRequested) => (Phase::Terminated, Action::Exit),
        (Phase::Running, LoopEvent::EscapePressed) => (Phase::Terminated, Action::Exit),
        (Phase::Running, LoopEvent::RedrawRequested) => (Phase::Running, Action::RenderFrame),
        (Phase::Running, LoopEvent::Other) => (Phase::Running, Action::Ignore),
    }
}

/// The phase the application has started in.
pub fn initial_phase() -> (p: Phase)
    ensures
        p == Phase::Uninitialized,
{
    Phase::Uninitialized
}

/// Handle one delivered event: the next phase and the action the driver
/// performs before waiting for the next event.
pub fn step(p: Phase, e: LoopEvent) -> (r: (Phase, Action))
    ensures
        r == spec_step(p, e),
        p is Running && (e is CloseRequested || e is EscapePressed) ==> r.0 is Terminated && r.1
            is Exit,
        p is Terminated ==> r.0 is Terminated && r.1 is Ignore,
        r.1 is RenderFrame ==> p is Running && r.0 is Running,
{
    match (p, e) {
        (Phase::Terminated, _) => (Phase::Terminated, Action::Ignore),
        (_, LoopEvent::Resumed) => (Phase::Running, Action::Initialize),
        (Phase::Uninitialized, _) => (Phase::Uninitialized, Action::Ignore),
        (Phase::Running, LoopEvent::CloseRequested) => (Phase::Terminated, Action::Exit),
        (Phase::Running, LoopEvent::EscapePressed) => (Phase::Terminated, Action::Exit),
        (Phase::Running, LoopEvent::RedrawRequested) => (Phase::Running, Action::RenderFrame),
        (Phase::Running, LoopEvent::Other) => (Phase::Running, Action::Ignore),
    }
}

/// The phase after a whole sequence of events has been delivered, oldest
/// first.
pub open spec fn run_events(p: Phase, events: Seq<LoopEvent>) -> Phase
    decreases events.len(),
{
    if events.len() == 0 {
        p
    } else {
        run_events(spec_step(p, events[0]).0, events.drop_first())
    }
}

/// A close request and an escape key press are handled alike: from the
/// running phase either one terminates the loop with an exit action.
pub proof fn lemma_termination_events(e: LoopEvent)
    requires
        e is CloseRequested || e is EscapePressed,
    ensures
        spec_step(Phase::Running, e) == (Phase::Terminated, Action::Exit),
{
}

/// Termination is absorbing: once the loop has terminated, any further
/// sequence of events leaves it terminated, and no single event can produce
/// another frame.
pub proof fn lemma_no_render_after_termination(events: Seq<LoopEvent>)
    ensures
        run_events(Phase::Terminated, events) == Phase::Terminated,
        forall|e: LoopEvent| (#[trigger] spec_step(Phase::Terminated, e)).1 != Action::RenderFrame,
    decreases events.len(),
{
    if events.len() > 0 {
        lemma_no_render_after_termination(events.drop_first());
    }
}

/// Any terminating event stops redraws for good: after a close request or an
/// escape key press reaches the running application, every later event is
/// ignored and none renders a frame.
pub proof fn lemma_close_stops_redraws(e: LoopEvent, later: Seq<LoopEvent>)
    requires
        e is CloseRequested || e is EscapePressed,
    ensures
        run_events(spec_step(Phase::Running, e).0, later) == Phase::Terminated,
        forall|i: int|
            0 <= i < later.len() ==> (#[trigger] spec_step(Phase::Terminated, later[i])).1
                != Action::RenderFrame,
{
    lemma_no_render_after_termination(later);
}

} // verus!
