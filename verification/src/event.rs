//! Input events as the loop sees them, and the calls one iteration makes.

use vstd::prelude::*;

verus! {

/// Ceiling, in milliseconds, on how long one poll of the input queue may
/// wait: the drain never blocks longer than this when no event is pending,
/// and stops at the first poll that reports none.
pub const POLL_CEILING_MILLIS: u64 = 10;

/// One input event drained from the terminal, with every payload reduced to a
/// plain value: key and mouse payloads are opaque codes to the loop, and a
/// resize carries the new width and height in terminal cells.
#[derive(Clone, Copy, Debug, PartialEq, Eq, Structural)]
pub enum InputEvent {
    Key(u64),
    Mouse(u64),
    Resize(u16, u16),
}

/// One call the loop makes against its collaborators during an iteration, in
/// the order the iteration's plan lists them: dispatches to the game state's
/// input handlers, the fixed-step update, the render pass, and the pacing
/// sleep with its duration in nanoseconds.
#[derive(Clone, Copy, Debug, PartialEq, Eq, Structural)]
pub enum Action {
    DispatchKey(u64),
    DispatchMouse(u64),
    ResizeViewport(usize, usize),
    Update,
    HideCursor,
    RenderStatus,
    RenderMap,
    Flush,
    SleepNanos(u64),
}

/// Where an event is dispatched: key events to the key handler, mouse events
/// to the mouse handler, resize events to the viewport-resize handler with
/// the new dimensions widened to `usize`.
pub open spec fn dispatch_of(e: InputEvent) -> Action {
    match e {
        InputEvent::Key(code) => Action::DispatchKey(code),
        InputEvent::Mouse(payload) => Action::DispatchMouse(payload),
        InputEvent::Resize(w, h) => Action::ResizeViewport(w as usize, h as usize),
    }
}

/// Turns one drained event into the dispatch call it is owed.
pub fn dispatch_event(e: &InputEvent) -> (a: Action)
    ensures
        a == dispatch_of(*e),
{
    match e {
        InputEvent::Key(code) => Action::DispatchKey(*code),
        InputEvent::Mouse(payload) => Action::DispatchMouse(*payload),
        InputEvent::Resize(w, h) => Action::ResizeViewport(*w as usize, *h as usize),
    }
}

} // verus!
