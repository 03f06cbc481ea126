//! What the event loop decides.  The windowing collaborator dispatches
//! raw events; this maps each to the one action the renderer takes:
//! close and the escape shortcut end the loop, a resize is deferred to
//! the gap between frames, cleared event queues request a redraw, and a
//! redraw request draws a frame.

use vstd::prelude::*;

verus! {

/// The events the renderer reacts to, as plain values.
#[derive(Debug, Clone, Copy, PartialEq, Eq, Structural)]
pub enum WindowEventKind {
    CloseRequested,
    Resized(u32, u32),
    EscapePressed,
    OtherKeyPressed,
    MainEventsCleared,
    RedrawRequested,
    Other,
}

/// What the loop does in response.
#[derive(Debug, Clone, Copy, PartialEq, Eq, Structural)]
pub enum LoopAction {
    Exit,
    DeferResize(u32, u32),
    RequestRedraw,
    DrawFrame,
    Ignore,
}

/// The event-to-action mapping of the main loop.
pub fn handle_window_event(event: WindowEventKind) -> (r: LoopAction)
    ensures
        r == match event {
            WindowEventKind::CloseRequested => LoopAction::Exit,
            WindowEventKind::EscapePressed => LoopAction::Exit,
            WindowEventKind::Resized(w, h) => LoopAction::DeferResize(w, h),
            WindowEventKind::OtherKeyPressed => LoopAction::Ignore,
            WindowEventKind::MainEventsCleared => LoopAction::RequestRedraw,
            WindowEventKind::RedrawRequested => LoopAction::DrawFrame,
            WindowEventKind::Other => LoopAction::Ignore,
        },
{
    match event {
        WindowEventKind::CloseRequested => LoopAction::Exit,
        WindowEventKind::EscapePressed => LoopAction::Exit,
        WindowEventKind::Resized(w, h) => LoopAction::DeferResize(w, h),
        WindowEventKind::OtherKeyPressed => LoopAction::Ignore,
        WindowEventKind::MainEventsCleared => LoopAction::RequestRedraw,
        WindowEventKind::RedrawRequested => LoopAction::DrawFrame,
        WindowEventKind::Other => LoopAction::Ignore,
    }
}

} // verus!
