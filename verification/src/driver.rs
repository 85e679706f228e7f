//! Dispatch of the event loop's events.

use vstd::prelude::*;
use crate::config::WindowSize;
use crate::lifecycle::AppState;

verus! {

/// What happened to a window.
#[derive(Clone, Copy, Debug, PartialEq, Eq, Structural)]
pub enum WindowEvent {
    /// The user asked to close the window.
    CloseRequested,
    /// The window has a new physical size.
    Resized(WindowSize),
    /// The window's scale factor changed.
    ScaleFactorChanged,
    /// Anything else.
    Other,
}

/// An event of the loop, in the order of arrival.
#[derive(Clone, Copy, Debug, PartialEq, Eq, Structural)]
pub enum Event {
    /// An event of a window; `own` says whether it is the harness's window.
    Window { own: bool, event: WindowEvent },
    /// The loop has handled what was pending: a frame can be drawn.
    AboutToWait,
    /// Anything else.
    Other,
}

/// What the loop does for an event.
#[derive(Clone, Copy, Debug, PartialEq, Eq, Structural)]
pub enum Action {
    /// End the loop.
    Exit,
    /// Apply the live configuration to the surface.
    Reconfigure,
    /// Render a frame, then request the next redraw.
    Render,
    /// Nothing.
    Ignore,
}

/// The action that an event calls for.
pub open spec fn action_for(event: Event) -> Action {
    match event {
        Event::Window { own: true, event: WindowEvent::CloseRequested } => Action::Exit,
        Event::Window { own: true, event: WindowEvent::Resized(size) } => {
            if AppState::accepts(size) {
                Action::Reconfigure
            } else {
                Action::Ignore
            }
        },
        Event::AboutToWait => Action::Render,
        _ => Action::Ignore,
    }
}

/// The state that an event leaves.
pub open spec fn state_after(state: AppState, event: Event) -> AppState {
    match event {
        Event::Window { own: true, event: WindowEvent::Resized(size) } => state.resized(size),
        _ => state,
    }
}

/// Only a resize of the harness's own window to a size with no zero
/// dimension changes the state, and every event leaves the configuration
/// free of zero dimensions.
pub proof fn events_keep_config_valid(state: AppState, event: Event)
    requires
        state.follows_size(),
    ensures
        state_after(state, event).follows_size(),
        state_after(state, event).config.wf(),
        action_for(event) != Action::Reconfigure ==> state_after(state, event) == state,
{
}

} // verus!
