//! What the event loop does with each notification of the windowing system.

use vstd::prelude::*;

use crate::session::SurfaceSize;

verus! {

/// Whether a key went down or came up.
#[derive(Clone, Copy, Debug, PartialEq, Eq, Structural)]
pub enum ElementState {
    Pressed,
    Released,
}

/// The keys the event loop tells apart.
#[derive(Clone, Copy, Debug, PartialEq, Eq, Structural)]
pub enum Key {
    Escape,
    Other,
}

/// A notification about one window.
#[derive(Clone, Copy, Debug, PartialEq, Eq, Structural)]
pub enum WindowEvent {
    CloseRequested,
    KeyboardInput { state: ElementState, key: Key },
    /// The cursor moved to this position, in physical pixels.
    CursorMoved { x: i32, y: i32 },
    /// The surface now has this size.
    Resized(SurfaceSize),
    /// The scale factor changed and the surface now has this size.
    ScaleFactorChanged(SurfaceSize),
    Other,
}

/// A notification of the windowing system.
#[derive(Clone, Copy, Debug, PartialEq, Eq, Structural)]
pub enum Event {
    /// Something happened to a window; `own` says whether it is the window
    /// the session presents to.
    Window { own: bool, event: WindowEvent },
    RedrawRequested,
    MainEventsCleared,
    Other,
}

/// What the event loop does next.
#[derive(Clone, Copy, Debug, PartialEq, Eq, Structural)]
pub enum Reaction {
    /// Leave the loop; the process ends normally.
    Exit,
    /// Resize the session to this size.
    Resize(SurfaceSize),
    /// Update the scene and render one frame.
    Redraw,
    /// Ask the window for another redraw.
    RequestRedraw,
    /// Nothing.
    Ignore,
}

/// The reaction to each event.  `handled` says whether the renderer's input
/// hook took the event for itself.
pub open spec fn reaction(event: Event, handled: bool) -> Reaction {
    match event {
        Event::Window { own, event } => if !own || handled {
            Reaction::Ignore
        } else {
            match event {
                WindowEvent::CloseRequested => Reaction::Exit,
                WindowEvent::KeyboardInput { state: ElementState::Pressed, key: Key::Escape } =>
                    Reaction::Exit,
                WindowEvent::Resized(size) => Reaction::Resize(size),
                WindowEvent::ScaleFactorChanged(size) => Reaction::Resize(size),
                _ => Reaction::Ignore,
            }
        },
        Event::RedrawRequested => Reaction::Redraw,
        Event::MainEventsCleared => Reaction::RequestRedraw,
        Event::Other => Reaction::Ignore,
    }
}

/// Decides what the event loop does with an event.
///
/// A close request and a press of Escape end the loop; a new size, from a
/// resize or a change of scale factor, resizes the session; a redraw request
/// renders a frame; and once all events are through, the next redraw is
/// asked for.  Events of other windows, and events the input hook handled,
/// are left alone.
pub fn react(event: Event, handled: bool) -> (r: Reaction)
    ensures
        r == reaction(event, handled),
{
    match event {
        Event::Window { own, event } => {
            if !own || handled {
                Reaction::Ignore
            } else {
                match event {
                    WindowEvent::CloseRequested => Reaction::Exit,
                    WindowEvent::KeyboardInput { state, key } => match (state, key) {
                        (ElementState::Pressed, Key::Escape) => Reaction::Exit,
                        _ => Reaction::Ignore,
                    },
                    WindowEvent::Resized(size) => Reaction::Resize(size),
                    WindowEvent::ScaleFactorChanged(size) => Reaction::Resize(size),
                    _ => Reaction::Ignore,
                }
            }
        },
        Event::RedrawRequested => Reaction::Redraw,
        Event::MainEventsCleared => Reaction::RequestRedraw,
        Event::Other => Reaction::Ignore,
    }
}

} // verus!
