//! Window-system events, reduced to what the viewer reacts to.

use vstd::prelude::*;

verus! {

/// Whether a key went down or came up.
#[derive(Clone, Copy, Debug, PartialEq, Eq, Structural)]
pub enum ElementState {
    Pressed,
    Released,
}

/// The symbolic key of a keyboard event. Only escape is told apart.
#[derive(Clone, Copy, Debug, PartialEq, Eq, Structural)]
pub enum Key {
    Escape,
    Other,
}

/// An event addressed to a window.
#[derive(Clone, Copy, Debug, PartialEq, Eq, Structural)]
pub enum WindowEvent {
    /// The user asked to close the window.
    CloseRequested,
    /// A key changed state; `key` is `None` when the platform gave no symbolic key.
    KeyboardInput { state: ElementState, key: Option<Key> },
    /// Any other window event: resize, focus, pointer, and so on.
    Other,
}

/// An event delivered by the event loop.
///
/// `own_window` says whether the event's window is the viewer's window.
#[derive(Clone, Copy, Debug, PartialEq, Eq, Structural)]
pub enum Event {
    WindowEvent { own_window: bool, event: WindowEvent },
    /// The window system asks for the window to be redrawn.
    RedrawRequested { own_window: bool },
    /// All pending events have been delivered: the idle point of the cycle.
    MainEventsCleared,
    /// Any other event.
    Other,
}

impl WindowEvent {
    /// A close request, or escape going down.
    pub open spec fn asks_to_exit(self) -> bool {
        match self {
            WindowEvent::CloseRequested => true,
            WindowEvent::KeyboardInput { state: ElementState::Pressed, key: Some(Key::Escape) } => true,
            _ => false,
        }
    }

    /// Whether this event ends the viewer.
    pub fn is_exit_request(&self) -> (exit: bool)
        ensures
            exit == self.asks_to_exit(),
    {
        match self {
            WindowEvent::CloseRequested => true,
            WindowEvent::KeyboardInput { state: ElementState::Pressed, key: Some(Key::Escape) } => true,
            _ => false,
        }
    }
}

} // verus!
