//! Platform events as the bridge sees them, and what it answers to each.

use vstd::prelude::*;

verus! {

/// A key of the keyboard, as far as the bridge tells keys apart.
#[derive(Clone, Copy, Debug, PartialEq, Eq, Structural)]
pub enum Key {
    /// The escape key.
    Escape,
    /// Any other key, or one the platform could not name.
    Other,
}

/// One notification from the platform's event loop.
#[derive(Clone, Copy, Debug, PartialEq, Eq, Structural)]
pub enum PlatformEvent {
    /// The window's inner size changed to `width` by `height` pixels.
    Resize { width: u32, height: u32 },
    /// The user asked to close the window.
    CloseRequested,
    /// A key went down (`pressed`) or came up.
    KeyPress { key: Key, pressed: bool },
    /// Any other event of the window.
    OtherWindowEvent,
    /// Every event of the current poll has been delivered.
    EventsDrained,
    /// Any other event of the loop.
    Other,
}

/// Whether the loop goes on polling.
#[derive(Clone, Copy, Debug, PartialEq, Eq, Structural)]
pub enum LoopControl {
    /// Poll for the next event.
    Continue,
    /// Stop: no further event is dispatched.
    Exit,
}

/// What the caller performs on the engine after a dispatch.
#[derive(Clone, Copy, Debug, PartialEq, Eq, Structural)]
pub enum Action {
    /// Nothing.
    Idle,
    /// Advance the engine by exactly one frame.
    Update,
}

/// The bridge's answer to one event.
#[derive(Clone, Copy, Debug, PartialEq, Eq, Structural)]
pub struct Outcome {
    /// Whether to keep polling.
    pub control: LoopControl,
    /// What to run on the engine before the next event.
    pub action: Action,
}

impl PlatformEvent {
    /// The events that ask the loop to stop: a close request, and the escape
    /// key going down.
    pub open spec fn requests_exit(self) -> bool {
        self == PlatformEvent::CloseRequested || self == (PlatformEvent::KeyPress {
            key: Key::Escape,
            pressed: true,
        })
    }

    /// The one event that starts a frame.
    pub open spec fn starts_frame(self) -> bool {
        self == PlatformEvent::EventsDrained
    }

    /// Whether this event asks the loop to stop.
    pub fn is_exit_request(&self) -> (exit: bool)
        ensures
            exit == self.requests_exit(),
    {
        match self {
            PlatformEvent::CloseRequested => true,
            PlatformEvent::KeyPress { key: Key::Escape, pressed: true } => true,
            _ => false,
        }
    }
}

/// The answer owed to `event`. With `single_poll` set every answer is `Exit`;
/// otherwise only an exit request stops the loop. The engine advances on
/// `EventsDrained` and on nothing else.
pub open spec fn outcome_of(single_poll: bool, event: PlatformEvent) -> Outcome {
    Outcome {
        control: if single_poll || event.requests_exit() {
            LoopControl::Exit
        } else {
            LoopControl::Continue
        },
        action: if event.starts_frame() {
            Action::Update
        } else {
            Action::Idle
        },
    }
}

} // verus!
