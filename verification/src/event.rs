//! Input events as the loop reads them, and what each one calls for.

use vstd::prelude::*;

verus! {

/// Scancode of the escape key.
pub const SCANCODE_ESCAPE: i32 = 41;

/// A mouse button, as the windowing layer names it.
#[derive(Clone, Copy, Debug, PartialEq, Eq)]
pub enum MouseButton {
    Unknown,
    Left,
    Middle,
    Right,
    X1,
    X2,
}

/// One input event, reduced to what the loop looks at.
#[derive(Clone, Copy, Debug, PartialEq, Eq)]
pub enum InputEvent {
    /// The window or the session asks the program to end.
    Quit,
    /// A key went down. `scancode` is the physical key if the windowing layer
    /// knows it; `repeat` is set on the repeats that a held key generates.
    KeyDown { scancode: Option<i32>, repeat: bool },
    /// A mouse button went down.
    MouseButtonDown { button: MouseButton },
    /// Anything else.
    Other,
}

/// What an event calls for.
#[derive(Clone, Copy, Debug, PartialEq, Eq, Structural)]
pub enum Reaction {
    /// Leave the loop.
    Quit,
    /// Raise the trigger and start the flash: the left mouse button.
    MouseTrigger,
    /// Raise the trigger and start the flash: a key.
    KeyTrigger,
    /// Nothing.
    Ignore,
}

impl Reaction {
    /// Whether the reaction raises the trigger.
    pub open spec fn triggers(self) -> bool {
        self is MouseTrigger || self is KeyTrigger
    }

    /// Whether the reaction raises the trigger.
    pub fn is_trigger(self) -> (yes: bool)
        ensures
            yes == self.triggers(),
    {
        match self {
            Reaction::MouseTrigger => true,
            Reaction::KeyTrigger => true,
            Reaction::Quit => false,
            Reaction::Ignore => false,
        }
    }
}

/// The reaction that `event` calls for.
///
/// A quit request and a fresh press of escape end the loop. The left mouse
/// button and a fresh press of any other known key raise the trigger. Key
/// repeats, keys without a scancode, other mouse buttons and all other events
/// are ignored.
pub open spec fn reaction_to(event: InputEvent) -> Reaction {
    match event {
        InputEvent::Quit => Reaction::Quit,
        InputEvent::MouseButtonDown { button } => if button is Left {
            Reaction::MouseTrigger
        } else {
            Reaction::Ignore
        },
        InputEvent::KeyDown { scancode, repeat } => if repeat || scancode is None {
            Reaction::Ignore
        } else if scancode == Some(SCANCODE_ESCAPE) {
            Reaction::Quit
        } else {
            Reaction::KeyTrigger
        },
        InputEvent::Other => Reaction::Ignore,
    }
}

/// Decides the reaction to one event.
pub fn classify(event: InputEvent) -> (reaction: Reaction)
    ensures
        reaction == reaction_to(event),
{
    match event {
        InputEvent::Quit => Reaction::Quit,
        InputEvent::MouseButtonDown { button: MouseButton::Left } => Reaction::MouseTrigger,
        InputEvent::KeyDown { scancode: Some(code), repeat: false } => {
            if code == SCANCODE_ESCAPE {
                Reaction::Quit
            } else {
                Reaction::KeyTrigger
            }
        },
        _ => Reaction::Ignore,
    }
}

} // verus!
