//! Demultiplexing of the compositor's input events into render worker messages.

use vstd::prelude::*;
use crate::geometry::Point;
use crate::render::ApplicationEvent;

verus! {

/// The HID usage of the key that ends the program.
pub const ESCAPE_CODE: u32 = 0x14;

/// Phase of a pointer event.
#[derive(Clone, Copy, Debug, PartialEq, Eq, Structural)]
pub enum PointerPhase {
    Down,
    Move,
    Up,
    /// Any other phase (hover, cancel, ...).
    Other,
}

/// An input event as the compositor delivers it, with the pointer position
/// already in whole view coordinates.
#[derive(Clone, Copy, Debug, PartialEq, Eq, Structural)]
pub enum InputEvent {
    Keyboard { hid_usage: u32 },
    Pointer { pointer_id: u32, phase: PointerPhase, x: i32, y: i32 },
    /// Any other kind of event.
    Other,
}

/// What to do with one input event.
#[derive(Clone, Copy, Debug, PartialEq, Eq, Structural)]
pub enum InputAction {
    /// End the process at once, submitting nothing more.
    Exit,
    /// Send this message to the render worker.
    Send { event: ApplicationEvent },
    /// Drop the event.
    Ignore,
}

/// The action for `event`: the escape key ends the program, pointer downs,
/// moves and ups become the matching worker messages, and the rest is dropped.
pub open spec fn action_for(event: InputEvent) -> InputAction {
    match event {
        InputEvent::Keyboard { hid_usage } => if hid_usage == ESCAPE_CODE {
            InputAction::Exit
        } else {
            InputAction::Ignore
        },
        InputEvent::Pointer { pointer_id, phase, x, y } => {
            let which = pointer_id as i32;
            let location = Point { x, y };
            match phase {
                PointerPhase::Down => InputAction::Send {
                    event: ApplicationEvent::MouseButtonDown { which, location },
                },
                PointerPhase::Move => InputAction::Send {
                    event: ApplicationEvent::MouseButtonMoved { which, location },
                },
                PointerPhase::Up => InputAction::Send {
                    event: ApplicationEvent::MouseButtonUp { which, location },
                },
                PointerPhase::Other => InputAction::Ignore,
            }
        },
        InputEvent::Other => InputAction::Ignore,
    }
}

/// Decides what one input event does.
pub fn on_event(event: InputEvent) -> (r: InputAction)
    ensures
        r == action_for(event),
{
    match event {
        InputEvent::Keyboard { hid_usage } => {
            if hid_usage == ESCAPE_CODE {
                InputAction::Exit
            } else {
                InputAction::Ignore
            }
        },
        InputEvent::Pointer { pointer_id, phase, x, y } => {
            let location = Point { x, y };
            let which = pointer_id as i32;
            match phase {
                PointerPhase::Down => InputAction::Send {
                    event: ApplicationEvent::MouseButtonDown { which, location },
                },
                PointerPhase::Move => InputAction::Send {
                    event: ApplicationEvent::MouseButtonMoved { which, location },
                },
                PointerPhase::Up => InputAction::Send {
                    event: ApplicationEvent::MouseButtonUp { which, location },
                },
                PointerPhase::Other => InputAction::Ignore,
            }
        },
        InputEvent::Other => InputAction::Ignore,
    }
}

} // verus!
