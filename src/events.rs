use vstd::prelude::*;

use crate::input::{ButtonState, MouseButton};

verus! {

/// A button of the pointing device, as the window system reports it.
#[derive(Clone, Copy, Debug, PartialEq, Eq, Structural)]
pub enum DeviceButton {
    Left,
    Right,
    Middle,
    Other(u8),
}

/// The unit in which a wheel reports its motion.
#[derive(Clone, Copy, Debug, PartialEq, Eq, Structural)]
pub enum ScrollUnit {
    Pixels,
    Lines,
}

/// The kind of a window-system input event. Its coordinates and deltas stay
/// with the caller, which hands them to the handler that `route_input` names.
#[derive(Clone, Copy, Debug, PartialEq, Eq, Structural)]
pub enum WindowInput {
    Wheel(ScrollUnit),
    CursorMoved,
    MouseInput(ButtonState, DeviceButton),
    Character(char),
    Other,
}

/// A keyboard shortcut on the camera's pose.
#[derive(Clone, Copy, Debug, PartialEq, Eq, Structural)]
pub enum KeyCommand {
    SaveDefault,
    RestoreDefault,
}

/// Which of the camera's input handlers an event goes to.
#[derive(Clone, Copy, Debug, PartialEq, Eq, Structural)]
pub enum CameraCall {
    Scroll,
    MouseMove,
    MouseInput(MouseButton, ButtonState),
    Key(KeyCommand),
    Ignore,
}

/// The handler for an event: a wheel that reports pixels scrolls, a moved
/// cursor moves, a left or right button goes to the button handler with its
/// state, `s` saves the current pose as the default and `d` restores it;
/// everything else is ignored.
pub open spec fn route(e: WindowInput) -> CameraCall {
    match e {
        WindowInput::Wheel(ScrollUnit::Pixels) => CameraCall::Scroll,
        WindowInput::CursorMoved => CameraCall::MouseMove,
        WindowInput::MouseInput(action, DeviceButton::Left) => CameraCall::MouseInput(
            MouseButton::Left,
            action,
        ),
        WindowInput::MouseInput(action, DeviceButton::Right) => CameraCall::MouseInput(
            MouseButton::Right,
            action,
        ),
        WindowInput::Character(c) => if c == 's' {
            CameraCall::Key(KeyCommand::SaveDefault)
        } else if c == 'd' {
            CameraCall::Key(KeyCommand::RestoreDefault)
        } else {
            CameraCall::Ignore
        },
        _ => CameraCall::Ignore,
    }
}

/// Decides which camera handler a window-system event goes to.
pub fn route_input(e: WindowInput) -> (c: CameraCall)
    ensures
        c == route(e),
{
    match e {
        WindowInput::Wheel(ScrollUnit::Pixels) => CameraCall::Scroll,
        WindowInput::CursorMoved => CameraCall::MouseMove,
        WindowInput::MouseInput(action, DeviceButton::Left) => CameraCall::MouseInput(
            MouseButton::Left,
            action,
        ),
        WindowInput::MouseInput(action, DeviceButton::Right) => CameraCall::MouseInput(
            MouseButton::Right,
            action,
        ),
        WindowInput::Character(c) => {
            if c == 's' {
                CameraCall::Key(KeyCommand::SaveDefault)
            } else if c == 'd' {
                CameraCall::Key(KeyCommand::RestoreDefault)
            } else {
                CameraCall::Ignore
            }
        },
        _ => CameraCall::Ignore,
    }
}

} // verus!
