use aperture::{
    route_input, ButtonState, CameraCall, DeviceButton, KeyCommand, MouseButton, ScrollUnit,
    WindowInput,
};

#[test]
fn pixel_wheel_scrolls() {
    assert_eq!(route_input(WindowInput::Wheel(ScrollUnit::Pixels)), CameraCall::Scroll);
}

#[test]
fn line_wheel_is_ignored() {
    assert_eq!(route_input(WindowInput::Wheel(ScrollUnit::Lines)), CameraCall::Ignore);
}

#[test]
fn cursor_motion_moves() {
    assert_eq!(route_input(WindowInput::CursorMoved), CameraCall::MouseMove);
}

#[test]
fn left_and_right_buttons_pass_through() {
    for action in [ButtonState::Pressed, ButtonState::Released] {
        assert_eq!(
            route_input(WindowInput::MouseInput(action, DeviceButton::Left)),
            CameraCall::MouseInput(MouseButton::Left, action)
        );
        assert_eq!(
            route_input(WindowInput::MouseInput(action, DeviceButton::Right)),
            CameraCall::MouseInput(MouseButton::Right, action)
        );
    }
}

#[test]
fn other_buttons_are_ignored() {
    for button in [DeviceButton::Middle, DeviceButton::Other(4)] {
        assert_eq!(
            route_input(WindowInput::MouseInput(ButtonState::Pressed, button)),
            CameraCall::Ignore
        );
    }
}

#[test]
fn pose_shortcuts() {
    assert_eq!(
        route_input(WindowInput::Character('s')),
        CameraCall::Key(KeyCommand::SaveDefault)
    );
    assert_eq!(
        route_input(WindowInput::Character('d')),
        CameraCall::Key(KeyCommand::RestoreDefault)
    );
    assert_eq!(route_input(WindowInput::Character('x')), CameraCall::Ignore);
    assert_eq!(route_input(WindowInput::Other), CameraCall::Ignore);
}
