//! Interaction logic of an orbiting ("arcball") camera: the gesture state
//! machine that gates which pointer input moves the camera, the routing of
//! window-system input to the camera's handlers, and the column-major layout
//! in which a 4x4 transform is handed across a foreign boundary.

mod events;
mod input;
mod layout;

pub use events::{route_input, CameraCall, DeviceButton, KeyCommand, ScrollUnit, WindowInput};
pub use input::{ButtonState, CamState, MouseButton, Transition};
pub use layout::flatten_columns;
