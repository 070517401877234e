use vstd::prelude::*;

verus! {

/// Buttons of a pointing device that the camera reacts to.
#[derive(Clone, Copy, Debug, PartialEq, Eq, Structural)]
pub enum MouseButton {
    Left,
    Right,
}

/// Whether a button went down or came up.
#[derive(Clone, Copy, Debug, PartialEq, Eq, Structural)]
pub enum ButtonState {
    Pressed,
    Released,
}

/// The interaction mode of the camera.
///
/// `Pan` is a reserved mode: no input leads into it, and while in it no
/// pointer motion moves the camera.
#[derive(Clone, Copy, Debug, PartialEq, Eq, Structural)]
pub enum CamState {
    Pan,
    Tumble,
    Idle,
}

/// The outcome of a button event: the next mode, and whether a tumble
/// gesture starts, in which case the camera captures the sphere point under
/// the pointer and its current rotation.
#[derive(Clone, Copy, Debug, PartialEq, Eq, Structural)]
pub struct Transition {
    pub next: CamState,
    pub begin_tumble: bool,
}

/// The mode after `button` reaches `action` in mode `s`.
pub open spec fn next_state(s: CamState, button: MouseButton, action: ButtonState) -> CamState {
    match (s, button, action) {
        (CamState::Idle, MouseButton::Left, ButtonState::Pressed) => CamState::Tumble,
        (CamState::Tumble, _, ButtonState::Released) => CamState::Idle,
        _ => s,
    }
}

/// A tumble gesture starts exactly on a left press while idle.
pub open spec fn begins_tumble(s: CamState, button: MouseButton, action: ButtonState) -> bool {
    s == CamState::Idle && button == MouseButton::Left && action == ButtonState::Pressed
}

impl CamState {
    /// The mode of a newly made camera.
    pub fn initial() -> (r: CamState)
        ensures
            r == CamState::Idle,
    {
        CamState::Idle
    }

    /// Decides what a button event does in this mode.
    pub fn on_mouse_input(self, button: MouseButton, action: ButtonState) -> (t: Transition)
        ensures
            t.next == next_state(self, button, action),
            t.begin_tumble == begins_tumble(self, button, action),
    {
        match (self, button, action) {
            (CamState::Idle, MouseButton::Left, ButtonState::Pressed) => Transition {
                next: CamState::Tumble,
                begin_tumble: true,
            },
            (CamState::Tumble, _, ButtonState::Released) => Transition {
                next: CamState::Idle,
                begin_tumble: false,
            },
            _ => Transition { next: self, begin_tumble: false },
        }
    }

    /// Moves to the next mode on a button event, and returns whether a tumble
    /// gesture starts.
    pub fn handle_mouse_input(&mut self, button: MouseButton, action: ButtonState) -> (begin: bool)
        ensures
            *final(self) == next_state(*old(self), button, action),
            begin == begins_tumble(*old(self), button, action),
    {
        let t = self.on_mouse_input(button, action);
        *self = t.next;
        t.begin_tumble
    }

    /// Whether pointer motion in this mode rotates the camera.
    pub fn rotates_on_move(&self) -> (r: bool)
        ensures
            r == (*self == CamState::Tumble),
    {
        match self {
            CamState::Tumble => true,
            _ => false,
        }
    }
}

/// A left press while idle starts a tumble; a release of either button then
/// ends it without starting another, and once idle again no pointer motion
/// rotates the camera, so the rotation reached during the gesture persists.
pub proof fn lemma_tumble_round_trip(release: MouseButton)
    ensures
        next_state(CamState::Idle, MouseButton::Left, ButtonState::Pressed) == CamState::Tumble,
        begins_tumble(CamState::Idle, MouseButton::Left, ButtonState::Pressed),
        next_state(CamState::Tumble, release, ButtonState::Released) == CamState::Idle,
        !begins_tumble(CamState::Tumble, release, ButtonState::Released),
{
}

/// No button event leads into the reserved `Pan` mode from another mode.
pub proof fn lemma_pan_unreachable(s: CamState, button: MouseButton, action: ButtonState)
    requires
        s != CamState::Pan,
    ensures
        next_state(s, button, action) != CamState::Pan,
{
}

} // verus!
