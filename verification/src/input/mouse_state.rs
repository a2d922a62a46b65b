use vstd::prelude::*;
use crate::drawing::point_2d::Point2d;
use crate::events::event::MouseEvent;

verus! {

/// The buttons and the place of the mouse as the last event told them.
#[derive(Debug, Copy, Clone, PartialEq, Eq, Structural)]
pub struct MouseState {
    pub left_button: bool,
    pub middle_button: bool,
    pub right_button: bool,
    pub extra_button_1: bool,
    pub extra_button_2: bool,
    pub extra_button_3: bool,
    pub extra_button_4: bool,
    pub position: Point2d,
}

/// The state that the event `mouse` tells: every button and the place are
/// taken from the event, and nothing is kept of what was known before.
pub open spec fn state_of(mouse: MouseEvent) -> MouseState {
    MouseState {
        left_button: mouse.left_button,
        middle_button: mouse.middle_button,
        right_button: mouse.right_button,
        extra_button_1: mouse.extra_button_1,
        extra_button_2: mouse.extra_button_2,
        extra_button_3: mouse.extra_button_3,
        extra_button_4: mouse.extra_button_4,
        position: mouse.position,
    }
}

impl MouseState {
    /// A state in which no button is held and the pointer is at the origin.
    pub fn new() -> (state: MouseState)
        ensures
            state == (MouseState {
                left_button: false,
                middle_button: false,
                right_button: false,
                extra_button_1: false,
                extra_button_2: false,
                extra_button_3: false,
                extra_button_4: false,
                position: Point2d { x: 0, y: 0 },
            }),
    {
        MouseState {
            left_button: false,
            middle_button: false,
            right_button: false,
            extra_button_1: false,
            extra_button_2: false,
            extra_button_3: false,
            extra_button_4: false,
            position: Point2d::empty(),
        }
    }

    /// Takes note of the event `mouse`.
    pub fn update_from_event(&mut self, mouse: MouseEvent)
        ensures
            *final(self) == state_of(mouse),
    {
        self.left_button = mouse.left_button;
        self.middle_button = mouse.middle_button;
        self.right_button = mouse.right_button;
        self.extra_button_1 = mouse.extra_button_1;
        self.extra_button_2 = mouse.extra_button_2;
        self.extra_button_3 = mouse.extra_button_3;
        self.extra_button_4 = mouse.extra_button_4;
        self.position = mouse.position;
    }
}

} // verus!
