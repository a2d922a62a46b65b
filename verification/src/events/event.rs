use vstd::prelude::*;
use crate::drawing::point_2d::Point2d;
use crate::drawing::size_2d::Size2d;
use crate::input::key::Key;

verus! {

/// What the mouse did.
#[derive(Debug, Copy, Clone, PartialEq, Eq, Structural)]
pub enum MouseEventType {
    MouseMove,
    Click,
    DoubleClick,
    Wheel,
    HorizontalWheel,
    VerticalWheel,
}

/// What a key did.
#[derive(Debug, Copy, Clone, PartialEq, Eq, Structural)]
pub enum KeyboardEventType {
    KeyDown,
    KeyUp,
}

/// What happened to the window.
#[derive(Debug, Copy, Clone, PartialEq, Eq, Structural)]
pub enum WindowEventType {
    WindowMove,
    WindowResize,
    WindowFocus,
    WindowLostFocus,
    WindowClose,
}

/// The mouse at one moment: what it did, which buttons were held, where the
/// pointer was and how far the wheel turned.
#[derive(Debug, Copy, Clone, PartialEq, Eq, Structural)]
pub struct MouseEvent {
    pub event_type: MouseEventType,
    pub left_button: bool,
    pub middle_button: bool,
    pub right_button: bool,
    pub extra_button_1: bool,
    pub extra_button_2: bool,
    pub extra_button_3: bool,
    pub extra_button_4: bool,
    pub position: Point2d,
    pub wheel_delta: i16,
}

/// A key going down or up: the key, the code the platform has for it, the
/// character it stands for, and which modifier keys were held meanwhile.
#[derive(Debug, Copy, Clone, PartialEq, Eq, Structural)]
pub struct KeyboardEvent {
    pub event_type: KeyboardEventType,
    pub key: Key,
    pub key_code: u16,
    pub character: char,
    pub left_control: bool,
    pub left_shift: bool,
    pub left_menu: bool,
    pub right_control: bool,
    pub right_shift: bool,
    pub right_menu: bool,
}

/// A change of the window. The position matters for a move and the size for
/// a resize.
#[derive(Debug, Copy, Clone, PartialEq, Eq, Structural)]
pub struct WindowEvent {
    pub event_type: WindowEventType,
    pub position: Point2d,
    pub size: Size2d,
}

/// An event of any kind.
#[derive(Debug, Copy, Clone, PartialEq, Eq, Structural)]
pub enum Event {
    Mouse(MouseEvent),
    Keyboard(KeyboardEvent),
    Window(WindowEvent),
}

} // verus!
