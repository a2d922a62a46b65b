use vstd::prelude::*;
use crate::drawing::point_2d::Point2d;
use crate::events::event::{Event, KeyboardEvent, KeyboardEventType, MouseEvent, MouseEventType};
use crate::input::key::Key;
use crate::Result;

verus! {

/// A key as a terminal in raw mode reports it.
#[derive(Debug, Copy, Clone, PartialEq, Eq, Structural)]
pub enum RawKey {
    Backspace,
    Left,
    Right,
    Up,
    Down,
    Home,
    End,
    PageUp,
    PageDown,
    BackTab,
    Delete,
    Insert,
    /// A function key, by its number.
    F(u8),
    /// A character by itself.
    Char(char),
    /// A character with Alt held.
    Alt(char),
    /// A character with Ctrl held.
    Ctrl(char),
    Null,
    Esc,
    /// A key that the terminal could not tell.
    Other,
}

/// A button of the mouse as a terminal in raw mode reports it; a turn of
/// the wheel counts as a button.
#[derive(Debug, Copy, Clone, PartialEq, Eq, Structural)]
pub enum RawMouseButton {
    Left,
    Right,
    Middle,
    WheelUp,
    WheelDown,
}

/// The mouse as a terminal in raw mode reports it: a button pressed, the
/// button released, or the mouse moved with a button held. The column and
/// the row are counted from one.
#[derive(Debug, Copy, Clone, PartialEq, Eq, Structural)]
pub enum RawMouseEvent {
    Press(RawMouseButton, u16, u16),
    Release(u16, u16),
    Hold(u16, u16),
}

/// The key that the report `key` stands for. A letter stands for its key
/// whatever its case and whether Alt or Ctrl is held; any other character
/// with Alt or Ctrl stands for that modifier key.
pub open spec fn key_of(key: RawKey) -> Key {
    match key {
        RawKey::Backspace => Key::Back,
        RawKey::Left => Key::Left,
        RawKey::Right => Key::Right,
        RawKey::Up => Key::Up,
        RawKey::Down => Key::Down,
        RawKey::Home => Key::Home,
        RawKey::End => Key::End,
        RawKey::PageUp => Key::Prior,
        RawKey::PageDown => Key::Next,
        RawKey::Delete => Key::Delete,
        RawKey::Insert => Key::Insert,
        RawKey::Esc => Key::Escape,
        RawKey::F(1) => Key::F1,
        RawKey::F(2) => Key::F2,
        RawKey::F(3) => Key::F3,
        RawKey::F(4) => Key::F4,
        RawKey::F(5) => Key::F5,
        RawKey::F(6) => Key::F6,
        RawKey::F(7) => Key::F7,
        RawKey::F(8) => Key::F8,
        RawKey::F(9) => Key::F9,
        RawKey::F(10) => Key::F10,
        RawKey::F(11) => Key::F11,
        RawKey::F(12) => Key::F12,
        RawKey::Char('a') | RawKey::Alt('a') | RawKey::Ctrl('a') | RawKey::Char('A') | RawKey::Alt('A') | RawKey::Ctrl('A') => Key::A,
        RawKey::Char('b') | RawKey::Alt('b') | RawKey::Ctrl('b') | RawKey::Char('B') | RawKey::Alt('B') | RawKey::Ctrl('B') => Key::B,
        RawKey::Char('c') | RawKey::Alt('c') | RawKey::Ctrl('c') | RawKey::Char('C') | RawKey::Alt('C') | RawKey::Ctrl('C') => Key::C,
        RawKey::Char('d') | RawKey::Alt('d') | RawKey::Ctrl('d') | RawKey::Char('D') | RawKey::Alt('D') | RawKey::Ctrl('D') => Key::D,
        RawKey::Char('e') | RawKey::Alt('e') | RawKey::Ctrl('e') | RawKey::Char('E') | RawKey::Alt('E') | RawKey::Ctrl('E') => Key::E,
        RawKey::Char('f') | RawKey::Alt('f') | RawKey::Ctrl('f') | RawKey::Char('F') | RawKey::Alt('F') | RawKey::Ctrl('F') => Key::F,
        RawKey::Char('g') | RawKey::Alt('g') | RawKey::Ctrl('g') | RawKey::Char('G') | RawKey::Alt('G') | RawKey::Ctrl('G') => Key::G,
        RawKey::Char('h') | RawKey::Alt('h') | RawKey::Ctrl('h') | RawKey::Char('H') | RawKey::Alt('H') | RawKey::Ctrl('H') => Key::H,
        RawKey::Char('i') | RawKey::Alt('i') | RawKey::Ctrl('i') | RawKey::Char('I') | RawKey::Alt('I') | RawKey::Ctrl('I') => Key::I,
        RawKey::Char('j') | RawKey::Alt('j') | RawKey::Ctrl('j') | RawKey::Char('J') | RawKey::Alt('J') | RawKey::Ctrl('J') => Key::J,
        RawKey::Char('k') | RawKey::Alt('k') | RawKey::Ctrl('k') | RawKey::Char('K') | RawKey::Alt('K') | RawKey::Ctrl('K') => Key::K,
        RawKey::Char('l') | RawKey::Alt('l') | RawKey::Ctrl('l') | RawKey::Char('L') | RawKey::Alt('L') | RawKey::Ctrl('L') => Key::L,
        RawKey::Char('m') | RawKey::Alt('m') | RawKey::Ctrl('m') | RawKey::Char('M') | RawKey::Alt('M') | RawKey::Ctrl('M') => Key::M,
        RawKey::Char('n') | RawKey::Alt('n') | RawKey::Ctrl('n') | RawKey::Char('N') | RawKey::Alt('N') | RawKey::Ctrl('N') => Key::N,
        RawKey::Char('o') | RawKey::Alt('o') | RawKey::Ctrl('o') | RawKey::Char('O') | RawKey::Alt('O') | RawKey::Ctrl('O') => Key::O,
        RawKey::Char('p') | RawKey::Alt('p') | RawKey::Ctrl('p') | RawKey::Char('P') | RawKey::Alt('P') | RawKey::Ctrl('P') => Key::P,
        RawKey::Char('q') | RawKey::Alt('q') | RawKey::Ctrl('q') | RawKey::Char('Q') | RawKey::Alt('Q') | RawKey::Ctrl('Q') => Key::Q,
        RawKey::Char('r') | RawKey::Alt('r') | RawKey::Ctrl('r') | RawKey::Char('R') | RawKey::Alt('R') | RawKey::Ctrl('R') => Key::R,
        RawKey::Char('s') | RawKey::Alt('s') | RawKey::Ctrl('s') | RawKey::Char('S') | RawKey::Alt('S') | RawKey::Ctrl('S') => Key::S,
        RawKey::Char('t') | RawKey::Alt('t') | RawKey::Ctrl('t') | RawKey::Char('T') | RawKey::Alt('T') | RawKey::Ctrl('T') => Key::T,
        RawKey::Char('u') | RawKey::Alt('u') | RawKey::Ctrl('u') | RawKey::Char('U') | RawKey::Alt('U') | RawKey::Ctrl('U') => Key::U,
        RawKey::Char('v') | RawKey::Alt('v') | RawKey::Ctrl('v') | RawKey::Char('V') | RawKey::Alt('V') | RawKey::Ctrl('V') => Key::V,
        RawKey::Char('w') | RawKey::Alt('w') | RawKey::Ctrl('w') | RawKey::Char('W') | RawKey::Alt('W') | RawKey::Ctrl('W') => Key::W,
        RawKey::Char('x') | RawKey::Alt('x') | RawKey::Ctrl('x') | RawKey::Char('X') | RawKey::Alt('X') | RawKey::Ctrl('X') => Key::X,
        RawKey::Char('y') | RawKey::Alt('y') | RawKey::Ctrl('y') | RawKey::Char('Y') | RawKey::Alt('Y') | RawKey::Ctrl('Y') => Key::Y,
        RawKey::Char('z') | RawKey::Alt('z') | RawKey::Ctrl('z') | RawKey::Char('Z') | RawKey::Alt('Z') | RawKey::Ctrl('Z') => Key::Z,
        RawKey::Char('0') | RawKey::Alt('0') | RawKey::Ctrl('0') => Key::Key0,
        RawKey::Char('1') | RawKey::Alt('1') | RawKey::Ctrl('1') => Key::Key1,
        RawKey::Char('2') | RawKey::Alt('2') | RawKey::Ctrl('2') => Key::Key2,
        RawKey::Char('3') | RawKey::Alt('3') | RawKey::Ctrl('3') => Key::Key3,
        RawKey::Char('4') | RawKey::Alt('4') | RawKey::Ctrl('4') => Key::Key4,
        RawKey::Char('5') | RawKey::Alt('5') | RawKey::Ctrl('5') => Key::Key5,
        RawKey::Char('6') | RawKey::Alt('6') | RawKey::Ctrl('6') => Key::Key6,
        RawKey::Char('7') | RawKey::Alt('7') | RawKey::Ctrl('7') => Key::Key7,
        RawKey::Char('8') | RawKey::Alt('8') | RawKey::Ctrl('8') => Key::Key8,
        RawKey::Char('9') | RawKey::Alt('9') | RawKey::Ctrl('9') => Key::Key9,
        RawKey::Alt(_) => Key::Menu,
        RawKey::Ctrl(_) => Key::Control,
        _ => Key::Unknown,
    }
}

/// The key that the report `key` stands for, or `Key::Unknown` for a report
/// that stands for none.
pub fn get_key(key: RawKey) -> (named: Key)
    ensures
        named == key_of(key),
{
    match key {
        RawKey::Backspace => Key::Back,
        RawKey::Left => Key::Left,
        RawKey::Right => Key::Right,
        RawKey::Up => Key::Up,
        RawKey::Down => Key::Down,
        RawKey::Home => Key::Home,
        RawKey::End => Key::End,
        RawKey::PageUp => Key::Prior,
        RawKey::PageDown => Key::Next,
        RawKey::Delete => Key::Delete,
        RawKey::Insert => Key::Insert,
        RawKey::Esc => Key::Escape,
        RawKey::F(1) => Key::F1,
        RawKey::F(2) => Key::F2,
        RawKey::F(3) => Key::F3,
        RawKey::F(4) => Key::F4,
        RawKey::F(5) => Key::F5,
        RawKey::F(6) => Key::F6,
        RawKey::F(7) => Key::F7,
        RawKey::F(8) => Key::F8,
        RawKey::F(9) => Key::F9,
        RawKey::F(10) => Key::F10,
        RawKey::F(11) => Key::F11,
        RawKey::F(12) => Key::F12,
        RawKey::Char('a') | RawKey::Alt('a') | RawKey::Ctrl('a') | RawKey::Char('A') | RawKey::Alt('A') | RawKey::Ctrl('A') => Key::A,
        RawKey::Char('b') | RawKey::Alt('b') | RawKey::Ctrl('b') | RawKey::Char('B') | RawKey::Alt('B') | RawKey::Ctrl('B') => Key::B,
        RawKey::Char('c') | RawKey::Alt('c') | RawKey::Ctrl('c') | RawKey::Char('C') | RawKey::Alt('C') | RawKey::Ctrl('C') => Key::C,
        RawKey::Char('d') | RawKey::Alt('d') | RawKey::Ctrl('d') | RawKey::Char('D') | RawKey::Alt('D') | RawKey::Ctrl('D') => Key::D,
        RawKey::Char('e') | RawKey::Alt('e') | RawKey::Ctrl('e') | RawKey::Char('E') | RawKey::Alt('E') | RawKey::Ctrl('E') => Key::E,
        RawKey::Char('f') | RawKey::Alt('f') | RawKey::Ctrl('f') | RawKey::Char('F') | RawKey::Alt('F') | RawKey::Ctrl('F') => Key::F,
        RawKey::Char('g') | RawKey::Alt('g') | RawKey::Ctrl('g') | RawKey::Char('G') | RawKey::Alt('G') | RawKey::Ctrl('G') => Key::G,
        RawKey::Char('h') | RawKey::Alt('h') | RawKey::Ctrl('h') | RawKey::Char('H') | RawKey::Alt('H') | RawKey::Ctrl('H') => Key::H,
        RawKey::Char('i') | RawKey::Alt('i') | RawKey::Ctrl('i') | RawKey::Char('I') | RawKey::Alt('I') | RawKey::Ctrl('I') => Key::I,
        RawKey::Char('j') | RawKey::Alt('j') | RawKey::Ctrl('j') | RawKey::Char('J') | RawKey::Alt('J') | RawKey::Ctrl('J') => Key::J,
        RawKey::Char('k') | RawKey::Alt('k') | RawKey::Ctrl('k') | RawKey::Char('K') | RawKey::Alt('K') | RawKey::Ctrl('K') => Key::K,
        RawKey::Char('l') | RawKey::Alt('l') | RawKey::Ctrl('l') | RawKey::Char('L') | RawKey::Alt('L') | RawKey::Ctrl('L') => Key::L,
        RawKey::Char('m') | RawKey::Alt('m') | RawKey::Ctrl('m') | RawKey::Char('M') | RawKey::Alt('M') | RawKey::Ctrl('M') => Key::M,
        RawKey::Char('n') | RawKey::Alt('n') | RawKey::Ctrl('n') | RawKey::Char('N') | RawKey::Alt('N') | RawKey::Ctrl('N') => Key::N,
        RawKey::Char('o') | RawKey::Alt('o') | RawKey::Ctrl('o') | RawKey::Char('O') | RawKey::Alt('O') | RawKey::Ctrl('O') => Key::O,
        RawKey::Char('p') | RawKey::Alt('p') | RawKey::Ctrl('p') | RawKey::Char('P') | RawKey::Alt('P') | RawKey::Ctrl('P') => Key::P,
        RawKey::Char('q') | RawKey::Alt('q') | RawKey::Ctrl('q') | RawKey::Char('Q') | RawKey::Alt('Q') | RawKey::Ctrl('Q') => Key::Q,
        RawKey::Char('r') | RawKey::Alt('r') | RawKey::Ctrl('r') | RawKey::Char('R') | RawKey::Alt('R') | RawKey::Ctrl('R') => Key::R,
        RawKey::Char('s') | RawKey::Alt('s') | RawKey::Ctrl('s') | RawKey::Char('S') | RawKey::Alt('S') | RawKey::Ctrl('S') => Key::S,
        RawKey::Char('t') | RawKey::Alt('t') | RawKey::Ctrl('t') | RawKey::Char('T') | RawKey::Alt('T') | RawKey::Ctrl('T') => Key::T,
        RawKey::Char('u') | RawKey::Alt('u') | RawKey::Ctrl('u') | RawKey::Char('U') | RawKey::Alt('U') | RawKey::Ctrl('U') => Key::U,
        RawKey::Char('v') | RawKey::Alt('v') | RawKey::Ctrl('v') | RawKey::Char('V') | RawKey::Alt('V') | RawKey::Ctrl('V') => Key::V,
        RawKey::Char('w') | RawKey::Alt('w') | RawKey::Ctrl('w') | RawKey::Char('W') | RawKey::Alt('W') | RawKey::Ctrl('W') => Key::W,
        RawKey::Char('x') | RawKey::Alt('x') | RawKey::Ctrl('x') | RawKey::Char('X') | RawKey::Alt('X') | RawKey::Ctrl('X') => Key::X,
        RawKey::Char('y') | RawKey::Alt('y') | RawKey::Ctrl('y') | RawKey::Char('Y') | RawKey::Alt('Y') | RawKey::Ctrl('Y') => Key::Y,
        RawKey::Char('z') | RawKey::Alt('z') | RawKey::Ctrl('z') | RawKey::Char('Z') | RawKey::Alt('Z') | RawKey::Ctrl('Z') => Key::Z,
        RawKey::Char('0') | RawKey::Alt('0') | RawKey::Ctrl('0') => Key::Key0,
        RawKey::Char('1') | RawKey::Alt('1') | RawKey::Ctrl('1') => Key::Key1,
        RawKey::Char('2') | RawKey::Alt('2') | RawKey::Ctrl('2') => Key::Key2,
        RawKey::Char('3') | RawKey::Alt('3') | RawKey::Ctrl('3') => Key::Key3,
        RawKey::Char('4') | RawKey::Alt('4') | RawKey::Ctrl('4') => Key::Key4,
        RawKey::Char('5') | RawKey::Alt('5') | RawKey::Ctrl('5') => Key::Key5,
        RawKey::Char('6') | RawKey::Alt('6') | RawKey::Ctrl('6') => Key::Key6,
        RawKey::Char('7') | RawKey::Alt('7') | RawKey::Ctrl('7') => Key::Key7,
        RawKey::Char('8') | RawKey::Alt('8') | RawKey::Ctrl('8') => Key::Key8,
        RawKey::Char('9') | RawKey::Alt('9') | RawKey::Ctrl('9') => Key::Key9,
        RawKey::Alt(_) => Key::Menu,
        RawKey::Ctrl(_) => Key::Control,
        _ => Key::Unknown,
    }
}

/// The event that the report `key_event` of a key tells. A terminal in raw
/// mode tells neither when a key goes down nor its code or character; of the
/// modifier keys it tells Ctrl and Alt, and not on which side.
pub open spec fn key_event_of(key_event: RawKey) -> Event {
    Event::Keyboard(
        KeyboardEvent {
            event_type: KeyboardEventType::KeyUp,
            key: key_of(key_event),
            key_code: 0,
            character: ' ',
            left_control: key_event is Ctrl,
            left_shift: false,
            left_menu: key_event is Alt,
            right_control: false,
            right_shift: false,
            right_menu: false,
        },
    )
}

/// The event that the report `key_event` of a key tells.
pub fn process_key_event(key_event: RawKey) -> (event: Result<Event>)
    ensures
        event == Ok::<Event, &'static str>(key_event_of(key_event)),
{
    Ok(
        Event::Keyboard(
            KeyboardEvent {
                event_type: KeyboardEventType::KeyUp,
                key: get_key(key_event),
                key_code: 0,
                character: ' ',
                left_control: match key_event {
                    RawKey::Ctrl(_) => true,
                    _ => false,
                },
                left_shift: false,
                left_menu: match key_event {
                    RawKey::Alt(_) => true,
                    _ => false,
                },
                right_control: false,
                right_shift: false,
                right_menu: false,
            },
        ),
    )
}

/// The button that the report `mouse_event` says was pressed.
pub open spec fn pressed_in(mouse_event: RawMouseEvent) -> Option<RawMouseButton> {
    match mouse_event {
        RawMouseEvent::Press(button, _, _) => Some(button),
        _ => None,
    }
}

/// The cell that the report `mouse_event` names, counted from zero.
pub open spec fn place_of(mouse_event: RawMouseEvent) -> Point2d {
    match mouse_event {
        RawMouseEvent::Press(_, x, y) => Point2d { x: (x - 1) as i32, y: (y - 1) as i32 },
        RawMouseEvent::Release(x, y) => Point2d { x: (x - 1) as i32, y: (y - 1) as i32 },
        RawMouseEvent::Hold(x, y) => Point2d { x: (x - 1) as i32, y: (y - 1) as i32 },
    }
}

/// The event that the report `mouse_event` of the mouse tells. Every report
/// counts as a move; a button is held only in the report of its press.
pub open spec fn mouse_event_of(mouse_event: RawMouseEvent) -> Event {
    let button = pressed_in(mouse_event);
    Event::Mouse(
        MouseEvent {
            event_type: MouseEventType::MouseMove,
            left_button: button == Some(RawMouseButton::Left),
            middle_button: button == Some(RawMouseButton::Middle),
            right_button: button == Some(RawMouseButton::Right),
            extra_button_1: false,
            extra_button_2: false,
            extra_button_3: false,
            extra_button_4: false,
            position: place_of(mouse_event),
            wheel_delta: match button {
                Some(RawMouseButton::WheelUp) => 1i16,
                Some(RawMouseButton::WheelDown) => (-1i16),
                _ => 0i16,
            },
        },
    )
}

/// The event that the report `mouse_event` of the mouse tells.
pub fn process_mouse_event(mouse_event: RawMouseEvent) -> (event: Result<Event>)
    ensures
        event == Ok::<Event, &'static str>(mouse_event_of(mouse_event)),
{
    let (button, x, y) = match mouse_event {
        RawMouseEvent::Press(mouse_button, x, y) => (Some(mouse_button), x, y),
        RawMouseEvent::Release(x, y) => (None, x, y),
        RawMouseEvent::Hold(x, y) => (None, x, y),
    };
    Ok(
        Event::Mouse(
            MouseEvent {
                event_type: MouseEventType::MouseMove,
                left_button: match button {
                    Some(RawMouseButton::Left) => true,
                    _ => false,
                },
                middle_button: match button {
                    Some(RawMouseButton::Middle) => true,
                    _ => false,
                },
                right_button: match button {
                    Some(RawMouseButton::Right) => true,
                    _ => false,
                },
                extra_button_1: false,
                extra_button_2: false,
                extra_button_3: false,
                extra_button_4: false,
                position: Point2d::new(x as i32 - 1, y as i32 - 1),
                wheel_delta: match button {
                    Some(RawMouseButton::WheelUp) => 1,
                    Some(RawMouseButton::WheelDown) => -1,
                    _ => 0,
                },
            },
        ),
    )
}

} // verus!
