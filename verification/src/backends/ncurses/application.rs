use vstd::prelude::*;
use crate::drawing::point_2d::Point2d;
use crate::events::event::{Event, KeyboardEvent, KeyboardEventType, MouseEvent, MouseEventType};
use crate::input::key::Key;

verus! {

/// The code by which curses reports the Break key.
pub const KEY_BREAK: i32 = 0x101;

/// The code by which curses reports the down arrow.
pub const KEY_DOWN: i32 = 0x102;

/// The code by which curses reports the up arrow.
pub const KEY_UP: i32 = 0x103;

/// The code by which curses reports the left arrow.
pub const KEY_LEFT: i32 = 0x104;

/// The code by which curses reports the right arrow.
pub const KEY_RIGHT: i32 = 0x105;

/// The code by which curses reports the Home key.
pub const KEY_HOME: i32 = 0x106;

/// The code by which curses reports the backspace key.
pub const KEY_BACKSPACE: i32 = 0x107;

/// The code by which curses reports the function key F1.
pub const KEY_F1: i32 = 0x109;

/// The code by which curses reports the function key F2.
pub const KEY_F2: i32 = 0x10a;

/// The code by which curses reports the function key F3.
pub const KEY_F3: i32 = 0x10b;

/// The code by which curses reports the function key F4.
pub const KEY_F4: i32 = 0x10c;

/// The code by which curses reports the function key F5.
pub const KEY_F5: i32 = 0x10d;

/// The code by which curses reports the function key F6.
pub const KEY_F6: i32 = 0x10e;

/// The code by which curses reports the function key F7.
pub const KEY_F7: i32 = 0x10f;

/// The code by which curses reports the function key F8.
pub const KEY_F8: i32 = 0x110;

/// The code by which curses reports the function key F9.
pub const KEY_F9: i32 = 0x111;

/// The code by which curses reports the function key F10.
pub const KEY_F10: i32 = 0x112;

/// The code by which curses reports the function key F11.
pub const KEY_F11: i32 = 0x113;

/// The code by which curses reports the function key F12.
pub const KEY_F12: i32 = 0x114;

/// The code by which curses reports the function key F13.
pub const KEY_F13: i32 = 0x115;

/// The code by which curses reports the function key F14.
pub const KEY_F14: i32 = 0x116;

/// The code by which curses reports the function key F15.
pub const KEY_F15: i32 = 0x117;

/// The code by which curses reports the key that deletes a character.
pub const KEY_DC: i32 = 0x14a;

/// The code by which curses reports the key that ends insert mode.
pub const KEY_EIC: i32 = 0x14c;

/// The code by which curses reports the key that clears the screen.
pub const KEY_CLEAR: i32 = 0x14d;

/// The code by which curses reports the key for the next page.
pub const KEY_NPAGE: i32 = 0x152;

/// The code by which curses reports the key for the previous page.
pub const KEY_PPAGE: i32 = 0x153;

/// The code by which curses reports the Enter key.
pub const KEY_ENTER: i32 = 0x157;

/// The code by which curses reports the Print key.
pub const KEY_PRINT: i32 = 0x15a;

/// The code by which curses reports the Cancel key.
pub const KEY_CANCEL: i32 = 0x163;

/// The code by which curses reports a report of the mouse.
pub const KEY_MOUSE: i32 = 0x199;

/// The key that curses reports by the code `event`.
pub open spec fn key_of_code(event: i32) -> Key {
    match event {
        KEY_BREAK => Key::Pause,
        KEY_DOWN => Key::Down,
        KEY_UP => Key::Up,
        KEY_LEFT => Key::Left,
        KEY_RIGHT => Key::Right,
        KEY_HOME => Key::Home,
        KEY_BACKSPACE => Key::Back,
        KEY_F1 => Key::F1,
        KEY_F2 => Key::F2,
        KEY_F3 => Key::F3,
        KEY_F4 => Key::F4,
        KEY_F5 => Key::F5,
        KEY_F6 => Key::F6,
        KEY_F7 => Key::F7,
        KEY_F8 => Key::F8,
        KEY_F9 => Key::F9,
        KEY_F10 => Key::F10,
        KEY_F11 => Key::F11,
        KEY_F12 => Key::F12,
        KEY_F13 => Key::F13,
        KEY_F14 => Key::F14,
        KEY_F15 => Key::F15,
        KEY_DC => Key::Delete,
        KEY_EIC => Key::Insert,
        KEY_CLEAR => Key::Clear,
        KEY_NPAGE => Key::Next,
        KEY_PPAGE => Key::Prior,
        KEY_ENTER => Key::Return,
        KEY_PRINT => Key::Print,
        KEY_CANCEL => Key::Cancel,
        65 | 97 => Key::A,
        66 | 98 => Key::B,
        67 | 99 => Key::C,
        68 | 100 => Key::D,
        69 | 101 => Key::E,
        70 | 102 => Key::F,
        71 | 103 => Key::G,
        72 | 104 => Key::H,
        73 | 105 => Key::I,
        74 | 106 => Key::J,
        75 | 107 => Key::K,
        76 | 108 => Key::L,
        77 | 109 => Key::M,
        78 | 110 => Key::N,
        79 | 111 => Key::O,
        80 | 112 => Key::P,
        81 | 113 => Key::Q,
        82 | 114 => Key::R,
        83 | 115 => Key::S,
        84 | 116 => Key::T,
        85 | 117 => Key::U,
        86 | 118 => Key::V,
        87 | 119 => Key::W,
        88 | 120 => Key::X,
        89 | 121 => Key::Y,
        90 | 122 => Key::Z,
        48 => Key::Key0,
        49 => Key::Key1,
        50 => Key::Key2,
        51 => Key::Key3,
        52 => Key::Key4,
        53 => Key::Key5,
        54 => Key::Key6,
        55 => Key::Key7,
        56 => Key::Key8,
        57 => Key::Key9,
        9 => Key::Tab,
        _ => Key::Unknown,
    }
}

/// The key that curses reports by the code `event`, or `Key::Unknown` for a
/// code that stands for none.
pub fn get_key(event: i32) -> (key: Key)
    ensures
        key == key_of_code(event),
{
    match event {
        KEY_BREAK => Key::Pause,
        KEY_DOWN => Key::Down,
        KEY_UP => Key::Up,
        KEY_LEFT => Key::Left,
        KEY_RIGHT => Key::Right,
        KEY_HOME => Key::Home,
        KEY_BACKSPACE => Key::Back,
        KEY_F1 => Key::F1,
        KEY_F2 => Key::F2,
        KEY_F3 => Key::F3,
        KEY_F4 => Key::F4,
        KEY_F5 => Key::F5,
        KEY_F6 => Key::F6,
        KEY_F7 => Key::F7,
        KEY_F8 => Key::F8,
        KEY_F9 => Key::F9,
        KEY_F10 => Key::F10,
        KEY_F11 => Key::F11,
        KEY_F12 => Key::F12,
        KEY_F13 => Key::F13,
        KEY_F14 => Key::F14,
        KEY_F15 => Key::F15,
        KEY_DC => Key::Delete,
        KEY_EIC => Key::Insert,
        KEY_CLEAR => Key::Clear,
        KEY_NPAGE => Key::Next,
        KEY_PPAGE => Key::Prior,
        KEY_ENTER => Key::Return,
        KEY_PRINT => Key::Print,
        KEY_CANCEL => Key::Cancel,
        65 | 97 => Key::A,
        66 | 98 => Key::B,
        67 | 99 => Key::C,
        68 | 100 => Key::D,
        69 | 101 => Key::E,
        70 | 102 => Key::F,
        71 | 103 => Key::G,
        72 | 104 => Key::H,
        73 | 105 => Key::I,
        74 | 106 => Key::J,
        75 | 107 => Key::K,
        76 | 108 => Key::L,
        77 | 109 => Key::M,
        78 | 110 => Key::N,
        79 | 111 => Key::O,
        80 | 112 => Key::P,
        81 | 113 => Key::Q,
        82 | 114 => Key::R,
        83 | 115 => Key::S,
        84 | 116 => Key::T,
        85 | 117 => Key::U,
        86 | 118 => Key::V,
        87 | 119 => Key::W,
        88 | 120 => Key::X,
        89 | 121 => Key::Y,
        90 | 122 => Key::Z,
        48 => Key::Key0,
        49 => Key::Key1,
        50 => Key::Key2,
        51 => Key::Key3,
        52 => Key::Key4,
        53 => Key::Key5,
        54 => Key::Key6,
        55 => Key::Key7,
        56 => Key::Key8,
        57 => Key::Key9,
        9 => Key::Tab,
        _ => Key::Unknown,
    }
}

/// The character that curses reports by the code `event`: a letter or a
/// digit, or a space for any other code.
pub open spec fn character_of_code(event: i32) -> char {
    if 48 <= event <= 57 || 65 <= event <= 90 || 97 <= event <= 122 {
        event as char
    } else {
        ' '
    }
}

/// The character that curses reports by the code `event`.
pub fn get_character(event: i32) -> (character: char)
    ensures
        character == character_of_code(event),
{
    match event {
        65 => 'A',
        66 => 'B',
        67 => 'C',
        68 => 'D',
        69 => 'E',
        70 => 'F',
        71 => 'G',
        72 => 'H',
        73 => 'I',
        74 => 'J',
        75 => 'K',
        76 => 'L',
        77 => 'M',
        78 => 'N',
        79 => 'O',
        80 => 'P',
        81 => 'Q',
        82 => 'R',
        83 => 'S',
        84 => 'T',
        85 => 'U',
        86 => 'V',
        87 => 'W',
        88 => 'X',
        89 => 'Y',
        90 => 'Z',
        97 => 'a',
        98 => 'b',
        99 => 'c',
        100 => 'd',
        101 => 'e',
        102 => 'f',
        103 => 'g',
        104 => 'h',
        105 => 'i',
        106 => 'j',
        107 => 'k',
        108 => 'l',
        109 => 'm',
        110 => 'n',
        111 => 'o',
        112 => 'p',
        113 => 'q',
        114 => 'r',
        115 => 's',
        116 => 't',
        117 => 'u',
        118 => 'v',
        119 => 'w',
        120 => 'x',
        121 => 'y',
        122 => 'z',
        48 => '0',
        49 => '1',
        50 => '2',
        51 => '3',
        52 => '4',
        53 => '5',
        54 => '6',
        55 => '7',
        56 => '8',
        57 => '9',
        _ => ' ',
    }
}

/// The event of the key that curses reports by the code `key_event`; none
/// for a code that stands for no key. Curses tells only that a key went
/// down, and nothing of the modifier keys.
pub open spec fn key_event_of(key_event: i32) -> Option<Event> {
    if key_of_code(key_event) == Key::Unknown {
        None
    } else {
        Some(
            Event::Keyboard(
                KeyboardEvent {
                    event_type: KeyboardEventType::KeyDown,
                    key: key_of_code(key_event),
                    key_code: key_event as u16,
                    character: character_of_code(key_event),
                    left_control: false,
                    left_shift: false,
                    left_menu: false,
                    right_control: false,
                    right_shift: false,
                    right_menu: false,
                },
            ),
        )
    }
}

/// The event of the key that curses reports by the code `key_event`.
pub fn process_key_event(key_event: i32) -> (event: Option<Event>)
    ensures
        event == key_event_of(key_event),
{
    let key = get_key(key_event);
    if key == Key::Unknown {
        return None;
    }
    Some(
        Event::Keyboard(
            KeyboardEvent {
                event_type: KeyboardEventType::KeyDown,
                key,
                key_code: key_event as u16,
                character: get_character(key_event),
                left_control: false,
                left_shift: false,
                left_menu: false,
                right_control: false,
                right_shift: false,
                right_menu: false,
            },
        ),
    )
}

/// Which buttons of the mouse are held, as far as the reports of presses
/// and releases tell, and where the mouse was last reported. Curses reports
/// what a button did, not what state it is in; this keeps the state.
#[derive(Debug, Copy, Clone, PartialEq, Eq, Structural)]
pub struct ButtonLatch {
    pub left_button: bool,
    pub middle_button: bool,
    pub right_button: bool,
    pub extra_button_1: bool,
    pub position: Point2d,
}

/// Whether the report `state` has any bit of `mask`.
pub open spec fn has(state: u64, mask: u64) -> bool {
    state & mask != 0
}

/// Whether a button that was `held` is held after a report that says
/// whether it was pressed and whether it was released. A release counts
/// over a press in the same report.
pub open spec fn held_after(held: bool, pressed: bool, released: bool) -> bool {
    if released {
        false
    } else if pressed {
        true
    } else {
        held
    }
}

/// The latch `latch` after the report `state` of the mouse at `(x, y)`.
pub open spec fn latch_after(latch: ButtonLatch, state: u64, x: i32, y: i32) -> ButtonLatch {
    ButtonLatch {
        left_button: held_after(latch.left_button, has(state, 0x2), has(state, 0x1)),
        middle_button: held_after(latch.middle_button, has(state, 0x80), has(state, 0x40)),
        extra_button_1: held_after(latch.extra_button_1, has(state, 0x400), has(state, 0x200)),
        right_button: held_after(latch.right_button, has(state, 0x2000), has(state, 0x1000)),
        position: Point2d { x, y },
    }
}

/// Whether the report `state` of the mouse at `(x, y)` tells a turn of the
/// wheel downward: the bit for it counts only where the mouse has not moved
/// since the report before.
pub open spec fn wheel_down_in(latch: ButtonLatch, state: u64, x: i32, y: i32) -> bool {
    has(state, 0x800_0000) && x == latch.position.x && y == latch.position.y
}

/// What the mouse did, by the report `state` at `(x, y)`: a click counts
/// over a double click, that over a turn of the wheel, and anything else is
/// a move.
pub open spec fn mouse_event_type_of(latch: ButtonLatch, state: u64, x: i32, y: i32)
    -> MouseEventType {
    if has(state, 0x4) || has(state, 0x100) || has(state, 0x800) || has(state, 0x4000) {
        MouseEventType::Click
    } else if has(state, 0x8) || has(state, 0x8000) || has(state, 0x10) || has(state, 0x1_0000) {
        MouseEventType::DoubleClick
    } else if wheel_down_in(latch, state, x, y) || has(state, 0x8_0000) {
        MouseEventType::Wheel
    } else {
        MouseEventType::MouseMove
    }
}

/// The event that the report `state` of the mouse at `(x, y)` tells to one
/// who knew `latch` before. A button counts as held where the latch, after
/// the report, says so, and also where the report tells a click of it.
pub open spec fn mouse_event_of(latch: ButtonLatch, state: u64, x: i32, y: i32) -> Event {
    let after = latch_after(latch, state, x, y);
    Event::Mouse(
        MouseEvent {
            event_type: mouse_event_type_of(latch, state, x, y),
            left_button: after.left_button || has(state, 0x4) || has(state, 0x8) || has(
                state,
                0x10,
            ),
            middle_button: after.middle_button || has(state, 0x100),
            extra_button_1: after.extra_button_1 || has(state, 0x800),
            right_button: after.right_button || has(state, 0x4000) || has(state, 0x8000) || has(
                state,
                0x1_0000,
            ),
            extra_button_2: false,
            extra_button_3: false,
            extra_button_4: false,
            position: Point2d { x, y },
            wheel_delta: if has(state, 0x8_0000) {
                (-1i16)
            } else if wheel_down_in(latch, state, x, y) {
                1i16
            } else {
                0i16
            },
        },
    )
}

impl ButtonLatch {
    /// A latch that knows of no held button, with the mouse at the origin.
    pub fn new() -> (latch: ButtonLatch)
        ensures
            latch == (ButtonLatch {
                left_button: false,
                middle_button: false,
                right_button: false,
                extra_button_1: false,
                position: Point2d { x: 0, y: 0 },
            }),
    {
        ButtonLatch {
            left_button: false,
            middle_button: false,
            right_button: false,
            extra_button_1: false,
            position: Point2d::empty(),
        }
    }

    /// Takes note of the report `state` of the mouse at `(x, y)` and gives
    /// the event that it tells.
    pub fn process_mouse_event(&mut self, state: u64, x: i32, y: i32) -> (event: Event)
        ensures
            *final(self) == latch_after(*old(self), state, x, y),
            event == mouse_event_of(*old(self), state, x, y),
    {
        let release_1 = (state & 0x1) != 0;
        let press_1 = (state & 0x2) != 0;
        let click_1 = (state & 0x4) != 0;
        let double_click_1 = (state & 0x8) != 0;
        let triple_click_1 = (state & 0x10) != 0;
        let release_2 = (state & 0x40) != 0;
        let press_2 = (state & 0x80) != 0;
        let click_2 = (state & 0x100) != 0;
        let release_3 = (state & 0x200) != 0;
        let press_3 = (state & 0x400) != 0;
        let click_3 = (state & 0x800) != 0;
        let release_4 = (state & 0x1000) != 0;
        let press_4 = (state & 0x2000) != 0;
        let click_4 = (state & 0x4000) != 0;
        let double_click_4 = (state & 0x8000) != 0;
        let triple_click_4 = (state & 0x10000) != 0;
        let wheel_up = (state & 0x80000) != 0;
        let wheel_down = (state & 0x800_0000) != 0 && x == self.position.x && y == self.position.y;
        let mouse_event_type = if click_1 || click_2 || click_3 || click_4 {
            MouseEventType::Click
        } else if double_click_1 || double_click_4 || triple_click_1 || triple_click_4 {
            MouseEventType::DoubleClick
        } else if wheel_down || wheel_up {
            MouseEventType::Wheel
        } else {
            MouseEventType::MouseMove
        };
        if press_1 {
            self.left_button = true;
        }
        if release_1 {
            self.left_button = false;
        }
        if press_2 {
            self.middle_button = true;
        }
        if release_2 {
            self.middle_button = false;
        }
        if press_3 {
            self.extra_button_1 = true;
        }
        if release_3 {
            self.extra_button_1 = false;
        }
        if press_4 {
            self.right_button = true;
        }
        if release_4 {
            self.right_button = false;
        }
        self.position = Point2d::new(x, y);
        Event::Mouse(
            MouseEvent {
                event_type: mouse_event_type,
                left_button: self.left_button || click_1 || double_click_1 || triple_click_1,
                middle_button: self.middle_button || click_2,
                extra_button_1: self.extra_button_1 || click_3,
                right_button: self.right_button || click_4 || double_click_4 || triple_click_4,
                extra_button_2: false,
                extra_button_3: false,
                extra_button_4: false,
                position: Point2d::new(x, y),
                wheel_delta: if wheel_up {
                    -1
                } else if wheel_down {
                    1
                } else {
                    0
                },
            },
        )
    }
}

} // verus!
