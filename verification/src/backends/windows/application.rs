use vstd::prelude::*;
use crate::drawing::point_2d::Point2d;
use crate::drawing::size_2d::Size2d;
use crate::events::event::{
    Event, KeyboardEvent, KeyboardEventType, MouseEvent, MouseEventType, WindowEvent,
    WindowEventType,
};
use crate::events::event_queue::EventQueue;
use crate::input::key::Key;

verus! {

/// The bit of the control key state that says the left Alt key is held.
pub const LEFT_ALT_PRESSED: u32 = 0x0002;

/// The bit of the control key state that says the left Ctrl key is held.
pub const LEFT_CTRL_PRESSED: u32 = 0x0008;

/// The bit of the control key state that says the right Alt key is held.
pub const RIGHT_ALT_PRESSED: u32 = 0x0001;

/// The bit of the control key state that says the right Ctrl key is held.
pub const RIGHT_CTRL_PRESSED: u32 = 0x0004;

/// The bit of the button state of the leftmost mouse button.
pub const FROM_LEFT_1ST_BUTTON_PRESSED: u32 = 0x0001;

/// The bit of the button state of the rightmost mouse button.
pub const RIGHTMOST_BUTTON_PRESSED: u32 = 0x0002;

/// The bit of the button state of the second mouse button from the left.
pub const FROM_LEFT_2ND_BUTTON_PRESSED: u32 = 0x0004;

/// The bit of the button state of the third mouse button from the left.
pub const FROM_LEFT_3RD_BUTTON_PRESSED: u32 = 0x0008;

/// The bit of the button state of the fourth mouse button from the left.
pub const FROM_LEFT_4TH_BUTTON_PRESSED: u32 = 0x0010;

/// The event flags of a mouse that moved.
pub const MOUSE_MOVED: u32 = 0x0001;

/// The event flags of the second click of a double click.
pub const DOUBLE_CLICK: u32 = 0x0002;

/// The event flags of a turn of the vertical wheel.
pub const MOUSE_WHEELED: u32 = 0x0004;

/// The event flags of a turn of the horizontal wheel.
pub const MOUSE_HWHEELED: u32 = 0x0008;

/// The bit of the console mode that lets the mouse be reported.
pub const ENABLE_MOUSE_INPUT: u32 = 0x0010;

/// The bit of the console mode that lets changes of the window be reported.
pub const ENABLE_WINDOW_INPUT: u32 = 0x0008;

/// The bit of the console mode that lets the mouse select text.
pub const ENABLE_QUICK_EDIT_MODE: u32 = 0x0040;

/// The bit of the console mode that must be set for the quick edit bit to
/// count.
pub const ENABLE_EXTENDED_FLAGS: u32 = 0x0080;

/// What the console tells of a key: whether it went down, its virtual key
/// code, the character it stands for as a UTF-16 code unit, the state of
/// the control keys, and the states of the two Shift keys as the keyboard
/// tells them.
#[derive(Debug, Copy, Clone, PartialEq, Eq, Structural)]
pub struct KeyRecord {
    pub key_down: i32,
    pub virtual_key_code: u16,
    pub unicode_char: u16,
    pub control_key_state: u32,
    pub left_shift_state: u16,
    pub right_shift_state: u16,
}

/// What the console tells of the mouse: what it did, which buttons are
/// held (with the turn of the wheel in the high half), and the cell that
/// the pointer is in.
#[derive(Debug, Copy, Clone, PartialEq, Eq, Structural)]
pub struct MouseRecord {
    pub event_flags: u32,
    pub button_state: u32,
    pub x: i16,
    pub y: i16,
}

/// The console mode `mode` made fit for an application that draws the whole
/// screen: text selection by the mouse is switched off, and the reports of
/// the mouse and of the window are switched on.
pub open spec fn input_mode_of(mode: u32) -> u32 {
    (mode & !ENABLE_QUICK_EDIT_MODE) | (ENABLE_MOUSE_INPUT | ENABLE_WINDOW_INPUT
        | ENABLE_EXTENDED_FLAGS)
}

/// The console mode `mode` made fit for an application that draws the whole
/// screen.
pub fn input_mode(mode: u32) -> (fit: u32)
    ensures
        fit == input_mode_of(mode),
        fit & ENABLE_QUICK_EDIT_MODE == 0,
        fit & ENABLE_MOUSE_INPUT != 0,
        fit & ENABLE_WINDOW_INPUT != 0,
        fit & ENABLE_EXTENDED_FLAGS != 0,
{
    let fit = (mode & !ENABLE_QUICK_EDIT_MODE) | (ENABLE_MOUSE_INPUT | ENABLE_WINDOW_INPUT
        | ENABLE_EXTENDED_FLAGS);
    assert(((mode & !0x0040u32) | (0x0010u32 | 0x0008u32 | 0x0080u32)) & 0x0040u32 == 0)
        by (bit_vector);
    assert(((mode & !0x0040u32) | (0x0010u32 | 0x0008u32 | 0x0080u32)) & 0x0010u32 != 0)
        by (bit_vector);
    assert(((mode & !0x0040u32) | (0x0010u32 | 0x0008u32 | 0x0080u32)) & 0x0008u32 != 0)
        by (bit_vector);
    assert(((mode & !0x0040u32) | (0x0010u32 | 0x0008u32 | 0x0080u32)) & 0x0080u32 != 0)
        by (bit_vector);
    fit
}

/// The turn of the wheel that the button state `button_state` carries: its
/// high half, read as a signed number.
pub open spec fn wheel_delta_of(button_state: u32) -> int {
    let high = button_state as int / 0x1_0000;
    if high < 0x8000 {
        high
    } else {
        high - 0x1_0000
    }
}

/// The turn of the wheel that the button state `button_state` carries.
pub fn get_wheel_delta(button_state: u32) -> (delta: i16)
    ensures
        delta == wheel_delta_of(button_state),
{
    let high = button_state >> 16;
    assert(button_state >> 16 == button_state / 0x1_0000 && (button_state >> 16) <= 0xffff)
        by (bit_vector);
    if high < 0x8000 {
        high as i16
    } else {
        (high as i32 - 0x1_0000) as i16
    }
}

/// The character of the UTF-16 code unit `unicode`: the character with that
/// code, or a space where the unit is half of a surrogate pair.
pub open spec fn char_of_unit(unicode: u16) -> char {
    if 0xD800 <= unicode <= 0xDFFF {
        ' '
    } else {
        unicode as char
    }
}

/// `char::from_u32` gives the character with the code `i`, and `None` where
/// `i` is no code of a character: in the range of the surrogates, or beyond
/// the last code.
pub assume_specification[ core::char::from_u32 ](i: u32) -> (c: Option<char>)
    ensures
        c == if i <= 0xD7FF || (0xE000 <= i && i <= 0x10FFFF) {
            Some(i as char)
        } else {
            None
        },
;

/// The character of the UTF-16 code unit `unicode`.
pub fn get_char_from_u16(unicode: u16) -> (character: char)
    ensures
        character == char_of_unit(unicode),
{
    match core::char::from_u32(unicode as u32) {
        Some(character) => character,
        None => ' ',
    }
}

/// The key that the virtual key code `virtual_key_code` stands for.
pub open spec fn key_of_code(virtual_key_code: u16) -> Key {
    match virtual_key_code {
        0x01 => Key::LeftButton,
        0x02 => Key::RightButton,
        0x03 => Key::Cancel,
        0x04 => Key::MiddleButton,
        0x05 => Key::XButton1,
        0x06 => Key::XButton2,
        0x08 => Key::Back,
        0x09 => Key::Tab,
        0x0C => Key::Clear,
        0x0D => Key::Return,
        0x10 => Key::Shift,
        0x11 => Key::Control,
        0x12 => Key::Menu,
        0x13 => Key::Pause,
        0x14 => Key::Capital,
        0x15 => Key::KanaHangelHangul,
        0x17 => Key::Junja,
        0x18 => Key::Final,
        0x19 => Key::HanjaKanji,
        0x1B => Key::Escape,
        0x1C => Key::Convert,
        0x1D => Key::NonConvert,
        0x1E => Key::Accept,
        0x1F => Key::ModeChange,
        0x20 => Key::Space,
        0x21 => Key::Prior,
        0x22 => Key::Next,
        0x23 => Key::End,
        0x24 => Key::Home,
        0x25 => Key::Left,
        0x26 => Key::Up,
        0x27 => Key::Right,
        0x28 => Key::Down,
        0x29 => Key::Select,
        0x2A => Key::Print,
        0x2B => Key::Execute,
        0x2C => Key::Snapshot,
        0x2D => Key::Insert,
        0x2E => Key::Delete,
        0x2F => Key::Help,
        0x30 => Key::Key0,
        0x31 => Key::Key1,
        0x32 => Key::Key2,
        0x33 => Key::Key3,
        0x34 => Key::Key4,
        0x35 => Key::Key5,
        0x36 => Key::Key6,
        0x37 => Key::Key7,
        0x38 => Key::Key8,
        0x39 => Key::Key9,
        0x41 => Key::A,
        0x42 => Key::B,
        0x43 => Key::C,
        0x44 => Key::D,
        0x45 => Key::E,
        0x46 => Key::F,
        0x47 => Key::G,
        0x48 => Key::H,
        0x49 => Key::I,
        0x4A => Key::J,
        0x4B => Key::K,
        0x4C => Key::L,
        0x4D => Key::M,
        0x4E => Key::N,
        0x4F => Key::O,
        0x50 => Key::P,
        0x51 => Key::Q,
        0x52 => Key::R,
        0x53 => Key::S,
        0x54 => Key::T,
        0x55 => Key::U,
        0x56 => Key::V,
        0x57 => Key::W,
        0x58 => Key::X,
        0x59 => Key::Y,
        0x5A => Key::Z,
        0x5B => Key::LeftWin,
        0x5C => Key::RightWin,
        0x5D => Key::Apps,
        0x5F => Key::Sleep,
        0x60 => Key::NumPad0,
        0x61 => Key::NumPad1,
        0x62 => Key::NumPad2,
        0x63 => Key::NumPad3,
        0x64 => Key::NumPad4,
        0x65 => Key::NumPad5,
        0x66 => Key::NumPad6,
        0x67 => Key::NumPad7,
        0x68 => Key::NumPad8,
        0x69 => Key::NumPad9,
        0x6A => Key::Multiply,
        0x6B => Key::Add,
        0x6C => Key::Separator,
        0x6D => Key::Subtract,
        0x6E => Key::Decimal,
        0x6F => Key::Divide,
        0x70 => Key::F1,
        0x71 => Key::F2,
        0x72 => Key::F3,
        0x73 => Key::F4,
        0x74 => Key::F5,
        0x75 => Key::F6,
        0x76 => Key::F7,
        0x77 => Key::F8,
        0x78 => Key::F9,
        0x79 => Key::F10,
        0x7A => Key::F11,
        0x7B => Key::F12,
        0x7C => Key::F13,
        0x7D => Key::F14,
        0x7E => Key::F15,
        0x7F => Key::F16,
        0x80 => Key::F17,
        0x81 => Key::F18,
        0x82 => Key::F19,
        0x83 => Key::F20,
        0x84 => Key::F21,
        0x85 => Key::F22,
        0x86 => Key::F23,
        0x87 => Key::F24,
        0x90 => Key::NumLock,
        0x91 => Key::Scroll,
        0xA0 => Key::LeftShift,
        0xA1 => Key::RightShift,
        0xA2 => Key::LeftControl,
        0xA3 => Key::RightControl,
        0xA4 => Key::LeftMenu,
        0xA5 => Key::RightMenu,
        0xA6 => Key::BrowserBack,
        0xA7 => Key::BrowserForward,
        0xA8 => Key::BrowserRefresh,
        0xA9 => Key::BrowserStop,
        0xAA => Key::BrowserSearch,
        0xAB => Key::BrowserFavorites,
        0xAC => Key::BrowserHome,
        0xAD => Key::VolumeMute,
        0xAE => Key::VolumeDown,
        0xAF => Key::VolumeUp,
        0xB0 => Key::MediaNextTrack,
        0xB1 => Key::MediaPreviousTrack,
        0xB2 => Key::MediaStop,
        0xB3 => Key::MediaPlayPause,
        0xB4 => Key::LaunchMail,
        0xB5 => Key::LaunchMediaSelect,
        0xB6 => Key::LaunchApp1,
        0xB7 => Key::LaunchApp2,
        0xBA => Key::Oem1,
        0xBB => Key::Plus,
        0xBC => Key::Comma,
        0xBD => Key::Minus,
        0xBE => Key::Period,
        0xBF => Key::Oem2,
        0xC0 => Key::Oem3,
        0xDB => Key::Oem4,
        0xDC => Key::Oem5,
        0xDD => Key::Oem6,
        0xDE => Key::Oem7,
        0xDF => Key::Oem8,
        0xE5 => Key::ProcessKey,
        0xE6 => Key::ImeProcess,
        0xE7 => Key::Packet,
        0xF6 => Key::Attn,
        0xF7 => Key::CrSel,
        0xF8 => Key::ExSel,
        0xF9 => Key::EraseEof,
        0xFA => Key::Play,
        0xFB => Key::Zoom,
        0xFD => Key::PA1,
        0xFE => Key::Clear,
        _ => Key::Unknown,
    }
}

/// The key that the virtual key code `virtual_key_code` stands for, or
/// `Key::Unknown` for a code that stands for none.
pub fn get_key(virtual_key_code: u16) -> (key: Key)
    ensures
        key == key_of_code(virtual_key_code),
{
    match virtual_key_code {
        0x01 => Key::LeftButton,
        0x02 => Key::RightButton,
        0x03 => Key::Cancel,
        0x04 => Key::MiddleButton,
        0x05 => Key::XButton1,
        0x06 => Key::XButton2,
        0x08 => Key::Back,
        0x09 => Key::Tab,
        0x0C => Key::Clear,
        0x0D => Key::Return,
        0x10 => Key::Shift,
        0x11 => Key::Control,
        0x12 => Key::Menu,
        0x13 => Key::Pause,
        0x14 => Key::Capital,
        0x15 => Key::KanaHangelHangul,
        0x17 => Key::Junja,
        0x18 => Key::Final,
        0x19 => Key::HanjaKanji,
        0x1B => Key::Escape,
        0x1C => Key::Convert,
        0x1D => Key::NonConvert,
        0x1E => Key::Accept,
        0x1F => Key::ModeChange,
        0x20 => Key::Space,
        0x21 => Key::Prior,
        0x22 => Key::Next,
        0x23 => Key::End,
        0x24 => Key::Home,
        0x25 => Key::Left,
        0x26 => Key::Up,
        0x27 => Key::Right,
        0x28 => Key::Down,
        0x29 => Key::Select,
        0x2A => Key::Print,
        0x2B => Key::Execute,
        0x2C => Key::Snapshot,
        0x2D => Key::Insert,
        0x2E => Key::Delete,
        0x2F => Key::Help,
        0x30 => Key::Key0,
        0x31 => Key::Key1,
        0x32 => Key::Key2,
        0x33 => Key::Key3,
        0x34 => Key::Key4,
        0x35 => Key::Key5,
        0x36 => Key::Key6,
        0x37 => Key::Key7,
        0x38 => Key::Key8,
        0x39 => Key::Key9,
        0x41 => Key::A,
        0x42 => Key::B,
        0x43 => Key::C,
        0x44 => Key::D,
        0x45 => Key::E,
        0x46 => Key::F,
        0x47 => Key::G,
        0x48 => Key::H,
        0x49 => Key::I,
        0x4A => Key::J,
        0x4B => Key::K,
        0x4C => Key::L,
        0x4D => Key::M,
        0x4E => Key::N,
        0x4F => Key::O,
        0x50 => Key::P,
        0x51 => Key::Q,
        0x52 => Key::R,
        0x53 => Key::S,
        0x54 => Key::T,
        0x55 => Key::U,
        0x56 => Key::V,
        0x57 => Key::W,
        0x58 => Key::X,
        0x59 => Key::Y,
        0x5A => Key::Z,
        0x5B => Key::LeftWin,
        0x5C => Key::RightWin,
        0x5D => Key::Apps,
        0x5F => Key::Sleep,
        0x60 => Key::NumPad0,
        0x61 => Key::NumPad1,
        0x62 => Key::NumPad2,
        0x63 => Key::NumPad3,
        0x64 => Key::NumPad4,
        0x65 => Key::NumPad5,
        0x66 => Key::NumPad6,
        0x67 => Key::NumPad7,
        0x68 => Key::NumPad8,
        0x69 => Key::NumPad9,
        0x6A => Key::Multiply,
        0x6B => Key::Add,
        0x6C => Key::Separator,
        0x6D => Key::Subtract,
        0x6E => Key::Decimal,
        0x6F => Key::Divide,
        0x70 => Key::F1,
        0x71 => Key::F2,
        0x72 => Key::F3,
        0x73 => Key::F4,
        0x74 => Key::F5,
        0x75 => Key::F6,
        0x76 => Key::F7,
        0x77 => Key::F8,
        0x78 => Key::F9,
        0x79 => Key::F10,
        0x7A => Key::F11,
        0x7B => Key::F12,
        0x7C => Key::F13,
        0x7D => Key::F14,
        0x7E => Key::F15,
        0x7F => Key::F16,
        0x80 => Key::F17,
        0x81 => Key::F18,
        0x82 => Key::F19,
        0x83 => Key::F20,
        0x84 => Key::F21,
        0x85 => Key::F22,
        0x86 => Key::F23,
        0x87 => Key::F24,
        0x90 => Key::NumLock,
        0x91 => Key::Scroll,
        0xA0 => Key::LeftShift,
        0xA1 => Key::RightShift,
        0xA2 => Key::LeftControl,
        0xA3 => Key::RightControl,
        0xA4 => Key::LeftMenu,
        0xA5 => Key::RightMenu,
        0xA6 => Key::BrowserBack,
        0xA7 => Key::BrowserForward,
        0xA8 => Key::BrowserRefresh,
        0xA9 => Key::BrowserStop,
        0xAA => Key::BrowserSearch,
        0xAB => Key::BrowserFavorites,
        0xAC => Key::BrowserHome,
        0xAD => Key::VolumeMute,
        0xAE => Key::VolumeDown,
        0xAF => Key::VolumeUp,
        0xB0 => Key::MediaNextTrack,
        0xB1 => Key::MediaPreviousTrack,
        0xB2 => Key::MediaStop,
        0xB3 => Key::MediaPlayPause,
        0xB4 => Key::LaunchMail,
        0xB5 => Key::LaunchMediaSelect,
        0xB6 => Key::LaunchApp1,
        0xB7 => Key::LaunchApp2,
        0xBA => Key::Oem1,
        0xBB => Key::Plus,
        0xBC => Key::Comma,
        0xBD => Key::Minus,
        0xBE => Key::Period,
        0xBF => Key::Oem2,
        0xC0 => Key::Oem3,
        0xDB => Key::Oem4,
        0xDC => Key::Oem5,
        0xDD => Key::Oem6,
        0xDE => Key::Oem7,
        0xDF => Key::Oem8,
        0xE5 => Key::ProcessKey,
        0xE6 => Key::ImeProcess,
        0xE7 => Key::Packet,
        0xF6 => Key::Attn,
        0xF7 => Key::CrSel,
        0xF8 => Key::ExSel,
        0xF9 => Key::EraseEof,
        0xFA => Key::Play,
        0xFB => Key::Zoom,
        0xFD => Key::PA1,
        0xFE => Key::Clear,
        _ => Key::Unknown,
    }
}

/// The event that the record `record` of a key tells.
pub open spec fn key_event_of(record: KeyRecord) -> Event {
    Event::Keyboard(
        KeyboardEvent {
            event_type: if record.key_down == -1 {
                KeyboardEventType::KeyUp
            } else {
                KeyboardEventType::KeyDown
            },
            key: key_of_code(record.virtual_key_code),
            key_code: record.virtual_key_code,
            character: char_of_unit(record.unicode_char),
            left_control: record.control_key_state & LEFT_CTRL_PRESSED != 0,
            left_shift: record.left_shift_state & 0x8000 != 0,
            left_menu: record.control_key_state & LEFT_ALT_PRESSED != 0,
            right_control: record.control_key_state & RIGHT_CTRL_PRESSED != 0,
            right_shift: record.right_shift_state & 0x8000 != 0,
            right_menu: record.control_key_state & RIGHT_ALT_PRESSED != 0,
        },
    )
}

/// The event that the record `record` of a key tells.
pub fn process_key_event(record: KeyRecord) -> (event: Event)
    ensures
        event == key_event_of(record),
{
    Event::Keyboard(
        KeyboardEvent {
            event_type: if record.key_down == -1 {
                KeyboardEventType::KeyUp
            } else {
                KeyboardEventType::KeyDown
            },
            key: get_key(record.virtual_key_code),
            key_code: record.virtual_key_code,
            character: get_char_from_u16(record.unicode_char),
            left_control: record.control_key_state & LEFT_CTRL_PRESSED != 0,
            left_shift: record.left_shift_state & 0x8000 != 0,
            left_menu: record.control_key_state & LEFT_ALT_PRESSED != 0,
            right_control: record.control_key_state & RIGHT_CTRL_PRESSED != 0,
            right_shift: record.right_shift_state & 0x8000 != 0,
            right_menu: record.control_key_state & RIGHT_ALT_PRESSED != 0,
        },
    )
}

/// What the mouse did, by the event flags `event_flags`. Flags that name
/// nothing known count as a move.
pub open spec fn mouse_event_type_of(event_flags: u32) -> MouseEventType {
    if event_flags == 0 {
        MouseEventType::Click
    } else if event_flags == MOUSE_MOVED {
        MouseEventType::MouseMove
    } else if event_flags == MOUSE_WHEELED {
        MouseEventType::HorizontalWheel
    } else if event_flags == MOUSE_HWHEELED {
        MouseEventType::VerticalWheel
    } else if event_flags == DOUBLE_CLICK {
        MouseEventType::DoubleClick
    } else {
        MouseEventType::MouseMove
    }
}

/// The event that the record `record` of the mouse tells.
pub open spec fn mouse_event_of(record: MouseRecord) -> Event {
    Event::Mouse(
        MouseEvent {
            event_type: mouse_event_type_of(record.event_flags),
            left_button: record.button_state & FROM_LEFT_1ST_BUTTON_PRESSED != 0,
            middle_button: record.button_state & FROM_LEFT_2ND_BUTTON_PRESSED != 0,
            right_button: record.button_state & RIGHTMOST_BUTTON_PRESSED != 0,
            extra_button_1: record.button_state & FROM_LEFT_3RD_BUTTON_PRESSED != 0,
            extra_button_2: record.button_state & FROM_LEFT_4TH_BUTTON_PRESSED != 0,
            extra_button_3: false,
            extra_button_4: false,
            position: Point2d { x: record.x as i32, y: record.y as i32 },
            wheel_delta: wheel_delta_of(record.button_state) as i16,
        },
    )
}

/// The event that the record `record` of the mouse tells.
pub fn process_mouse_event(record: MouseRecord) -> (event: Event)
    ensures
        event == mouse_event_of(record),
{
    let event_type = if record.event_flags == 0 {
        MouseEventType::Click
    } else if record.event_flags == MOUSE_MOVED {
        MouseEventType::MouseMove
    } else if record.event_flags == MOUSE_WHEELED {
        MouseEventType::HorizontalWheel
    } else if record.event_flags == MOUSE_HWHEELED {
        MouseEventType::VerticalWheel
    } else if record.event_flags == DOUBLE_CLICK {
        MouseEventType::DoubleClick
    } else {
        MouseEventType::MouseMove
    };
    Event::Mouse(
        MouseEvent {
            event_type,
            left_button: record.button_state & FROM_LEFT_1ST_BUTTON_PRESSED != 0,
            middle_button: record.button_state & FROM_LEFT_2ND_BUTTON_PRESSED != 0,
            right_button: record.button_state & RIGHTMOST_BUTTON_PRESSED != 0,
            extra_button_1: record.button_state & FROM_LEFT_3RD_BUTTON_PRESSED != 0,
            extra_button_2: record.button_state & FROM_LEFT_4TH_BUTTON_PRESSED != 0,
            extra_button_3: false,
            extra_button_4: false,
            position: Point2d::new(record.x as i32, record.y as i32),
            wheel_delta: get_wheel_delta(record.button_state),
        },
    )
}

/// The event of a window at `position` and of extent `size` that has come
/// to the front.
pub fn process_window_event(position: Point2d, size: Size2d) -> (event: Event)
    ensures
        event == Event::Window(
            WindowEvent { event_type: WindowEventType::WindowFocus, position, size },
        ),
{
    Event::Window(WindowEvent { event_type: WindowEventType::WindowFocus, position, size })
}

/// What the console tells at a time: of a key, of the mouse, that the
/// window has come to the front, where it then is and how large, or
/// something that is no event.
#[derive(Debug, Copy, Clone, PartialEq, Eq, Structural)]
pub enum InputRecord {
    Key(KeyRecord),
    Mouse(MouseRecord),
    Focus(Point2d, Size2d),
    Other,
}

/// The event that the record `record` tells, if it tells one.
pub open spec fn event_of(record: InputRecord) -> Option<Event> {
    match record {
        InputRecord::Key(key) => Some(key_event_of(key)),
        InputRecord::Mouse(mouse) => Some(mouse_event_of(mouse)),
        InputRecord::Focus(position, size) => Some(
            Event::Window(WindowEvent { event_type: WindowEventType::WindowFocus, position, size }),
        ),
        InputRecord::Other => None,
    }
}

/// The events that the records `records` tell, in the order of the records.
pub open spec fn events_of(records: Seq<InputRecord>) -> Seq<Event>
    decreases records.len(),
{
    if records.len() == 0 {
        Seq::empty()
    } else {
        match event_of(records.last()) {
            Some(event) => events_of(records.drop_last()).push(event),
            None => events_of(records.drop_last()),
        }
    }
}

/// Adds to `event_queue` the events that the records `records` tell, in the
/// order of the records.
pub fn process_input_records(event_queue: &mut EventQueue, records: &Vec<InputRecord>)
    ensures
        final(event_queue)@ == old(event_queue)@ + events_of(records@),
{
    let count = records.len();
    let mut index: usize = 0;
    proof {
        assert(records@.take(0) =~= Seq::<InputRecord>::empty());
        assert(event_queue@ =~= old(event_queue)@ + events_of(records@.take(0)));
    }
    while index < count
        invariant
            index <= count,
            count == records@.len(),
            event_queue@ == old(event_queue)@ + events_of(records@.take(index as int)),
        decreases count - index,
    {
        proof {
            assert(records@.take(index + 1).drop_last() =~= records@.take(index as int));
        }
        match records[index] {
            InputRecord::Key(key) => {
                event_queue.add_event(process_key_event(key));
            },
            InputRecord::Mouse(mouse) => {
                event_queue.add_event(process_mouse_event(mouse));
            },
            InputRecord::Focus(position, size) => {
                event_queue.add_event(process_window_event(position, size));
            },
            InputRecord::Other => {},
        }
        proof {
            assert(event_queue@ =~= old(event_queue)@ + events_of(records@.take(index + 1)));
        }
        index += 1;
    }
    proof {
        assert(records@.take(count as int) =~= records@);
    }
}

} // verus!
