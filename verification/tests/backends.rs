use tokterm::backends::ncurses::application as curses;
use tokterm::backends::ncurses::mouse::NCursesMouse;
use tokterm::backends::ncurses::terminal::PairTable;
use tokterm::backends::ncurses::window::NCursesWindow;
use tokterm::backends::termion::application as raw;
use tokterm::backends::termion::color::color_to_u8;
use tokterm::backends::termion::mouse::TermionMouse;
use tokterm::backends::termion::terminal::{clear_code, cursor_code, cursor_visibility_code, render};
use tokterm::backends::termion::window::TermionWindow;
use tokterm::backends::unix::color::{color_to_i16, ColorPair};
use tokterm::backends::unix::mouse::UnixMouse;
use tokterm::backends::unix::window::UnixWindow;
use tokterm::backends::windows::application as console;
use tokterm::backends::windows::color::{get_color_from_u16, get_u16_from_color};
use tokterm::backends::windows::terminal::{cell_attributes, char_size, code_unit, console_size};
use tokterm::drawing::cell::Cell;
use tokterm::drawing::cell_buffer::CellBuffer;
use tokterm::drawing::color::Color;
use tokterm::drawing::point_2d::Point2d;
use tokterm::drawing::size_2d::Size2d;
use tokterm::events::event::{Event, KeyboardEventType, MouseEventType, WindowEventType};
use tokterm::input::key::Key;
use tokterm::system::mouse::Mouse;
use tokterm::system::window::Window;

#[test]
fn console_names_each_color_by_bits_of_its_own() {
    assert_eq!(get_u16_from_color(Color::Black), 0);
    assert_eq!(get_u16_from_color(Color::DarkBlue), 1);
    assert_eq!(get_u16_from_color(Color::DarkRed), 4);
    assert_eq!(get_u16_from_color(Color::Grey), 7);
    assert_eq!(get_u16_from_color(Color::Red), 12);
    assert_eq!(get_u16_from_color(Color::White), 15);
    assert_eq!(get_color_from_u16(9), Color::Blue);
    assert_eq!(get_color_from_u16(0x19), Color::Blue);
    assert_eq!(get_color_from_u16(0xfff0), Color::Black);
    for color in Color::to_vec() {
        assert_eq!(get_color_from_u16(get_u16_from_color(color)), color);
    }
}

#[test]
fn console_attributes_hold_the_color_and_the_ground() {
    assert_eq!(cell_attributes(Cell::new('x', Color::White, Color::Blue)), 0x9f);
    assert_eq!(cell_attributes(Cell::new('x', Color::Black, Color::Black)), 0);
    assert_eq!(cell_attributes(Cell::new('x', Color::DarkBlue, Color::White)), 0xf1);
    assert_eq!(code_unit('A'), 65);
    assert_eq!(code_unit('\u{2500}'), 0x2500);
    assert_eq!(code_unit('\u{1f600}'), 0xf600);
}

#[test]
fn console_size_counts_its_last_column_and_row() {
    assert_eq!(console_size(0, 0, 79, 24), Size2d::new(80, 25));
    assert_eq!(console_size(5, 3, 5, 3), Size2d::new(1, 1));
    assert_eq!(console_size(5, 3, 4, 2), Size2d::new(0, 0));
    assert_eq!(console_size(-32768, -32768, 32767, 32767), Size2d::new(65536, 65536));
    assert_eq!(char_size(Size2d::new(80, 25), Size2d::new(640, 400)), Size2d::new(8, 16));
    assert_eq!(char_size(Size2d::new(80, 25), Size2d::new(650, 410)), Size2d::new(8, 16));
    assert_eq!(char_size(Size2d::new(0, 25), Size2d::new(640, 400)), Size2d::empty());
    assert_eq!(char_size(Size2d::new(80, 0), Size2d::new(640, 400)), Size2d::empty());
}

#[test]
fn console_mode_is_made_fit_for_drawing() {
    assert_eq!(console::input_mode(0), 0x98);
    assert_eq!(console::input_mode(0x40), 0x98);
    assert_eq!(console::input_mode(0x1f7), 0x1bf);
    assert_eq!(console::input_mode(u32::MAX), u32::MAX & !0x40);
}

#[test]
fn wheel_delta_is_the_signed_high_half() {
    assert_eq!(console::get_wheel_delta(0), 0);
    assert_eq!(console::get_wheel_delta(0x0078_0000), 120);
    assert_eq!(console::get_wheel_delta(0xff88_0001), -120);
    assert_eq!(console::get_wheel_delta(0x7fff_ffff), 32767);
    assert_eq!(console::get_wheel_delta(0x8000_0000), -32768);
    assert_eq!(console::get_wheel_delta(0xffff_ffff), -1);
    assert_eq!(console::get_wheel_delta(0x0000_ffff), 0);
}

#[test]
fn code_units_become_characters() {
    assert_eq!(console::get_char_from_u16(65), 'A');
    assert_eq!(console::get_char_from_u16(0), '\0');
    assert_eq!(console::get_char_from_u16(0x2500), '\u{2500}');
    assert_eq!(console::get_char_from_u16(0xd7ff), '\u{d7ff}');
    assert_eq!(console::get_char_from_u16(0xd800), ' ');
    assert_eq!(console::get_char_from_u16(0xdfff), ' ');
    assert_eq!(console::get_char_from_u16(0xe000), '\u{e000}');
    assert_eq!(console::get_char_from_u16(0xffff), '\u{ffff}');
}

#[test]
fn virtual_key_codes_name_keys() {
    assert_eq!(console::get_key(0x01), Key::LeftButton);
    assert_eq!(console::get_key(0x08), Key::Back);
    assert_eq!(console::get_key(0x0c), Key::Clear);
    assert_eq!(console::get_key(0x0d), Key::Return);
    assert_eq!(console::get_key(0x1b), Key::Escape);
    assert_eq!(console::get_key(0x20), Key::Space);
    assert_eq!(console::get_key(0x30), Key::Key0);
    assert_eq!(console::get_key(0x39), Key::Key9);
    assert_eq!(console::get_key(0x41), Key::A);
    assert_eq!(console::get_key(0x51), Key::Q);
    assert_eq!(console::get_key(0x5a), Key::Z);
    assert_eq!(console::get_key(0x70), Key::F1);
    assert_eq!(console::get_key(0x87), Key::F24);
    assert_eq!(console::get_key(0xa0), Key::LeftShift);
    assert_eq!(console::get_key(0xa5), Key::RightMenu);
    assert_eq!(console::get_key(0xbb), Key::Plus);
    assert_eq!(console::get_key(0xfd), Key::PA1);
    assert_eq!(console::get_key(0xfe), Key::Clear);
    assert_eq!(console::get_key(0x00), Key::Unknown);
    assert_eq!(console::get_key(0x07), Key::Unknown);
    assert_eq!(console::get_key(0x3a), Key::Unknown);
    assert_eq!(console::get_key(0xff), Key::Unknown);
    assert_eq!(console::get_key(0x141), Key::Unknown);
}

#[test]
fn console_key_records_become_events() {
    let event = console::process_key_event(console::KeyRecord {
        key_down: 1,
        virtual_key_code: 0x41,
        unicode_char: 97,
        control_key_state: console::LEFT_CTRL_PRESSED | console::RIGHT_ALT_PRESSED,
        left_shift_state: 0x8001,
        right_shift_state: 0x0001,
    });
    match event {
        Event::Keyboard(keyboard) => {
            assert_eq!(keyboard.event_type, KeyboardEventType::KeyDown);
            assert_eq!(keyboard.key, Key::A);
            assert_eq!(keyboard.key_code, 0x41);
            assert_eq!(keyboard.character, 'a');
            assert!(keyboard.left_control);
            assert!(keyboard.left_shift);
            assert!(!keyboard.left_menu);
            assert!(!keyboard.right_control);
            assert!(!keyboard.right_shift);
            assert!(keyboard.right_menu);
        }
        _ => panic!("not a keyboard event"),
    }
    let event = console::process_key_event(console::KeyRecord {
        key_down: -1,
        virtual_key_code: 0x0d,
        unicode_char: 0xd800,
        control_key_state: console::RIGHT_CTRL_PRESSED | console::LEFT_ALT_PRESSED | 0x100,
        left_shift_state: 0,
        right_shift_state: 0xffff,
    });
    match event {
        Event::Keyboard(keyboard) => {
            assert_eq!(keyboard.event_type, KeyboardEventType::KeyUp);
            assert_eq!(keyboard.key, Key::Return);
            assert_eq!(keyboard.character, ' ');
            assert!(!keyboard.left_control);
            assert!(!keyboard.left_shift);
            assert!(keyboard.left_menu);
            assert!(keyboard.right_control);
            assert!(keyboard.right_shift);
            assert!(!keyboard.right_menu);
        }
        _ => panic!("not a keyboard event"),
    }
    match console::process_key_event(console::KeyRecord {
        key_down: 0,
        virtual_key_code: 0,
        unicode_char: 0,
        control_key_state: 0,
        left_shift_state: 0,
        right_shift_state: 0,
    }) {
        Event::Keyboard(keyboard) => {
            assert_eq!(keyboard.event_type, KeyboardEventType::KeyDown);
            assert_eq!(keyboard.key, Key::Unknown);
        }
        _ => panic!("not a keyboard event"),
    }
}

#[test]
fn console_mouse_records_become_events() {
    let kinds = [
        (0, MouseEventType::Click),
        (console::MOUSE_MOVED, MouseEventType::MouseMove),
        (console::DOUBLE_CLICK, MouseEventType::DoubleClick),
        (console::MOUSE_WHEELED, MouseEventType::HorizontalWheel),
        (console::MOUSE_HWHEELED, MouseEventType::VerticalWheel),
        (3, MouseEventType::MouseMove),
        (0x10, MouseEventType::MouseMove),
    ];
    for (event_flags, expected) in kinds {
        match console::process_mouse_event(console::MouseRecord {
            event_flags,
            button_state: 0,
            x: 0,
            y: 0,
        }) {
            Event::Mouse(mouse) => assert_eq!(mouse.event_type, expected),
            _ => panic!("not a mouse event"),
        }
    }
    match console::process_mouse_event(console::MouseRecord {
        event_flags: console::MOUSE_WHEELED,
        button_state: 0xff88_0000 | console::FROM_LEFT_1ST_BUTTON_PRESSED
            | console::FROM_LEFT_3RD_BUTTON_PRESSED,
        x: 12,
        y: -3,
    }) {
        Event::Mouse(mouse) => {
            assert!(mouse.left_button);
            assert!(!mouse.middle_button);
            assert!(!mouse.right_button);
            assert!(mouse.extra_button_1);
            assert!(!mouse.extra_button_2);
            assert!(!mouse.extra_button_3);
            assert!(!mouse.extra_button_4);
            assert_eq!(mouse.position, Point2d::new(12, -3));
            assert_eq!(mouse.wheel_delta, -120);
        }
        _ => panic!("not a mouse event"),
    }
    match console::process_mouse_event(console::MouseRecord {
        event_flags: 0,
        button_state: console::RIGHTMOST_BUTTON_PRESSED | console::FROM_LEFT_2ND_BUTTON_PRESSED
            | console::FROM_LEFT_4TH_BUTTON_PRESSED,
        x: 0,
        y: 0,
    }) {
        Event::Mouse(mouse) => {
            assert!(!mouse.left_button);
            assert!(mouse.middle_button);
            assert!(mouse.right_button);
            assert!(!mouse.extra_button_1);
            assert!(mouse.extra_button_2);
            assert_eq!(mouse.wheel_delta, 0);
        }
        _ => panic!("not a mouse event"),
    }
}

#[test]
fn console_records_are_queued_in_their_order() {
    let key = console::KeyRecord {
        key_down: 1,
        virtual_key_code: 0x51,
        unicode_char: 113,
        control_key_state: 0,
        left_shift_state: 0,
        right_shift_state: 0,
    };
    let mouse = console::MouseRecord { event_flags: 0, button_state: 1, x: 3, y: 4 };
    let records = vec![
        console::InputRecord::Other,
        console::InputRecord::Mouse(mouse),
        console::InputRecord::Focus(Point2d::new(10, 20), Size2d::new(800, 600)),
        console::InputRecord::Other,
        console::InputRecord::Key(key),
    ];
    let mut queue = tokterm::events::event_queue::EventQueue::new();
    queue.add_event(console::process_key_event(key));
    console::process_input_records(&mut queue, &records);
    assert_eq!(queue.get_event(), Some(console::process_key_event(key)));
    assert_eq!(queue.get_event(), Some(console::process_mouse_event(mouse)));
    assert_eq!(
        queue.get_event(),
        Some(console::process_window_event(Point2d::new(10, 20), Size2d::new(800, 600)))
    );
    assert_eq!(queue.get_event(), Some(console::process_key_event(key)));
    assert_eq!(queue.get_event(), None);
    console::process_input_records(&mut queue, &Vec::new());
    assert_eq!(queue.get_event(), None);
}

#[test]
fn console_window_in_front_becomes_an_event() {
    match console::process_window_event(Point2d::new(10, 20), Size2d::new(800, 600)) {
        Event::Window(window) => {
            assert_eq!(window.event_type, WindowEventType::WindowFocus);
            assert_eq!(window.position, Point2d::new(10, 20));
            assert_eq!(window.size, Size2d::new(800, 600));
        }
        _ => panic!("not a window event"),
    }
}

#[test]
fn curses_key_codes_are_those_of_curses() {
    assert_eq!(curses::KEY_BREAK, ncurses::constants::KEY_BREAK);
    assert_eq!(curses::KEY_DOWN, ncurses::constants::KEY_DOWN);
    assert_eq!(curses::KEY_UP, ncurses::constants::KEY_UP);
    assert_eq!(curses::KEY_LEFT, ncurses::constants::KEY_LEFT);
    assert_eq!(curses::KEY_RIGHT, ncurses::constants::KEY_RIGHT);
    assert_eq!(curses::KEY_HOME, ncurses::constants::KEY_HOME);
    assert_eq!(curses::KEY_BACKSPACE, ncurses::constants::KEY_BACKSPACE);
    assert_eq!(curses::KEY_F1, ncurses::constants::KEY_F1);
    assert_eq!(curses::KEY_F2, ncurses::constants::KEY_F2);
    assert_eq!(curses::KEY_F3, ncurses::constants::KEY_F3);
    assert_eq!(curses::KEY_F4, ncurses::constants::KEY_F4);
    assert_eq!(curses::KEY_F5, ncurses::constants::KEY_F5);
    assert_eq!(curses::KEY_F6, ncurses::constants::KEY_F6);
    assert_eq!(curses::KEY_F7, ncurses::constants::KEY_F7);
    assert_eq!(curses::KEY_F8, ncurses::constants::KEY_F8);
    assert_eq!(curses::KEY_F9, ncurses::constants::KEY_F9);
    assert_eq!(curses::KEY_F10, ncurses::constants::KEY_F10);
    assert_eq!(curses::KEY_F11, ncurses::constants::KEY_F11);
    assert_eq!(curses::KEY_F12, ncurses::constants::KEY_F12);
    assert_eq!(curses::KEY_F13, ncurses::constants::KEY_F13);
    assert_eq!(curses::KEY_F14, ncurses::constants::KEY_F14);
    assert_eq!(curses::KEY_F15, ncurses::constants::KEY_F15);
    assert_eq!(curses::KEY_DC, ncurses::constants::KEY_DC);
    assert_eq!(curses::KEY_EIC, ncurses::constants::KEY_EIC);
    assert_eq!(curses::KEY_CLEAR, ncurses::constants::KEY_CLEAR);
    assert_eq!(curses::KEY_NPAGE, ncurses::constants::KEY_NPAGE);
    assert_eq!(curses::KEY_PPAGE, ncurses::constants::KEY_PPAGE);
    assert_eq!(curses::KEY_ENTER, ncurses::constants::KEY_ENTER);
    assert_eq!(curses::KEY_PRINT, ncurses::constants::KEY_PRINT);
    assert_eq!(curses::KEY_CANCEL, ncurses::constants::KEY_CANCEL);
    assert_eq!(curses::KEY_MOUSE, ncurses::constants::KEY_MOUSE);
}

#[test]
fn curses_codes_name_keys_and_characters() {
    assert_eq!(curses::get_key(curses::KEY_DOWN), Key::Down);
    assert_eq!(curses::get_key(curses::KEY_LEFT), Key::Left);
    assert_eq!(curses::get_key(curses::KEY_BREAK), Key::Pause);
    assert_eq!(curses::get_key(curses::KEY_BACKSPACE), Key::Back);
    assert_eq!(curses::get_key(curses::KEY_F1), Key::F1);
    assert_eq!(curses::get_key(curses::KEY_F15), Key::F15);
    assert_eq!(curses::get_key(curses::KEY_DC), Key::Delete);
    assert_eq!(curses::get_key(curses::KEY_NPAGE), Key::Next);
    assert_eq!(curses::get_key(curses::KEY_ENTER), Key::Return);
    assert_eq!(curses::get_key(65), Key::A);
    assert_eq!(curses::get_key(97), Key::A);
    assert_eq!(curses::get_key(90), Key::Z);
    assert_eq!(curses::get_key(122), Key::Z);
    assert_eq!(curses::get_key(48), Key::Key0);
    assert_eq!(curses::get_key(57), Key::Key9);
    assert_eq!(curses::get_key(9), Key::Tab);
    assert_eq!(curses::get_key(-1), Key::Unknown);
    assert_eq!(curses::get_key(32), Key::Unknown);
    assert_eq!(curses::get_key(0x108), Key::Unknown);
    assert_eq!(curses::get_key(curses::KEY_MOUSE), Key::Unknown);
    assert_eq!(curses::get_character(65), 'A');
    assert_eq!(curses::get_character(90), 'Z');
    assert_eq!(curses::get_character(97), 'a');
    assert_eq!(curses::get_character(122), 'z');
    assert_eq!(curses::get_character(48), '0');
    assert_eq!(curses::get_character(57), '9');
    assert_eq!(curses::get_character(64), ' ');
    assert_eq!(curses::get_character(91), ' ');
    assert_eq!(curses::get_character(curses::KEY_DOWN), ' ');
    assert_eq!(curses::get_character(-1), ' ');
}

#[test]
fn curses_codes_become_key_events() {
    assert_eq!(curses::process_key_event(-1), None);
    assert_eq!(curses::process_key_event(32), None);
    match curses::process_key_event(113) {
        Some(Event::Keyboard(keyboard)) => {
            assert_eq!(keyboard.event_type, KeyboardEventType::KeyDown);
            assert_eq!(keyboard.key, Key::Q);
            assert_eq!(keyboard.key_code, 113);
            assert_eq!(keyboard.character, 'q');
            assert!(!keyboard.left_control && !keyboard.left_shift && !keyboard.left_menu);
            assert!(!keyboard.right_control && !keyboard.right_shift && !keyboard.right_menu);
        }
        _ => panic!("not a keyboard event"),
    }
    match curses::process_key_event(curses::KEY_F5) {
        Some(Event::Keyboard(keyboard)) => {
            assert_eq!(keyboard.key, Key::F5);
            assert_eq!(keyboard.key_code, 0x10d);
            assert_eq!(keyboard.character, ' ');
        }
        _ => panic!("not a keyboard event"),
    }
}

fn report(latch: &mut curses::ButtonLatch, state: u64, x: i32, y: i32) -> tokterm::events::event::MouseEvent {
    match latch.process_mouse_event(state, x, y) {
        Event::Mouse(mouse) => mouse,
        _ => panic!("not a mouse event"),
    }
}

#[test]
fn curses_latch_keeps_what_is_pressed_until_it_is_released() {
    let mut latch = curses::ButtonLatch::new();
    let pressed = report(&mut latch, 0x2, 4, 5);
    assert_eq!(pressed.event_type, MouseEventType::MouseMove);
    assert!(pressed.left_button);
    assert_eq!(pressed.position, Point2d::new(4, 5));
    assert!(latch.left_button);
    assert_eq!(latch.position, Point2d::new(4, 5));
    let moved = report(&mut latch, 0, 6, 5);
    assert!(moved.left_button);
    assert_eq!(moved.position, Point2d::new(6, 5));
    let released = report(&mut latch, 0x1, 6, 5);
    assert!(!released.left_button);
    assert!(!latch.left_button);
    let both = report(&mut latch, 0x3, 6, 5);
    assert!(!both.left_button);
    let others = report(&mut latch, 0x80 | 0x400 | 0x2000, 0, 0);
    assert!(others.middle_button && others.extra_button_1 && others.right_button);
    assert!(!others.left_button && !others.extra_button_2);
    let let_go = report(&mut latch, 0x40 | 0x200 | 0x1000, 0, 0);
    assert!(!let_go.middle_button && !let_go.extra_button_1 && !let_go.right_button);
    assert_eq!(latch, curses::ButtonLatch::new());
}

#[test]
fn curses_clicks_count_as_held_for_one_event() {
    let mut latch = curses::ButtonLatch::new();
    let click = report(&mut latch, 0x4, 1, 1);
    assert_eq!(click.event_type, MouseEventType::Click);
    assert!(click.left_button);
    assert!(!latch.left_button);
    let double = report(&mut latch, 0x8000, 1, 1);
    assert_eq!(double.event_type, MouseEventType::DoubleClick);
    assert!(double.right_button);
    let triple = report(&mut latch, 0x10, 1, 1);
    assert_eq!(triple.event_type, MouseEventType::DoubleClick);
    assert!(triple.left_button);
    let both = report(&mut latch, 0x100 | 0x8, 1, 1);
    assert_eq!(both.event_type, MouseEventType::Click);
    assert!(both.middle_button && both.left_button);
    let third = report(&mut latch, 0x800, 1, 1);
    assert_eq!(third.event_type, MouseEventType::Click);
    assert!(third.extra_button_1);
    let after = report(&mut latch, 0, 1, 1);
    assert_eq!(after.event_type, MouseEventType::MouseMove);
    assert!(!after.left_button && !after.middle_button && !after.right_button);
}

#[test]
fn curses_wheel_turns_down_only_where_the_mouse_stands() {
    let mut latch = curses::ButtonLatch::new();
    let up = report(&mut latch, 0x8_0000, 3, 3);
    assert_eq!(up.event_type, MouseEventType::Wheel);
    assert_eq!(up.wheel_delta, -1);
    let down = report(&mut latch, 0x800_0000, 3, 3);
    assert_eq!(down.event_type, MouseEventType::Wheel);
    assert_eq!(down.wheel_delta, 1);
    let moved = report(&mut latch, 0x800_0000, 4, 3);
    assert_eq!(moved.event_type, MouseEventType::MouseMove);
    assert_eq!(moved.wheel_delta, 0);
    let both = report(&mut latch, 0x808_0000, 4, 3);
    assert_eq!(both.wheel_delta, -1);
}

#[test]
fn pair_table_numbers_pairs_as_they_come() {
    let mut table = PairTable::new();
    let first = ColorPair::new(Color::White, Color::Blue);
    let second = ColorPair::from_cell(Cell::new('x', Color::Red, Color::Black));
    assert_eq!(second, ColorPair::new(Color::Red, Color::Black));
    assert_eq!(table.number_of(first), (0, true));
    assert_eq!(table.number_of(second), (1, true));
    assert_eq!(table.number_of(first), (0, false));
    assert_eq!(table.number_of(ColorPair::new(Color::Blue, Color::White)), (2, true));
    assert_eq!(table.number_of(second), (1, false));
    assert_eq!(table.numbers.len(), 3);
    let mut full = PairTable::new();
    let colors = Color::to_vec();
    let mut next = 0;
    for foreground in colors.iter() {
        for background in colors.iter() {
            assert_eq!(full.number_of(ColorPair::new(*foreground, *background)), (next, true));
            next += 1;
        }
    }
    assert_eq!(next, 256);
    assert_eq!(full.number_of(ColorPair::new(Color::White, Color::White)), (255, false));
    for number in [0i16, 1, 2, 77, 255] {
        assert_eq!(full.attribute_of(number), number as u64 * 256);
        assert_eq!(full.attribute_of(number), ncurses::COLOR_PAIR(number) as u64);
    }
    assert_eq!(table.attribute_of(2), 512);
}

#[test]
fn curses_and_ansi_number_the_colors_alike() {
    let expected = [
        (Color::Black, 0),
        (Color::DarkRed, 1),
        (Color::DarkGreen, 2),
        (Color::DarkYellow, 3),
        (Color::DarkBlue, 4),
        (Color::DarkMagenta, 5),
        (Color::DarkCyan, 6),
        (Color::Grey, 7),
        (Color::DarkGrey, 8),
        (Color::Red, 9),
        (Color::Green, 10),
        (Color::Yellow, 11),
        (Color::Blue, 12),
        (Color::Magenta, 13),
        (Color::Cyan, 14),
        (Color::White, 15),
    ];
    for (color, number) in expected {
        assert_eq!(color_to_i16(color), number);
        assert_eq!(color_to_u8(color) as i16, number);
    }
}

#[test]
fn raw_keys_name_keys() {
    assert_eq!(raw::get_key(raw::RawKey::Backspace), Key::Back);
    assert_eq!(raw::get_key(raw::RawKey::PageUp), Key::Prior);
    assert_eq!(raw::get_key(raw::RawKey::PageDown), Key::Next);
    assert_eq!(raw::get_key(raw::RawKey::Esc), Key::Escape);
    assert_eq!(raw::get_key(raw::RawKey::F(1)), Key::F1);
    assert_eq!(raw::get_key(raw::RawKey::F(12)), Key::F12);
    assert_eq!(raw::get_key(raw::RawKey::F(13)), Key::Unknown);
    assert_eq!(raw::get_key(raw::RawKey::F(0)), Key::Unknown);
    assert_eq!(raw::get_key(raw::RawKey::Char('a')), Key::A);
    assert_eq!(raw::get_key(raw::RawKey::Char('A')), Key::A);
    assert_eq!(raw::get_key(raw::RawKey::Alt('q')), Key::Q);
    assert_eq!(raw::get_key(raw::RawKey::Ctrl('Z')), Key::Z);
    assert_eq!(raw::get_key(raw::RawKey::Char('7')), Key::Key7);
    assert_eq!(raw::get_key(raw::RawKey::Ctrl('0')), Key::Key0);
    assert_eq!(raw::get_key(raw::RawKey::Alt('+')), Key::Menu);
    assert_eq!(raw::get_key(raw::RawKey::Ctrl('+')), Key::Control);
    assert_eq!(raw::get_key(raw::RawKey::Char('+')), Key::Unknown);
    assert_eq!(raw::get_key(raw::RawKey::BackTab), Key::Unknown);
    assert_eq!(raw::get_key(raw::RawKey::Null), Key::Unknown);
    assert_eq!(raw::get_key(raw::RawKey::Other), Key::Unknown);
}

#[test]
fn raw_reports_become_events() {
    match raw::process_key_event(raw::RawKey::Ctrl('c')) {
        Ok(Event::Keyboard(keyboard)) => {
            assert_eq!(keyboard.event_type, KeyboardEventType::KeyUp);
            assert_eq!(keyboard.key, Key::C);
            assert_eq!(keyboard.key_code, 0);
            assert_eq!(keyboard.character, ' ');
            assert!(keyboard.left_control);
            assert!(!keyboard.left_menu);
            assert!(!keyboard.left_shift && !keyboard.right_shift);
            assert!(!keyboard.right_control && !keyboard.right_menu);
        }
        _ => panic!("not a keyboard event"),
    }
    match raw::process_key_event(raw::RawKey::Alt('x')) {
        Ok(Event::Keyboard(keyboard)) => {
            assert!(!keyboard.left_control);
            assert!(keyboard.left_menu);
        }
        _ => panic!("not a keyboard event"),
    }
    match raw::process_mouse_event(raw::RawMouseEvent::Press(raw::RawMouseButton::Left, 1, 1)) {
        Ok(Event::Mouse(mouse)) => {
            assert_eq!(mouse.event_type, MouseEventType::MouseMove);
            assert!(mouse.left_button && !mouse.middle_button && !mouse.right_button);
            assert_eq!(mouse.position, Point2d::new(0, 0));
            assert_eq!(mouse.wheel_delta, 0);
        }
        _ => panic!("not a mouse event"),
    }
    match raw::process_mouse_event(raw::RawMouseEvent::Press(raw::RawMouseButton::WheelUp, 80, 25))
    {
        Ok(Event::Mouse(mouse)) => {
            assert!(!mouse.left_button && !mouse.middle_button && !mouse.right_button);
            assert_eq!(mouse.position, Point2d::new(79, 24));
            assert_eq!(mouse.wheel_delta, 1);
        }
        _ => panic!("not a mouse event"),
    }
    match raw::process_mouse_event(raw::RawMouseEvent::Press(raw::RawMouseButton::WheelDown, 0, 65535))
    {
        Ok(Event::Mouse(mouse)) => {
            assert_eq!(mouse.position, Point2d::new(-1, 65534));
            assert_eq!(mouse.wheel_delta, -1);
        }
        _ => panic!("not a mouse event"),
    }
    match raw::process_mouse_event(raw::RawMouseEvent::Release(3, 4)) {
        Ok(Event::Mouse(mouse)) => {
            assert!(!mouse.left_button && !mouse.middle_button && !mouse.right_button);
            assert_eq!(mouse.position, Point2d::new(2, 3));
        }
        _ => panic!("not a mouse event"),
    }
    match raw::process_mouse_event(raw::RawMouseEvent::Hold(5, 6)) {
        Ok(Event::Mouse(mouse)) => assert_eq!(mouse.position, Point2d::new(4, 5)),
        _ => panic!("not a mouse event"),
    }
    match raw::process_mouse_event(raw::RawMouseEvent::Press(raw::RawMouseButton::Middle, 2, 2)) {
        Ok(Event::Mouse(mouse)) => assert!(mouse.middle_button && !mouse.right_button),
        _ => panic!("not a mouse event"),
    }
    match raw::process_mouse_event(raw::RawMouseEvent::Press(raw::RawMouseButton::Right, 2, 2)) {
        Ok(Event::Mouse(mouse)) => assert!(mouse.right_button && !mouse.middle_button),
        _ => panic!("not a mouse event"),
    }
}

#[test]
fn escape_sequences_are_those_of_termion() {
    assert_eq!(cursor_visibility_code(true), format!("{}", termion::cursor::Show));
    assert_eq!(cursor_visibility_code(true), "\x1b[?25h");
    assert_eq!(cursor_visibility_code(false), format!("{}", termion::cursor::Hide));
    assert_eq!(cursor_visibility_code(false), "\x1b[?25l");
    assert_eq!(clear_code(), format!("{}", termion::clear::All));
    assert_eq!(clear_code(), "\x1b[2J");
    assert_eq!(cursor_code(Point2d::new(0, 0)), "\x1b[1;1H");
    assert_eq!(cursor_code(Point2d::new(9, 24)), "\x1b[25;10H");
    assert_eq!(cursor_code(Point2d::new(65534, 0)), "\x1b[1;65535H");
    assert_eq!(cursor_code(Point2d::new(4, 2)), format!("{}", termion::cursor::Goto(5, 3)));
}

#[test]
fn render_sends_each_cell_with_its_colors() {
    let mut buffer = CellBuffer::new(Cell::new(' ', Color::White, Color::Blue), Size2d::new(2, 2));
    buffer.set(Point2d::new(1, 0), Cell::new('x', Color::Black, Color::DarkRed));
    buffer.set(Point2d::new(0, 1), Cell::new('\u{2500}', Color::Grey, Color::DarkGrey));
    assert_eq!(
        render(&buffer),
        "\x1b[48;5;12m\x1b[38;5;15m \x1b[48;5;1m\x1b[38;5;0mx\x1b[48;5;8m\x1b[38;5;7m\u{2500}\x1b[48;5;12m\x1b[38;5;15m "
    );
    assert_eq!(render(&CellBuffer::new(Cell::default(' '), Size2d::empty())), "");
    let one = CellBuffer::new(Cell::new('@', Color::Green, Color::DarkGreen), Size2d::new(1, 1));
    assert_eq!(
        render(&one),
        format!(
            "{}{}@",
            termion::color::Bg(termion::color::AnsiValue(2)),
            termion::color::Fg(termion::color::AnsiValue(10))
        )
    );
}

#[test]
fn platforms_without_a_window_or_a_pointer_say_so() {
    let mice: [&dyn Mouse; 3] = [&NCursesMouse::new(), &TermionMouse::new(), &UnixMouse::new()];
    for mouse in mice {
        assert_eq!(
            mouse.get_absolute_position(),
            Err("The mouse is not available on this platform.")
        );
        assert_eq!(
            mouse.get_client_position(),
            Err("The mouse is not available on this platform.")
        );
        assert_eq!(
            mouse.set_position(Point2d::empty()),
            Err("The mouse is not available on this platform.")
        );
        assert_eq!(mouse.show_cursor(true), Err("The mouse is not available on this platform."));
    }
    let windows: [&dyn Window; 3] =
        [&NCursesWindow::new(), &TermionWindow::new(), &UnixWindow::new()];
    for window in windows {
        assert_eq!(
            window.get_window_client_size(),
            Err("The window is not available on this platform.")
        );
        assert_eq!(window.get_window_size(), Err("The window is not available on this platform."));
        assert_eq!(
            window.set_window_size(Size2d::empty()),
            Err("The window is not available on this platform.")
        );
        assert_eq!(
            window.get_window_position(),
            Err("The window is not available on this platform.")
        );
        assert_eq!(
            window.set_window_position(Point2d::empty()),
            Err("The window is not available on this platform.")
        );
    }
}
