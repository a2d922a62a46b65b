use tokterm::application::{draw_canvas, draw_stats, process_keyboard_events, process_mouse_events};
use tokterm::drawing::cell::Cell;
use tokterm::drawing::cell_buffer::CellBuffer;
use tokterm::drawing::color::Color;
use tokterm::drawing::point_2d::Point2d;
use tokterm::drawing::size_2d::Size2d;
use tokterm::events::event::{KeyboardEvent, KeyboardEventType, MouseEvent, MouseEventType};
use tokterm::input::key::Key;
use tokterm::text::{push_decimal, push_signed_decimal};

fn ground() -> Cell {
    Cell::new(' ', Color::White, Color::Blue)
}

fn row(buffer: &CellBuffer, y: i32) -> String {
    (0..buffer.size.width as i32)
        .map(|x| buffer.get(Point2d::new(x, y)).unwrap().character)
        .collect()
}

fn mouse(event_type: MouseEventType) -> MouseEvent {
    MouseEvent {
        event_type,
        left_button: false,
        middle_button: false,
        right_button: false,
        extra_button_1: false,
        extra_button_2: false,
        extra_button_3: false,
        extra_button_4: false,
        position: Point2d::new(2, 1),
        wheel_delta: 0,
    }
}

fn keyboard(key: Key, event_type: KeyboardEventType) -> KeyboardEvent {
    KeyboardEvent {
        event_type,
        key,
        key_code: 0,
        character: ' ',
        left_control: false,
        left_shift: false,
        left_menu: false,
        right_control: false,
        right_shift: false,
        right_menu: false,
    }
}

#[test]
fn numbers_are_written_in_decimal() {
    let cases: [(u128, &str); 7] = [
        (0, "0"),
        (7, "7"),
        (10, "10"),
        (99, "99"),
        (100, "100"),
        (1234567890, "1234567890"),
        (u128::MAX, "340282366920938463463374607431768211455"),
    ];
    for (number, expected) in cases {
        let mut text = String::from("n=");
        push_decimal(&mut text, number);
        assert_eq!(text, format!("n={}", expected));
    }
    for number in [0i64, 5, -5, 120, -120, i64::MAX, i64::MIN, -1] {
        let mut text = String::new();
        push_signed_decimal(&mut text, number);
        assert_eq!(text, format!("{}", number));
    }
}

#[test]
fn held_button_leaves_its_mark_where_the_mouse_is() {
    let mut buffer = CellBuffer::new(ground(), Size2d::new(6, 4));
    let mut event = mouse(MouseEventType::MouseMove);
    event.left_button = true;
    process_mouse_events(event, &mut buffer);
    assert_eq!(buffer.get(Point2d::new(2, 1)), Some(Cell::default('L')));
    event.right_button = true;
    event.middle_button = true;
    process_mouse_events(event, &mut buffer);
    assert_eq!(buffer.get(Point2d::new(2, 1)), Some(Cell::default('R')));
    event.extra_button_1 = true;
    event.event_type = MouseEventType::Click;
    process_mouse_events(event, &mut buffer);
    assert_eq!(buffer.get(Point2d::new(2, 1)), Some(Cell::default('1')));
    event.extra_button_2 = true;
    event.event_type = MouseEventType::DoubleClick;
    process_mouse_events(event, &mut buffer);
    assert_eq!(buffer.get(Point2d::new(2, 1)), Some(Cell::default('2')));
    assert_eq!(buffer.iter().filter(|cell| **cell != ground()).count(), 1);
}

#[test]
fn mouse_without_a_held_button_leaves_no_mark() {
    let mut buffer = CellBuffer::new(ground(), Size2d::new(6, 4));
    process_mouse_events(mouse(MouseEventType::MouseMove), &mut buffer);
    let mut far = mouse(MouseEventType::Click);
    far.left_button = true;
    far.position = Point2d::new(6, 1);
    process_mouse_events(far, &mut buffer);
    let mut odd = mouse(MouseEventType::HorizontalWheel);
    odd.left_button = true;
    odd.wheel_delta = 3;
    process_mouse_events(odd, &mut buffer);
    let mut extra = mouse(MouseEventType::MouseMove);
    extra.extra_button_3 = true;
    extra.extra_button_4 = true;
    process_mouse_events(extra, &mut buffer);
    for cell in buffer.iter() {
        assert_eq!(*cell, ground());
    }
}

#[test]
fn wheel_is_written_as_a_number() {
    let mut buffer = CellBuffer::new(ground(), Size2d::new(6, 4));
    let mut event = mouse(MouseEventType::Wheel);
    event.left_button = true;
    event.wheel_delta = -120;
    process_mouse_events(event, &mut buffer);
    assert_eq!(row(&buffer, 2), "-120  ");
    assert_eq!(buffer.get(Point2d::new(0, 2)), Some(Cell::new('-', Color::White, Color::DarkBlue)));
    assert_eq!(buffer.get(Point2d::new(2, 1)), Some(ground()));
    event.wheel_delta = 7;
    process_mouse_events(event, &mut buffer);
    assert_eq!(row(&buffer, 2), "7120  ");
}

#[test]
fn key_q_ends_the_application() {
    let mut buffer = CellBuffer::new(ground(), Size2d::new(40, 8));
    assert!(!process_keyboard_events(keyboard(Key::Q, KeyboardEventType::KeyDown), &mut buffer));
    assert!(!process_keyboard_events(keyboard(Key::Q, KeyboardEventType::KeyUp), &mut buffer));
    for cell in buffer.iter() {
        assert_eq!(*cell, ground());
    }
}

#[test]
fn keyboard_event_is_written_out() {
    let mut buffer = CellBuffer::new(ground(), Size2d::new(40, 8));
    let mut event = keyboard(Key::F5, KeyboardEventType::KeyDown);
    event.left_shift = true;
    event.right_menu = true;
    event.right_control = true;
    assert!(process_keyboard_events(event, &mut buffer));
    assert_eq!(row(&buffer, 2).trim_end(), "F5 down");
    assert_eq!(row(&buffer, 3).trim_end(), "left shift down     right shift up");
    assert_eq!(row(&buffer, 4).trim_end(), "left alt up         right alt down");
    assert_eq!(row(&buffer, 5).trim_end(), "left control up     right control down");
    assert_eq!(row(&buffer, 6).trim_end(), "");
    assert_eq!(buffer.get(Point2d::new(0, 2)), Some(Cell::new('F', Color::White, Color::DarkBlue)));
    assert_eq!(
        buffer.get(Point2d::new(14, 3)),
        Some(Cell::new('n', Color::White, Color::DarkBlue))
    );
    assert_eq!(buffer.get(Point2d::new(15, 3)), Some(ground()));
    assert_eq!(
        buffer.get(Point2d::new(34, 3)),
        Some(Cell::new(' ', Color::White, Color::DarkBlue))
    );
    let mut event = keyboard(Key::LeftControl, KeyboardEventType::KeyUp);
    event.left_control = true;
    event.left_menu = true;
    event.right_shift = true;
    assert!(process_keyboard_events(event, &mut buffer));
    assert_eq!(row(&buffer, 2).trim_end(), "LeftControl up");
    assert_eq!(&row(&buffer, 2)[..14], format!("{:?} up", Key::LeftControl));
    assert_eq!(row(&buffer, 3).trim_end(), "left shift up       right shift down");
    assert_eq!(row(&buffer, 4).trim_end(), "left alt down       right alt up");
    assert_eq!(row(&buffer, 5).trim_end(), "left control down   right control up");
}

#[test]
fn stats_bar_shows_the_frames_and_the_console() {
    let mut buffer = CellBuffer::new(ground(), Size2d::new(30, 5));
    draw_stats(&mut buffer, Size2d::new(30, 5), 42);
    assert_eq!(row(&buffer, 0), "\u{2500}".repeat(30));
    assert_eq!(row(&buffer, 1).trim_end(), "FPS: 42   Console(30, 5)");
    assert_eq!(row(&buffer, 2), "\u{2500}".repeat(30));
    assert_eq!(row(&buffer, 3).trim_end(), "");
    assert_eq!(
        buffer.get(Point2d::new(0, 0)),
        Some(Cell::new('\u{2500}', Color::Grey, Color::DarkGrey))
    );
    assert_eq!(buffer.get(Point2d::new(0, 1)), Some(Cell::new('F', Color::White, Color::DarkGrey)));
    assert_eq!(buffer.get(Point2d::new(29, 1)), Some(Cell::new(' ', Color::White, Color::DarkGrey)));
    assert_eq!(
        buffer.get(Point2d::new(29, 2)),
        Some(Cell::new('\u{2500}', Color::Black, Color::DarkGrey))
    );
    let mut narrow = CellBuffer::new(ground(), Size2d::new(30, 5));
    draw_stats(&mut narrow, Size2d::new(8, 5), -1);
    assert_eq!(row(&narrow, 0).trim_end(), "\u{2500}".repeat(8));
    assert_eq!(row(&narrow, 1).trim_end(), "FPS: -1   Console(8, 5)");
}

#[test]
fn picture_is_framed_and_holds_its_shapes() {
    let size = Size2d::new(80, 45);
    let mut buffer = CellBuffer::new(ground(), size);
    assert_eq!(draw_canvas(&mut buffer, size), Ok(()));
    let stroke = Cell::new('*', Color::White, Color::DarkGrey);
    let fill = Cell::new('#', Color::DarkGrey, Color::Black);
    let round_stroke = Cell::new('O', Color::Blue, Color::DarkBlue);
    let round_fill = Cell::new('@', Color::Green, Color::DarkGreen);
    for y in 0..3 {
        assert_eq!(row(&buffer, y).trim_end(), "");
    }
    assert_eq!(buffer.get(Point2d::new(30, 3)), Some(stroke));
    assert_eq!(buffer.get(Point2d::new(0, 3)), Some(stroke));
    assert_eq!(buffer.get(Point2d::new(79, 3)), Some(stroke));
    assert_eq!(buffer.get(Point2d::new(0, 44)), Some(stroke));
    assert_eq!(buffer.get(Point2d::new(79, 44)), Some(stroke));
    assert_eq!(buffer.get(Point2d::new(70, 40)), Some(fill));
    assert_eq!(buffer.get(Point2d::new(39, 5)), Some(stroke));
    assert_eq!(buffer.get(Point2d::new(39, 10)), Some(stroke));
    assert_eq!(buffer.get(Point2d::new(59, 20)), Some(stroke));
    assert_eq!(buffer.get(Point2d::new(39, 30)), Some(stroke));
    assert_eq!(buffer.get(Point2d::new(39, 40)), Some(stroke));
    assert_eq!(buffer.get(Point2d::new(39, 20)), Some(fill));
    assert_eq!(buffer.get(Point2d::new(15, 15)), Some(round_fill));
    assert_eq!(buffer.get(Point2d::new(25, 15)), Some(round_stroke));
    assert_eq!(buffer.get(Point2d::new(15, 25)), Some(round_stroke));
    assert_eq!(buffer.get(Point2d::new(15, 35)), Some(round_fill));
    assert_eq!(buffer.get(Point2d::new(5, 35)), Some(round_stroke));
    assert_eq!(buffer.get(Point2d::new(25, 35)), Some(round_stroke));
    assert_eq!(buffer.get(Point2d::new(15, 30)), Some(round_stroke));
    assert_eq!(buffer.get(Point2d::new(15, 40)), Some(round_stroke));
}

#[test]
fn picture_fits_the_smallest_console() {
    let mut buffer = CellBuffer::new(ground(), Size2d::new(1, 4));
    assert_eq!(draw_canvas(&mut buffer, Size2d::new(1, 4)), Ok(()));
    for cell in buffer.iter() {
        assert_eq!(*cell, Cell::new('*', Color::White, Color::DarkGrey));
    }
}
