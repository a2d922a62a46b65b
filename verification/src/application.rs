//! What an application shows of the events that reach it, and a picture
//! that shows what a canvas can draw.

use vstd::prelude::*;
use vstd::string::StringExecFns;
use crate::drawing::canvas::{painted_all, Canvas, SolidPaint};
use crate::drawing::cell::Cell;
use crate::drawing::cell_buffer::{lemma_put_twice, put, styled_run, with_run, CellBuffer};
use crate::drawing::color::Color;
use crate::drawing::curves::{Curve, CURVE_REACH};
use crate::drawing::point_2d::Point2d;
use crate::drawing::shapes::{
    circle_points, disc_points, ellipse_points, line_points, outline_points, oval_points,
    rect_points,
};
use crate::drawing::size_2d::Size2d;
use crate::events::event::{KeyboardEvent, KeyboardEventType, MouseEvent, MouseEventType};
use crate::input::key::Key;
use crate::text::{decimal, push_decimal, push_signed_decimal, signed_decimal};

verus! {

/// The character `character` in the neutral style.
pub open spec fn mark(character: char) -> Cell {
    Cell { character, background: Color::Black, foreground: Color::Grey }
}

/// The cell that marks a held button of the mouse: the last of the marks
/// `L`, `M`, `R`, `1` and `2` whose button the event says is held, in the
/// neutral style.
pub open spec fn button_mark(mouse: MouseEvent) -> Option<Cell> {
    if mouse.extra_button_2 {
        Some(mark('2'))
    } else if mouse.extra_button_1 {
        Some(mark('1'))
    } else if mouse.right_button {
        Some(mark('R'))
    } else if mouse.middle_button {
        Some(mark('M'))
    } else if mouse.left_button {
        Some(mark('L'))
    } else {
        None
    }
}

/// Whether the event tells where the mouse is with a button held: a move, a
/// click or a double click.
pub open spec fn points_at(mouse: MouseEvent) -> bool {
    mouse.event_type == MouseEventType::MouseMove || mouse.event_type == MouseEventType::Click
        || mouse.event_type == MouseEventType::DoubleClick
}

/// The cells of a grid of extent `size` once the event `mouse` has been
/// shown on it: a held button leaves its mark where the mouse is, and a
/// turn of the wheel is written, as a number, at the start of the third row.
pub open spec fn shown_mouse(size: Size2d, cells: Seq<Cell>, mouse: MouseEvent) -> Seq<Cell> {
    let marked = if points_at(mouse) && button_mark(mouse) is Some {
        put(size, cells, mouse.position, button_mark(mouse)->0)
    } else {
        cells
    };
    if mouse.event_type == MouseEventType::Wheel {
        with_run(
            size,
            marked,
            Point2d { x: 0, y: 2 },
            styled_run(signed_decimal(mouse.wheel_delta as int), Color::White, Color::DarkBlue),
        )
    } else {
        marked
    }
}

/// Shows the event `mouse` on `buffer`.
pub fn process_mouse_events(mouse: MouseEvent, buffer: &mut CellBuffer)
    requires
        old(buffer).wf(),
    ensures
        final(buffer).wf(),
        final(buffer).size == old(buffer).size,
        final(buffer)@ == shown_mouse(old(buffer).size, old(buffer)@, mouse),
{
    if mouse.event_type == MouseEventType::MouseMove || mouse.event_type == MouseEventType::Click
        || mouse.event_type == MouseEventType::DoubleClick {
        if mouse.left_button {
            buffer.set(mouse.position, Cell::default('L'));
        }
        if mouse.middle_button {
            buffer.set(mouse.position, Cell::default('M'));
        }
        if mouse.right_button {
            buffer.set(mouse.position, Cell::default('R'));
        }
        if mouse.extra_button_1 {
            buffer.set(mouse.position, Cell::default('1'));
        }
        if mouse.extra_button_2 {
            buffer.set(mouse.position, Cell::default('2'));
        }
        proof {
            let size = old(buffer).size;
            lemma_put_twice(size, old(buffer)@, mouse.position, mark('L'), mark('M'));
            lemma_put_twice(size, old(buffer)@, mouse.position, mark('L'), mark('R'));
            lemma_put_twice(size, old(buffer)@, mouse.position, mark('L'), mark('1'));
            lemma_put_twice(size, old(buffer)@, mouse.position, mark('L'), mark('2'));
            lemma_put_twice(size, old(buffer)@, mouse.position, mark('M'), mark('R'));
            lemma_put_twice(size, old(buffer)@, mouse.position, mark('M'), mark('1'));
            lemma_put_twice(size, old(buffer)@, mouse.position, mark('M'), mark('2'));
            lemma_put_twice(size, old(buffer)@, mouse.position, mark('R'), mark('1'));
            lemma_put_twice(size, old(buffer)@, mouse.position, mark('R'), mark('2'));
            lemma_put_twice(size, old(buffer)@, mouse.position, mark('1'), mark('2'));
            assert(buffer@ =~= shown_mouse(size, old(buffer)@, mouse));
        }
    }
    if mouse.event_type == MouseEventType::Wheel {
        let mut text = String::new();
        push_signed_decimal(&mut text, mouse.wheel_delta as i64);
        proof {
            assert(text@ =~= signed_decimal(mouse.wheel_delta as int));
        }
        buffer.write_str(text.as_str(), Point2d::new(0, 2), Color::White, Color::DarkBlue);
    }
}

/// What is written of a modifier key: the side and the name of the key,
/// and whether it is held. The two texts of a key are of one length.
pub open spec fn modifier_text(name: Seq<char>, held: bool) -> Seq<char> {
    if held {
        name + " down"@
    } else {
        name + " up  "@
    }
}

/// The cells of a grid of extent `size` once the event `keyboard` has been
/// shown on it: the name of the key and whether it went down or up at the
/// start of the third row, and below, in two columns, what the event says
/// of the six modifier keys.
pub open spec fn shown_keyboard(size: Size2d, cells: Seq<Cell>, keyboard: KeyboardEvent) -> Seq<
    Cell,
> {
    let named = with_run(
        size,
        cells,
        Point2d { x: 0, y: 2 },
        styled_run(
            keyboard.key.label() + " "@ + (if keyboard.event_type == KeyboardEventType::KeyDown {
                "down"@
            } else {
                "up"@
            }),
            Color::White,
            Color::DarkBlue,
        ),
    );
    let first = with_run(
        size,
        named,
        Point2d { x: 0, y: 3 },
        styled_run(
            modifier_text("left shift"@, keyboard.left_shift),
            Color::White,
            Color::DarkBlue,
        ),
    );
    let second = with_run(
        size,
        first,
        Point2d { x: 0, y: 4 },
        styled_run(modifier_text("left alt"@, keyboard.left_menu), Color::White, Color::DarkBlue),
    );
    let third = with_run(
        size,
        second,
        Point2d { x: 0, y: 5 },
        styled_run(
            modifier_text("left control"@, keyboard.left_control),
            Color::White,
            Color::DarkBlue,
        ),
    );
    let fourth = with_run(
        size,
        third,
        Point2d { x: 20, y: 3 },
        styled_run(
            modifier_text("right shift"@, keyboard.right_shift),
            Color::White,
            Color::DarkBlue,
        ),
    );
    let fifth = with_run(
        size,
        fourth,
        Point2d { x: 20, y: 4 },
        styled_run(
            modifier_text("right alt"@, keyboard.right_menu),
            Color::White,
            Color::DarkBlue,
        ),
    );
    with_run(
        size,
        fifth,
        Point2d { x: 20, y: 5 },
        styled_run(
            modifier_text("right control"@, keyboard.right_control),
            Color::White,
            Color::DarkBlue,
        ),
    )
}

/// Writes what is known of a modifier key at `position`.
fn write_modifier(buffer: &mut CellBuffer, name: &str, held: bool, position: Point2d)
    requires
        old(buffer).wf(),
    ensures
        final(buffer).wf(),
        final(buffer).size == old(buffer).size,
        final(buffer)@ == with_run(
            old(buffer).size,
            old(buffer)@,
            position,
            styled_run(modifier_text(name@, held), Color::White, Color::DarkBlue),
        ),
{
    let mut text = String::from_str(name);
    if held {
        text.append(" down");
    } else {
        text.append(" up  ");
    }
    buffer.write_str(text.as_str(), position, Color::White, Color::DarkBlue);
}

/// Shows the event `keyboard` on `buffer`, and tells whether the
/// application is to go on: the key `Q` ends it, and of that event nothing
/// is shown.
pub fn process_keyboard_events(keyboard: KeyboardEvent, buffer: &mut CellBuffer) -> (go_on: bool)
    requires
        old(buffer).wf(),
    ensures
        final(buffer).wf(),
        final(buffer).size == old(buffer).size,
        go_on == (keyboard.key != Key::Q),
        keyboard.key == Key::Q ==> final(buffer)@ == old(buffer)@,
        keyboard.key != Key::Q ==> final(buffer)@ == shown_keyboard(
            old(buffer).size,
            old(buffer)@,
            keyboard,
        ),
{
    if keyboard.key == Key::Q {
        return false;
    }
    let mut text = String::from_str(keyboard.key.name());
    text.append(" ");
    if keyboard.event_type == KeyboardEventType::KeyDown {
        text.append("down");
    } else {
        text.append("up");
    }
    buffer.write_str(text.as_str(), Point2d::new(0, 2), Color::White, Color::DarkBlue);
    write_modifier(buffer, "left shift", keyboard.left_shift, Point2d::new(0, 3));
    write_modifier(buffer, "left alt", keyboard.left_menu, Point2d::new(0, 4));
    write_modifier(buffer, "left control", keyboard.left_control, Point2d::new(0, 5));
    write_modifier(buffer, "right shift", keyboard.right_shift, Point2d::new(20, 3));
    write_modifier(buffer, "right alt", keyboard.right_menu, Point2d::new(20, 4));
    write_modifier(buffer, "right control", keyboard.right_control, Point2d::new(20, 5));
    true
}

/// What the bar of numbers says: the frames of the last second and the
/// extent of the console.
pub open spec fn stats_text(console_size: Size2d, fps: i32) -> Seq<char> {
    "FPS: "@ + signed_decimal(fps as int) + "   Console("@ + decimal(console_size.width as nat)
        + ", "@ + decimal(console_size.height as nat) + ")"@
}

/// The cells of a grid of extent `size` once the bar of numbers has been
/// drawn on it: three rows as wide as the console, a line above and a line
/// below the row of the text.
pub open spec fn shown_stats(size: Size2d, cells: Seq<Cell>, console_size: Size2d, fps: i32)
    -> Seq<Cell> {
    let top = with_run(
        size,
        cells,
        Point2d { x: 0, y: 0 },
        Seq::new(
            console_size.width as nat,
            |i: int|
                Cell { character: '\u{2500}', background: Color::DarkGrey, foreground: Color::Grey },
        ),
    );
    let middle = with_run(
        size,
        top,
        Point2d { x: 0, y: 1 },
        Seq::new(
            console_size.width as nat,
            |i: int| Cell { character: ' ', background: Color::DarkGrey, foreground: Color::White },
        ),
    );
    let bottom = with_run(
        size,
        middle,
        Point2d { x: 0, y: 2 },
        Seq::new(
            console_size.width as nat,
            |i: int|
                Cell {
                    character: '\u{2500}',
                    background: Color::DarkGrey,
                    foreground: Color::Black,
                },
        ),
    );
    with_run(
        size,
        bottom,
        Point2d { x: 0, y: 1 },
        styled_run(stats_text(console_size, fps), Color::White, Color::DarkGrey),
    )
}

/// Draws the bar of numbers on `buffer`.
pub fn draw_stats(buffer: &mut CellBuffer, console_size: Size2d, fps: i32)
    requires
        old(buffer).wf(),
    ensures
        final(buffer).wf(),
        final(buffer).size == old(buffer).size,
        final(buffer)@ == shown_stats(old(buffer).size, old(buffer)@, console_size, fps),
{
    let text_background = Cell::new(' ', Color::White, Color::DarkGrey);
    let top_separator = Cell::new('\u{2500}', Color::Grey, Color::DarkGrey);
    let bottom_separator = Cell::new('\u{2500}', Color::Black, Color::DarkGrey);
    buffer.repeat_cell(top_separator, Point2d::new(0, 0), console_size.width);
    buffer.repeat_cell(text_background, Point2d::new(0, 1), console_size.width);
    buffer.repeat_cell(bottom_separator, Point2d::new(0, 2), console_size.width);
    let mut text = String::from_str("FPS: ");
    push_signed_decimal(&mut text, fps as i64);
    text.append("   Console(");
    push_decimal(&mut text, console_size.width as u128);
    text.append(", ");
    push_decimal(&mut text, console_size.height as u128);
    text.append(")");
    buffer.write_str(
        text.as_str(),
        Point2d::new(0, 1),
        text_background.foreground,
        text_background.background,
    );
}

/// The paint of the frame and of the lines of the picture.
pub open spec fn frame_stroke() -> SolidPaint {
    SolidPaint { cell: Cell { character: '*', background: Color::DarkGrey, foreground: Color::White } }
}

/// The paint of the ground of the picture.
pub open spec fn frame_fill() -> SolidPaint {
    SolidPaint { cell: Cell { character: '#', background: Color::Black, foreground: Color::DarkGrey } }
}

/// The paint of the outlines of the round shapes of the picture.
pub open spec fn round_stroke() -> SolidPaint {
    SolidPaint { cell: Cell { character: 'O', background: Color::DarkBlue, foreground: Color::Blue } }
}

/// The paint of the insides of the round shapes of the picture.
pub open spec fn round_fill() -> SolidPaint {
    SolidPaint {
        cell: Cell { character: '@', background: Color::DarkGreen, foreground: Color::Green },
    }
}

/// The cells of a grid of extent `size` once the picture has been drawn on
/// it, for a console of extent `console_size`. Below the bar of numbers the
/// console is filled and framed; a line runs down its middle and swings out
/// to the right edge in a curve; a circle and an ellipse are drawn over it,
/// each filled first and outlined after.
pub open spec fn shown_canvas(size: Size2d, cells: Seq<Cell>, console_size: Size2d) -> Seq<Cell> {
    let width = console_size.width - 1;
    let height = console_size.height - 4;
    let middle = width / 2;
    let half = height / 2;
    let ground = painted_all(&frame_fill(), size, cells, rect_points(0, 3, width, 3 + height));
    let framed = painted_all(
        &frame_stroke(),
        size,
        ground,
        outline_points(0, 3, width, 3 + height),
    );
    let down = painted_all(
        &frame_stroke(),
        size,
        framed,
        line_points(middle, 3, middle, half - 10),
    );
    let swung = painted_all(
        &frame_stroke(),
        size,
        down,
        (Curve { x0: middle, y0: half - 10, x1: middle, y1: half + 10, cx: width, cy: half }).points(),
    );
    let through = painted_all(
        &frame_stroke(),
        size,
        swung,
        line_points(middle, half + 10, middle, height + 3),
    );
    let disc = painted_all(&round_fill(), size, through, disc_points(15, 15, 10));
    let circle = painted_all(&round_stroke(), size, disc, circle_points(15, 15, 10));
    let oval = painted_all(&round_fill(), size, circle, oval_points(5, 30, 20, 10));
    painted_all(&round_stroke(), size, oval, ellipse_points(5, 30, 20, 10))
}

/// Draws the picture on `buffer`, for a console of extent `console_size`.
pub fn draw_canvas(buffer: &mut CellBuffer, console_size: Size2d) -> (result: crate::Result<()>)
    requires
        old(buffer).wf(),
        1 <= console_size.width <= CURVE_REACH,
        4 <= console_size.height <= CURVE_REACH,
    ensures
        final(buffer).wf(),
        final(buffer).size == old(buffer).size,
        result == Ok::<(), &'static str>(()),
        final(buffer)@ == shown_canvas(old(buffer).size, old(buffer)@, console_size),
{
    let x: i32 = 0;
    let y: i32 = 3;
    let width = console_size.width - 1;
    let height = console_size.height - y as usize - 1;
    let h_width = width as i32 / 2;
    let h_height = height as i32 / 2;
    let stroke = SolidPaint::new(Cell::new('*', Color::White, Color::DarkGrey));
    let fill = SolidPaint::new(Cell::new('#', Color::DarkGrey, Color::Black));
    let circle_stroke = SolidPaint::new(Cell::new('O', Color::Blue, Color::DarkBlue));
    let circle_fill = SolidPaint::new(Cell::new('@', Color::Green, Color::DarkGreen));
    assert(stroke == frame_stroke());
    assert(fill == frame_fill());
    assert(circle_stroke == round_stroke());
    assert(circle_fill == round_fill());
    let mut canvas = Canvas::new(buffer, Some(&stroke), Some(&fill));
    canvas.fill_rect(Point2d::new(x, y), Size2d::new(width, height))?;
    canvas.stroke_rect(Point2d::new(x, y), Size2d::new(width, height))?;
    canvas.move_to(Point2d::new(h_width, y));
    canvas.line_to(Point2d::new(h_width, h_height - 10))?;
    canvas.bezier_to(Point2d::new(h_width, h_height + 10), Point2d::new(width as i32, h_height))?;
    canvas.line_to(Point2d::new(h_width, height as i32 + y))?;
    canvas.set_fill(&circle_fill);
    canvas.set_stroke(&circle_stroke);
    canvas.fill_circle(Point2d::new(5, 5), 10)?;
    canvas.stroke_circle(Point2d::new(5, 5), 10)?;
    canvas.fill_ellipse(Point2d::new(5, 30), Size2d::new(20, 10))?;
    canvas.stroke_ellipse(Point2d::new(5, 30), Size2d::new(20, 10))?;
    Ok(())
}

} // verus!
