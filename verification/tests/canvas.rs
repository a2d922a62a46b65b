use tokterm::drawing::canvas::{Canvas, SolidPaint};
use tokterm::drawing::cell::Cell;
use tokterm::drawing::cell_buffer::CellBuffer;
use tokterm::drawing::color::Color;
use tokterm::drawing::point_2d::Point2d;
use tokterm::drawing::size_2d::Size2d;

fn blank(width: usize, height: usize) -> CellBuffer {
    CellBuffer::new(Cell::new(' ', Color::White, Color::Blue), Size2d::new(width, height))
}

fn ink() -> SolidPaint {
    SolidPaint::new(Cell::new('*', Color::White, Color::DarkGrey))
}

fn touched(buffer: &CellBuffer) -> Vec<(i32, i32)> {
    let mut cells = Vec::new();
    for y in 0..buffer.size.height as i32 {
        for x in 0..buffer.size.width as i32 {
            if buffer.get(Point2d::new(x, y)).unwrap().character != ' ' {
                cells.push((x, y));
            }
        }
    }
    cells
}

fn line(from: (i32, i32), to: (i32, i32)) -> Vec<(i32, i32)> {
    let mut buffer = blank(12, 8);
    let stroke = ink();
    {
        let mut canvas = Canvas::<SolidPaint, SolidPaint>::new(&mut buffer, Some(&stroke), None);
        canvas.move_to(Point2d::new(from.0, from.1));
        canvas.line_to(Point2d::new(to.0, to.1)).unwrap();
        assert_eq!(canvas.position, Point2d::new(to.0, to.1));
    }
    touched(&buffer)
}

#[test]
fn line_is_the_same_in_both_directions() {
    let forward = line((0, 0), (5, 3));
    let backward = line((5, 3), (0, 0));
    assert_eq!(forward, backward);
    assert_eq!(forward, vec![(0, 0), (1, 1), (2, 1), (3, 2), (4, 2), (5, 3)]);
}

#[test]
fn line_to_the_pen_touches_one_cell() {
    assert_eq!(line((2, 2), (2, 2)), vec![(2, 2)]);
}

#[test]
fn line_rounds_a_half_the_same_way_in_both_directions() {
    assert_eq!(line((0, 0), (2, 1)), vec![(0, 0), (1, 1), (2, 1)]);
    assert_eq!(line((2, 1), (0, 0)), vec![(0, 0), (1, 1), (2, 1)]);
    assert_eq!(line((0, 1), (2, 0)), vec![(2, 0), (0, 1), (1, 1)]);
    assert_eq!(line((2, 0), (0, 1)), vec![(2, 0), (0, 1), (1, 1)]);
    assert_eq!(line((0, 0), (1, 2)), vec![(0, 0), (1, 1), (1, 2)]);
    assert_eq!(line((1, 2), (0, 0)), vec![(0, 0), (1, 1), (1, 2)]);
    assert_eq!(line((1, 0), (0, 2)), vec![(1, 0), (1, 1), (0, 2)]);
    assert_eq!(line((0, 2), (1, 0)), vec![(1, 0), (1, 1), (0, 2)]);
}

#[test]
fn every_line_is_the_same_in_both_directions() {
    for x0 in 0..7 {
        for y0 in 0..7 {
            for x1 in 0..7 {
                for y1 in 0..7 {
                    assert_eq!(line((x0, y0), (x1, y1)), line((x1, y1), (x0, y0)));
                }
            }
        }
    }
}

#[test]
fn filled_ellipse_holds_its_outline_at_its_narrow_ends() {
    let paint = ink();
    for (width, height) in [(2, 9), (0, 8), (1, 7), (3, 10), (0, 0), (1, 1)] {
        let mut outline = blank(8, 14);
        let mut oval = blank(8, 14);
        {
            let mut canvas = Canvas::<SolidPaint, SolidPaint>::new(&mut outline, Some(&paint), None);
            canvas.stroke_ellipse(Point2d::new(2, 1), Size2d::new(width, height)).unwrap();
        }
        {
            let mut canvas = Canvas::<SolidPaint, SolidPaint>::new(&mut oval, None, Some(&paint));
            canvas.fill_ellipse(Point2d::new(2, 1), Size2d::new(width, height)).unwrap();
        }
        let filled = touched(&oval);
        for cell in touched(&outline) {
            assert!(filled.contains(&cell), "{:?} of an ellipse {} by {}", cell, width, height);
        }
    }
    let mut oval = blank(4, 12);
    {
        let mut canvas = Canvas::<SolidPaint, SolidPaint>::new(&mut oval, None, Some(&paint));
        canvas.fill_ellipse(Point2d::new(0, 0), Size2d::new(2, 9)).unwrap();
    }
    assert!(touched(&oval).contains(&(0, 1)));
}

#[test]
fn missing_paint_is_told_for_every_position_and_size() {
    let stroke = ink();
    let mut buffer = blank(4, 4);
    {
        let mut canvas = Canvas::<SolidPaint, SolidPaint>::new(&mut buffer, Some(&stroke), None);
        canvas.move_to(Point2d::new(i32::MAX, i32::MIN));
        assert_eq!(
            canvas.fill_rect(Point2d::new(i32::MAX, i32::MAX), Size2d::new(usize::MAX, usize::MAX)),
            Err("Can not fill a rectangle without a fill.")
        );
        assert_eq!(
            canvas.fill_circle(Point2d::new(i32::MAX, i32::MAX), usize::MAX),
            Err("Can not fill a circle without a fill.")
        );
        assert_eq!(
            canvas.fill_ellipse(Point2d::new(i32::MIN, 0), Size2d::new(usize::MAX, usize::MAX)),
            Err("Can not fill an ellipse without a fill.")
        );
        assert_eq!(canvas.position, Point2d::new(i32::MAX, i32::MIN));
    }
    {
        let mut canvas = Canvas::<SolidPaint, SolidPaint>::new(&mut buffer, None, Some(&stroke));
        canvas.move_to(Point2d::new(i32::MAX, i32::MIN));
        assert_eq!(
            canvas.bezier_to(Point2d::new(i32::MIN, i32::MAX), Point2d::new(i32::MAX, i32::MAX)),
            Err("Can not draw a bezier line without a stroke.")
        );
        assert_eq!(
            canvas.stroke_rect(Point2d::new(i32::MAX, 1), Size2d::new(usize::MAX, 1)),
            Err("Can not draw a rectangle without a stroke.")
        );
        assert_eq!(
            canvas.stroke_circle(Point2d::new(0, 0), usize::MAX),
            Err("Can not draw a circle without a stroke.")
        );
        assert_eq!(
            canvas.stroke_ellipse_from_center(Point2d::new(0, 0), Size2d::new(usize::MAX, 0)),
            Err("Can not draw an ellipse without a stroke.")
        );
        assert_eq!(canvas.position, Point2d::new(i32::MAX, i32::MIN));
    }
    assert_eq!(touched(&buffer), vec![]);
}

#[test]
fn steep_line_advances_along_the_rows() {
    assert_eq!(line((1, 0), (3, 6)), vec![(1, 0), (1, 1), (2, 2), (2, 3), (2, 4), (3, 5), (3, 6)]);
}

#[test]
fn line_off_the_grid_is_cut() {
    assert_eq!(line((-3, 2), (2, 2)), vec![(0, 2), (1, 2), (2, 2)]);
}

#[test]
fn stroke_rect_closes_and_returns_the_pen() {
    let mut buffer = blank(8, 6);
    let stroke = ink();
    {
        let mut canvas = Canvas::<SolidPaint, SolidPaint>::new(&mut buffer, Some(&stroke), None);
        canvas.move_to(Point2d::new(7, 5));
        canvas.stroke_rect(Point2d::new(0, 0), Size2d::new(4, 2)).unwrap();
        assert_eq!(canvas.position, Point2d::new(0, 0));
    }
    assert_eq!(
        touched(&buffer),
        vec![
            (0, 0), (1, 0), (2, 0), (3, 0), (4, 0),
            (0, 1), (4, 1),
            (0, 2), (1, 2), (2, 2), (3, 2), (4, 2),
        ]
    );
}

#[test]
fn fill_rect_covers_its_span() {
    let mut buffer = blank(6, 6);
    let fill = ink();
    {
        let mut canvas = Canvas::<SolidPaint, SolidPaint>::new(&mut buffer, None, Some(&fill));
        canvas.fill_rect(Point2d::new(0, 0), Size2d::new(2, 2)).unwrap();
        assert_eq!(canvas.position, Point2d::new(0, 0));
    }
    assert_eq!(
        touched(&buffer),
        vec![(0, 0), (1, 0), (2, 0), (0, 1), (1, 1), (2, 1), (0, 2), (1, 2), (2, 2)]
    );
}

#[test]
fn circle_looks_the_same_after_a_quarter_turn() {
    let mut buffer = blank(21, 21);
    let stroke = ink();
    {
        let mut canvas = Canvas::<SolidPaint, SolidPaint>::new(&mut buffer, Some(&stroke), None);
        canvas.stroke_circle_from_center(Point2d::new(10, 10), 5).unwrap();
    }
    let cells = touched(&buffer);
    assert!(cells.contains(&(15, 10)));
    assert!(cells.contains(&(10, 15)));
    assert!(cells.contains(&(5, 10)));
    assert!(cells.contains(&(10, 5)));
    assert!(!cells.contains(&(10, 10)));
    for &(x, y) in cells.iter() {
        let (dx, dy) = (x - 10, y - 10);
        assert!(cells.contains(&(10 - dy, 10 + dx)));
        assert!(cells.contains(&(10 - dx, 10 - dy)));
        assert!(cells.contains(&(10 + dy, 10 - dx)));
        let distance = dx * dx + dy * dy;
        assert!(16 < distance && distance < 36);
    }
}

#[test]
fn circle_by_its_corner_is_the_circle_about_its_center() {
    let stroke = ink();
    let mut first = blank(24, 24);
    let mut second = blank(24, 24);
    {
        let mut canvas = Canvas::<SolidPaint, SolidPaint>::new(&mut first, Some(&stroke), None);
        canvas.stroke_circle(Point2d::new(2, 3), 7).unwrap();
    }
    {
        let mut canvas = Canvas::<SolidPaint, SolidPaint>::new(&mut second, Some(&stroke), None);
        canvas.stroke_circle_from_center(Point2d::new(9, 10), 7).unwrap();
    }
    assert_eq!(touched(&first), touched(&second));
}

#[test]
fn fill_circle_covers_the_outline_and_the_inside() {
    let paint = ink();
    let mut outline = blank(15, 15);
    let mut disc = blank(15, 15);
    {
        let mut canvas = Canvas::<SolidPaint, SolidPaint>::new(&mut outline, Some(&paint), None);
        canvas.stroke_circle_from_center(Point2d::new(7, 7), 4).unwrap();
    }
    {
        let mut canvas = Canvas::<SolidPaint, SolidPaint>::new(&mut disc, None, Some(&paint));
        canvas.fill_circle_from_center(Point2d::new(7, 7), 4).unwrap();
    }
    let filled = touched(&disc);
    for cell in touched(&outline) {
        assert!(filled.contains(&cell));
    }
    assert!(filled.contains(&(7, 7)));
    assert!(!filled.contains(&(0, 0)));
}

#[test]
fn circle_of_radius_zero_is_its_center() {
    let mut buffer = blank(5, 5);
    let stroke = ink();
    {
        let mut canvas = Canvas::<SolidPaint, SolidPaint>::new(&mut buffer, Some(&stroke), None);
        canvas.stroke_circle_from_center(Point2d::new(2, 2), 0).unwrap();
    }
    assert_eq!(touched(&buffer), vec![(2, 2)]);
}

#[test]
fn ellipse_fills_its_box() {
    let mut buffer = blank(30, 20);
    let stroke = ink();
    {
        let mut canvas = Canvas::<SolidPaint, SolidPaint>::new(&mut buffer, Some(&stroke), None);
        canvas.stroke_ellipse(Point2d::new(5, 4), Size2d::new(20, 10)).unwrap();
    }
    let cells = touched(&buffer);
    assert!(cells.contains(&(5, 9)));
    assert!(cells.contains(&(25, 9)));
    assert!(cells.contains(&(15, 4)));
    assert!(cells.contains(&(15, 14)));
    for &(x, y) in cells.iter() {
        assert!(5 <= x && x <= 25 && 4 <= y && y <= 14);
        assert!(cells.contains(&(30 - x, y)));
        assert!(cells.contains(&(x, 18 - y)));
    }
}

#[test]
fn ellipse_about_a_center_is_the_ellipse_in_its_box() {
    let stroke = ink();
    let mut first = blank(30, 20);
    let mut second = blank(30, 20);
    {
        let mut canvas = Canvas::<SolidPaint, SolidPaint>::new(&mut first, Some(&stroke), None);
        canvas.stroke_ellipse_from_center(Point2d::new(15, 9), Size2d::new(20, 10)).unwrap();
    }
    {
        let mut canvas = Canvas::<SolidPaint, SolidPaint>::new(&mut second, Some(&stroke), None);
        canvas.stroke_ellipse(Point2d::new(5, 4), Size2d::new(20, 10)).unwrap();
    }
    assert_eq!(touched(&first), touched(&second));
}

#[test]
fn fill_ellipse_covers_the_outline_and_the_inside() {
    let paint = ink();
    let mut outline = blank(30, 20);
    let mut oval = blank(30, 20);
    let mut centered = blank(30, 20);
    {
        let mut canvas = Canvas::<SolidPaint, SolidPaint>::new(&mut outline, Some(&paint), None);
        canvas.stroke_ellipse(Point2d::new(5, 4), Size2d::new(20, 10)).unwrap();
    }
    {
        let mut canvas = Canvas::<SolidPaint, SolidPaint>::new(&mut oval, None, Some(&paint));
        canvas.fill_ellipse(Point2d::new(5, 4), Size2d::new(20, 10)).unwrap();
    }
    {
        let mut canvas = Canvas::<SolidPaint, SolidPaint>::new(&mut centered, None, Some(&paint));
        canvas.fill_ellipse_from_center(Point2d::new(15, 9), Size2d::new(20, 10)).unwrap();
    }
    let filled = touched(&oval);
    for cell in touched(&outline) {
        assert!(filled.contains(&cell));
    }
    assert!(filled.contains(&(15, 9)));
    assert!(!filled.contains(&(5, 4)));
    assert_eq!(filled, touched(&centered));
}

#[test]
fn thin_ellipse_is_drawn_to_its_full_height() {
    let mut buffer = blank(8, 12);
    let stroke = ink();
    {
        let mut canvas = Canvas::<SolidPaint, SolidPaint>::new(&mut buffer, Some(&stroke), None);
        canvas.stroke_ellipse(Point2d::new(3, 1), Size2d::new(0, 8)).unwrap();
    }
    let cells = touched(&buffer);
    assert!(cells.contains(&(3, 5)));
    assert!(cells.len() > 1);
}

#[test]
fn drawing_without_the_paint_fails_and_changes_nothing() {
    let stroke = ink();
    let mut buffer = blank(10, 10);
    {
        let mut canvas = Canvas::<SolidPaint, SolidPaint>::new(&mut buffer, Some(&stroke), None);
        canvas.move_to(Point2d::new(1, 1));
        assert_eq!(
            canvas.fill_rect(Point2d::new(0, 0), Size2d::new(2, 2)),
            Err("Can not fill a rectangle without a fill.")
        );
        assert_eq!(
            canvas.fill_circle(Point2d::new(0, 0), 3),
            Err("Can not fill a circle without a fill.")
        );
        assert_eq!(
            canvas.fill_circle_from_center(Point2d::new(4, 4), 3),
            Err("Can not fill a circle without a fill.")
        );
        assert_eq!(
            canvas.fill_ellipse(Point2d::new(0, 0), Size2d::new(4, 2)),
            Err("Can not fill an ellipse without a fill.")
        );
        assert_eq!(
            canvas.fill_ellipse_from_center(Point2d::new(4, 4), Size2d::new(4, 2)),
            Err("Can not fill an ellipse without a fill.")
        );
        assert_eq!(canvas.position, Point2d::new(1, 1));
    }
    assert_eq!(touched(&buffer), vec![]);
    {
        let mut canvas = Canvas::<SolidPaint, SolidPaint>::new(&mut buffer, None, Some(&stroke));
        canvas.move_to(Point2d::new(1, 1));
        assert_eq!(
            canvas.line_to(Point2d::new(3, 3)),
            Err("Can not draw a line without a stroke.")
        );
        assert_eq!(
            canvas.stroke_rect(Point2d::new(0, 0), Size2d::new(2, 2)),
            Err("Can not draw a rectangle without a stroke.")
        );
        assert_eq!(
            canvas.stroke_circle(Point2d::new(0, 0), 3),
            Err("Can not draw a circle without a stroke.")
        );
        assert_eq!(
            canvas.stroke_circle_from_center(Point2d::new(4, 4), 3),
            Err("Can not draw a circle without a stroke.")
        );
        assert_eq!(
            canvas.stroke_ellipse(Point2d::new(0, 0), Size2d::new(4, 2)),
            Err("Can not draw an ellipse without a stroke.")
        );
        assert_eq!(
            canvas.stroke_ellipse_from_center(Point2d::new(4, 4), Size2d::new(4, 2)),
            Err("Can not draw an ellipse without a stroke.")
        );
        assert_eq!(canvas.position, Point2d::new(1, 1));
    }
    assert_eq!(touched(&buffer), vec![]);
}

#[test]
fn paints_can_be_changed_between_strokes() {
    let first = ink();
    let second = SolidPaint::new(Cell::new('o', Color::Red, Color::Black));
    let mut buffer = blank(6, 3);
    {
        let mut canvas = Canvas::<SolidPaint, SolidPaint>::new(&mut buffer, Some(&first), None);
        canvas.line_to(Point2d::new(2, 0)).unwrap();
        canvas.set_stroke(&second);
        canvas.line_to(Point2d::new(4, 0)).unwrap();
        canvas.set_fill(&first);
        canvas.fill_rect(Point2d::new(5, 2), Size2d::new(0, 0)).unwrap();
    }
    assert_eq!(buffer.get(Point2d::new(0, 0)).unwrap().character, '*');
    assert_eq!(buffer.get(Point2d::new(1, 0)).unwrap().character, '*');
    assert_eq!(buffer.get(Point2d::new(2, 0)).unwrap(), Cell::new('o', Color::Red, Color::Black));
    assert_eq!(buffer.get(Point2d::new(4, 0)).unwrap().character, 'o');
    assert_eq!(buffer.get(Point2d::new(5, 2)).unwrap().character, '*');
    assert_eq!(buffer.get(Point2d::new(5, 0)).unwrap().character, ' ');
}
