use tokterm::drawing::canvas::{Canvas, SolidPaint};
use tokterm::drawing::cell::Cell;
use tokterm::drawing::cell_buffer::CellBuffer;
use tokterm::drawing::color::Color;
use tokterm::drawing::point_2d::Point2d;
use tokterm::drawing::size_2d::Size2d;

fn curve(
    size: (usize, usize),
    from: (i32, i32),
    to: (i32, i32),
    control: (i32, i32),
) -> Vec<(i32, i32)> {
    let mut buffer =
        CellBuffer::new(Cell::new(' ', Color::White, Color::Blue), Size2d::new(size.0, size.1));
    let stroke = SolidPaint::new(Cell::new('*', Color::White, Color::DarkGrey));
    {
        let mut canvas = Canvas::<SolidPaint, SolidPaint>::new(&mut buffer, Some(&stroke), None);
        canvas.move_to(Point2d::new(from.0, from.1));
        canvas
            .bezier_to(Point2d::new(to.0, to.1), Point2d::new(control.0, control.1))
            .unwrap();
        assert_eq!(canvas.position, Point2d::new(to.0, to.1));
    }
    let mut cells = Vec::new();
    for y in 0..size.1 as i32 {
        for x in 0..size.0 as i32 {
            if buffer.get(Point2d::new(x, y)).unwrap().character == '*' {
                cells.push((x, y));
            }
        }
    }
    cells
}

#[test]
fn curve_that_turns_back_along_the_columns() {
    assert_eq!(
        curve((80, 25), (39, 0), (39, 20), (79, 10)),
        vec![
            (39, 0), (40, 1), (41, 1), (42, 1), (43, 1), (44, 2), (45, 2), (46, 2), (47, 3),
            (48, 3), (49, 3), (50, 4), (51, 4), (52, 5), (53, 5), (54, 6), (55, 6), (56, 7),
            (57, 8), (58, 9), (59, 10), (58, 11), (57, 12), (56, 13), (54, 14), (55, 14),
            (52, 15), (53, 15), (50, 16), (51, 16), (47, 17), (48, 17), (49, 17), (44, 18),
            (45, 18), (46, 18), (40, 19), (41, 19), (42, 19), (43, 19), (39, 20),
        ]
    );
}

#[test]
fn curve_that_turns_back_along_the_rows() {
    assert_eq!(
        curve((12, 10), (0, 0), (10, 0), (5, 8)),
        vec![
            (0, 0), (10, 0), (1, 1), (9, 1), (2, 2), (9, 2), (3, 3), (8, 3), (4, 4), (5, 4),
            (6, 4), (7, 4),
        ]
    );
}

#[test]
fn curve_that_bends_one_way() {
    assert_eq!(
        curve((10, 10), (0, 0), (8, 8), (8, 0)),
        vec![
            (0, 0), (1, 0), (2, 0), (3, 1), (4, 1), (5, 2), (6, 3), (7, 4), (8, 5), (8, 6),
            (8, 7), (8, 8),
        ]
    );
}

#[test]
fn curve_that_is_walked_from_its_end() {
    assert_eq!(
        curve((14, 12), (2, 2), (12, 9), (2, 9)),
        vec![
            (2, 2), (2, 3), (2, 4), (3, 5), (4, 6), (5, 7), (6, 8), (7, 8), (8, 8), (9, 9),
            (10, 9), (11, 9), (12, 9),
        ]
    );
}

#[test]
fn curve_through_points_on_a_line_is_the_line() {
    assert_eq!(
        curve((12, 4), (1, 1), (9, 1), (5, 1)),
        vec![
            (1, 1), (2, 1), (3, 1), (4, 1), (5, 1), (6, 1), (7, 1), (8, 1), (9, 1),
        ]
    );
}

#[test]
fn curve_that_turns_back_both_ways() {
    assert_eq!(
        curve((14, 14), (5, 1), (1, 6), (12, 12)),
        vec![
            (5, 1), (6, 2), (6, 3), (7, 4), (7, 5), (1, 6), (8, 6), (2, 7), (3, 7), (8, 7),
            (4, 8), (5, 8), (6, 8), (7, 8),
        ]
    );
}

#[test]
fn curve_that_rises_off_the_grid_is_cut() {
    assert_eq!(
        curve((22, 12), (0, 10), (20, 10), (10, -10)),
        vec![
            (8, 0), (9, 0), (10, 0), (11, 0), (12, 0), (7, 1), (13, 1), (6, 2), (14, 2),
            (5, 3), (15, 3), (4, 4), (16, 4), (3, 5), (17, 5), (2, 6), (18, 6), (2, 7),
            (18, 7), (1, 8), (19, 8), (1, 9), (19, 9), (0, 10), (20, 10),
        ]
    );
}

#[test]
fn curve_without_a_stroke_fails_and_changes_nothing() {
    let mut buffer = CellBuffer::new(Cell::new(' ', Color::White, Color::Blue), Size2d::new(8, 8));
    let fill = SolidPaint::new(Cell::new('*', Color::White, Color::DarkGrey));
    {
        let mut canvas = Canvas::<SolidPaint, SolidPaint>::new(&mut buffer, None, Some(&fill));
        canvas.move_to(Point2d::new(1, 1));
        assert_eq!(
            canvas.bezier_to(Point2d::new(6, 6), Point2d::new(6, 1)),
            Err("Can not draw a bezier line without a stroke.")
        );
        assert_eq!(canvas.position, Point2d::new(1, 1));
    }
    for cell in buffer.iter() {
        assert_eq!(*cell, Cell::new(' ', Color::White, Color::Blue));
    }
}

#[test]
fn strokes_go_on_from_the_end_of_a_curve() {
    let mut buffer = CellBuffer::new(Cell::new(' ', Color::White, Color::Blue), Size2d::new(12, 12));
    let stroke = SolidPaint::new(Cell::new('*', Color::White, Color::DarkGrey));
    {
        let mut canvas = Canvas::<SolidPaint, SolidPaint>::new(&mut buffer, Some(&stroke), None);
        canvas.line_to(Point2d::new(0, 2)).unwrap();
        canvas.bezier_to(Point2d::new(8, 10), Point2d::new(0, 10)).unwrap();
        canvas.line_to(Point2d::new(11, 10)).unwrap();
    }
    assert_eq!(buffer.get(Point2d::new(0, 0)).unwrap().character, '*');
    assert_eq!(buffer.get(Point2d::new(0, 2)).unwrap().character, '*');
    assert_eq!(buffer.get(Point2d::new(8, 10)).unwrap().character, '*');
    assert_eq!(buffer.get(Point2d::new(11, 10)).unwrap().character, '*');
    assert_eq!(buffer.get(Point2d::new(11, 0)).unwrap().character, ' ');
}

/// The cells of the line from `from` to `to`, both ends included: one step
/// at a time along the longer extent, and across at the cell nearest to the
/// straight line, a half counting toward the higher column or row.
fn plain_line(from: (i64, i64), to: (i64, i64), cells: &mut Vec<(i64, i64)>) {
    let (x0, y0) = from;
    let (x1, y1) = to;
    let dx = (x1 - x0).abs();
    let dy = (y1 - y0).abs();
    let sx = if x0 < x1 { 1 } else { -1 };
    let sy = if y0 < y1 { 1 } else { -1 };
    if dx == 0 && dy == 0 {
        cells.push((x0, y0));
    } else if dx >= dy {
        for k in 0..=dx {
            cells.push((x0 + sx * k, y0 + (2 * k * (y1 - y0) + dx).div_euclid(2 * dx)));
        }
    } else {
        for k in 0..=dy {
            cells.push((x0 + (2 * k * (x1 - x0) + dy).div_euclid(2 * dy), y0 + sy * k));
        }
    }
}

/// The cells of a curve that bends one way, with the error term carried in
/// floating point. `None` where the curve does not bend one way, and where
/// the walk takes more cells than lie between its ends.
fn float_segment(
    start: (i64, i64),
    end: (i64, i64),
    control: (i64, i64),
    cells: &mut Vec<(i64, i64)>,
) -> Option<()> {
    let (mut x0, mut y0) = start;
    let (mut x1, mut y1) = end;
    let (cx, cy) = control;
    let mut sx = x1 - cx;
    let mut sy = y1 - cy;
    let mut xx = x0 - cx;
    let mut yy = y0 - cy;
    let mut curvature = (xx * sy - yy * sx) as f64;
    if !(xx * sx <= 0 && yy * sy <= 0) {
        return None;
    }
    if sx * sx + sy * sy > xx * xx + yy * yy {
        x1 = x0;
        x0 = sx + cx;
        y1 = y0;
        y0 = sy + cy;
        curvature = -curvature;
    }
    if curvature != 0.0 {
        xx += sx;
        sx = if x0 < x1 { 1 } else { -1 };
        xx *= sx;
        yy += sy;
        sy = if y0 < y1 { 1 } else { -1 };
        yy *= sy;
        let mut xy = 2 * xx * yy;
        xx *= xx;
        yy *= yy;
        if curvature * ((sx * sy) as f64) < 0.0 {
            xx = -xx;
            yy = -yy;
            xy = -xy;
            curvature = -curvature;
        }
        let mut dx = 4.0 * sy as f64 * curvature * (cx - x0) as f64 + (xx - xy) as f64;
        let mut dy = 4.0 * sx as f64 * curvature * (y0 - cy) as f64 + (yy - xy) as f64;
        xx += xx;
        yy += yy;
        let mut err = dx + dy + xy as f64;
        let budget = (x1 - x0).abs() + (y1 - y0).abs() + 1;
        let mut steps = 0;
        while dy <= dx {
            if steps == budget {
                return None;
            }
            cells.push((x0, y0));
            if x0 == x1 && y0 == y1 {
                return Some(());
            }
            let stood = (x0, y0);
            if 2.0 * err > dy {
                x0 += sx;
                dx -= xy as f64;
                dy += yy as f64;
                err += dy;
            }
            if 2.0 * err < dx {
                y0 += sy;
                dy -= xy as f64;
                dx += xx as f64;
                err += dx;
            }
            steps += 1;
            if stood == (x0, y0) {
                return None;
            }
        }
    }
    plain_line((x0, y0), (x1, y1), cells);
    Some(())
}

/// The whole number nearest to `value`, a half counting upward. `None`
/// where `value` lies so near to half way between two whole numbers that
/// floating point cannot tell on which side it is.
fn rounded(value: f64) -> Option<f64> {
    let raised = value + 0.5;
    let part = raised - raised.floor();
    if part < 1e-9 || part > 1.0 - 1e-9 {
        None
    } else {
        Some(raised.floor())
    }
}

/// The cells of a curve, cut and walked in floating point. `None` where a
/// piece of the curve does not bend one way, and where floating point
/// cannot tell how a number is to be rounded.
fn float_curve(
    start: (i64, i64),
    end: (i64, i64),
    control: (i64, i64),
) -> Option<Vec<(i64, i64)>> {
    let mut cells = Vec::new();
    let (mut x0, mut y0) = (start.0 as f64, start.1 as f64);
    let (mut x1, mut y1) = (end.0 as f64, end.1 as f64);
    let (mut cx, mut cy) = (control.0 as f64, control.1 as f64);
    let mut x = x0 - cx;
    let mut y = y0 - cy;
    let mut t = x0 - 2.0 * cx + x1;
    let mut r: f64;
    if x * (x1 - cx) > 0.0 {
        if y * (y1 - cy) > 0.0 {
            let bent = ((y0 - 2.0 * cy + y1) / t * x).abs();
            if (bent - y.abs()).abs() < 1e-9 {
                return None;
            }
            if bent > y.abs() {
                x0 = x1;
                x1 = x + cx;
                y0 = y1;
                y1 = y + cy;
            }
        }
        t = (x0 - cx) / t;
        r = (1.0 - t) * ((1.0 - t) * y0 + 2.0 * t * cy) + t * t * y1;
        t = (x0 * x1 - cx * cx) * t / (x0 - cx);
        x = rounded(t)?;
        y = rounded(r)?;
        r = (cy - y0) * (t - x0) / (cx - x0) + y0;
        float_segment(
            (x0 as i64, y0 as i64),
            (x as i64, y as i64),
            (x as i64, rounded(r)? as i64),
            &mut cells,
        )?;
        r = (cy - y1) * (t - x1) / (cx - x1) + y1;
        cx = x;
        x0 = cx;
        y0 = y;
        cy = rounded(r)?;
    }
    if (y0 - cy) * (y1 - cy) > 0.0 {
        t = y0 - 2.0 * cy + y1;
        t = (y0 - cy) / t;
        r = (1.0 - t) * ((1.0 - t) * x0 + 2.0 * t * cx) + t * t * x1;
        t = (y0 * y1 - cy * cy) * t / (y0 - cy);
        x = rounded(r)?;
        y = rounded(t)?;
        r = (cx - x0) * (t - y0) / (cy - y0) + x0;
        float_segment(
            (x0 as i64, y0 as i64),
            (x as i64, y as i64),
            (rounded(r)? as i64, y as i64),
            &mut cells,
        )?;
        r = (cx - x1) * (t - y1) / (cy - y1) + x1;
        x0 = x;
        cx = rounded(r)?;
        cy = y;
        y0 = cy;
    }
    float_segment(
        (x0 as i64, y0 as i64),
        (x1 as i64, y1 as i64),
        (cx as i64, cy as i64),
        &mut cells,
    )?;
    Some(cells)
}

#[test]
fn curve_in_whole_numbers_is_the_curve_in_floating_point() {
    let mut seed: u64 = 0x2545_f491_4f6c_dd1d;
    let mut next = |span: u64| -> i32 {
        seed ^= seed << 13;
        seed ^= seed >> 7;
        seed ^= seed << 17;
        (seed % span) as i32
    };
    let mut compared = 0;
    for _ in 0..3000 {
        let from = (next(48), next(32));
        let to = (next(48), next(32));
        let control = (next(64) - 8, next(48) - 8);
        let expected = match float_curve(
            (from.0 as i64, from.1 as i64),
            (to.0 as i64, to.1 as i64),
            (control.0 as i64, control.1 as i64),
        ) {
            Some(cells) => cells,
            None => continue,
        };
        let mut expected: Vec<(i32, i32)> = expected
            .into_iter()
            .filter(|&(x, y)| 0 <= x && x < 48 && 0 <= y && y < 32)
            .map(|(x, y)| (x as i32, y as i32))
            .collect();
        expected.sort_by_key(|&(x, y)| (y, x));
        expected.dedup();
        assert_eq!(curve((48, 32), from, to, control), expected, "{:?} {:?} {:?}", from, to, control);
        compared += 1;
    }
    assert!(compared > 2000);
}

#[test]
fn curve_holds_its_ends() {
    let mut seed: u64 = 0x9e37_79b9_7f4a_7c15;
    let mut next = |span: u64| -> i32 {
        seed ^= seed << 13;
        seed ^= seed >> 7;
        seed ^= seed << 17;
        (seed % span) as i32
    };
    for _ in 0..1000 {
        let from = (next(40), next(40));
        let to = (next(40), next(40));
        let control = (next(200) - 80, next(200) - 80);
        let cells = curve((40, 40), from, to, control);
        assert!(cells.contains(&from));
        assert!(cells.contains(&to));
    }
}
