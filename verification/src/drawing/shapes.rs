//! The cells that each shape passes through, as sequences of grid positions
//! in the order in which they are drawn.

use vstd::prelude::*;

verus! {

/// The distance of `i` from zero.
pub open spec fn magnitude(i: int) -> int {
    if i < 0 {
        -i
    } else {
        i
    }
}

/// The step that leads from `from` towards `to`: forward when `to` lies
/// ahead, backward otherwise.
pub open spec fn heading(from: int, to: int) -> int {
    if from < to {
        1
    } else {
        -1
    }
}

/// The whole number nearest to `numerator / denominator`, a half counting
/// upward. Zero when the denominator is zero.
pub open spec fn nearest(numerator: int, denominator: int) -> int {
    if denominator == 0 {
        0
    } else {
        (2 * numerator + denominator) / (2 * denominator)
    }
}

/// The longer of the two extents of the line from `(x0, y0)` to `(x1, y1)`.
pub open spec fn line_reach(x0: int, y0: int, x1: int, y1: int) -> int {
    if magnitude(x1 - x0) >= magnitude(y1 - y0) {
        magnitude(x1 - x0)
    } else {
        magnitude(y1 - y0)
    }
}

/// The cell of the line from `(x0, y0)` to `(x1, y1)` that lies `k` steps
/// from its start. Along the longer extent the line advances one cell at
/// each step; across, it is at the cell nearest to the straight line. Where
/// the straight line passes half way between two cells, the line takes the
/// one in the higher column or row, whichever way it is drawn.
pub open spec fn line_point(x0: int, y0: int, x1: int, y1: int, k: int) -> (int, int) {
    let dx = magnitude(x1 - x0);
    let dy = magnitude(y1 - y0);
    if dx >= dy {
        (x0 + heading(x0, x1) * k, y0 + nearest(k * (y1 - y0), dx))
    } else {
        (x0 + nearest(k * (x1 - x0), dy), y0 + heading(y0, y1) * k)
    }
}

/// The cells of the line from `(x0, y0)` to `(x1, y1)`, from its start to
/// its end.
pub open spec fn line_points(x0: int, y0: int, x1: int, y1: int) -> Seq<(int, int)> {
    Seq::new(
        (line_reach(x0, y0, x1, y1) + 1) as nat,
        |k: int| line_point(x0, y0, x1, y1, k),
    )
}

/// A quotient is known by the two multiples of the divisor that it lies
/// between.
pub proof fn lemma_nearest_is(numerator: int, denominator: int, quotient: int)
    requires
        denominator > 0,
        2 * (denominator * quotient) <= 2 * numerator + denominator < 2 * (denominator * quotient)
            + 2 * denominator,
    ensures
        nearest(numerator, denominator) == quotient,
{
    let d = 2 * denominator;
    let a = 2 * numerator + denominator;
    let r = a - d * quotient;
    assert(d * quotient == 2 * (denominator * quotient)) by (nonlinear_arith)
        requires
            d == 2 * denominator,
    ;
    assert(a == quotient * d + r) by (nonlinear_arith)
        requires
            r == a - d * quotient,
    ;
    vstd::arithmetic::div_mod::lemma_fundamental_div_mod_converse(a, d, quotient, r);
}

/// The nearest whole number to a ratio lies between the two multiples of the
/// denominator that bound the ratio.
pub proof fn lemma_nearest_bounds(numerator: int, denominator: int)
    requires
        denominator > 0,
    ensures
        2 * (denominator * nearest(numerator, denominator)) <= 2 * numerator + denominator < 2 * (
        denominator * nearest(numerator, denominator)) + 2 * denominator,
{
    let d = 2 * denominator;
    let a = 2 * numerator + denominator;
    vstd::arithmetic::div_mod::lemma_fundamental_div_mod(a, d);
    let q = a / d;
    assert(d * q == 2 * (denominator * q)) by (nonlinear_arith)
        requires
            d == 2 * denominator,
    ;
}

/// A ratio that lies between two whole numbers rounds to a whole number
/// between them.
pub proof fn lemma_nearest_within(numerator: int, denominator: int, low: int, high: int)
    requires
        denominator > 0,
        low * denominator <= numerator <= high * denominator,
    ensures
        low <= nearest(numerator, denominator) <= high,
{
    let q = nearest(numerator, denominator);
    lemma_nearest_bounds(numerator, denominator);
    assert(low <= q) by (nonlinear_arith)
        requires
            denominator > 0,
            low * denominator <= numerator,
            2 * numerator + denominator < 2 * (denominator * q) + 2 * denominator,
    ;
    assert(q <= high) by (nonlinear_arith)
        requires
            denominator > 0,
            numerator <= high * denominator,
            2 * (denominator * q) <= 2 * numerator + denominator,
    ;
}

/// A ratio that is raised by a whole number rounds to a whole number that
/// is raised by as much.
pub proof fn lemma_nearest_shift(numerator: int, denominator: int, whole: int)
    requires
        denominator > 0,
    ensures
        nearest(numerator + denominator * whole, denominator) == nearest(numerator, denominator)
            + whole,
{
    let q = nearest(numerator, denominator);
    lemma_nearest_bounds(numerator, denominator);
    assert(denominator * (q + whole) == denominator * q + denominator * whole)
        by (nonlinear_arith);
    lemma_nearest_is(numerator + denominator * whole, denominator, q + whole);
}

/// A line starts at its first end.
pub proof fn lemma_line_starts(x0: int, y0: int, x1: int, y1: int)
    ensures
        line_points(x0, y0, x1, y1).len() == line_reach(x0, y0, x1, y1) + 1,
        line_points(x0, y0, x1, y1)[0] == (x0, y0),
{
    let reach = line_reach(x0, y0, x1, y1);
    assert(0 * (y1 - y0) == 0 && 0 * (x1 - x0) == 0) by (nonlinear_arith);
    if reach > 0 {
        lemma_nearest_is(0, reach, 0);
    }
    assert(heading(x0, x1) * 0 == 0) by (nonlinear_arith);
    assert(heading(y0, y1) * 0 == 0) by (nonlinear_arith);
}

/// A line ends at its second end.
pub proof fn lemma_line_ends(x0: int, y0: int, x1: int, y1: int)
    ensures
        line_points(x0, y0, x1, y1).last() == (x1, y1),
{
    let dx = magnitude(x1 - x0);
    let dy = magnitude(y1 - y0);
    let reach = line_reach(x0, y0, x1, y1);
    if reach > 0 {
        lemma_nearest_is(0, reach, 0);
        lemma_nearest_shift(0, reach, y1 - y0);
        lemma_nearest_shift(0, reach, x1 - x0);
    }
    assert(heading(x0, x1) * dx == x1 - x0) by (nonlinear_arith)
        requires
            dx == magnitude(x1 - x0),
    ;
    assert(heading(y0, y1) * dy == y1 - y0) by (nonlinear_arith)
        requires
            dy == magnitude(y1 - y0),
    ;
}

/// A line from a cell to itself is that cell.
pub proof fn lemma_line_to_itself(x: int, y: int)
    ensures
        line_points(x, y, x, y) == seq![(x, y)],
{
    lemma_line_starts(x, y, x, y);
    assert(line_points(x, y, x, y) =~= seq![(x, y)]);
}

/// From each cell of a line to the next there is one step along the longer
/// extent of the line, towards its end, and at most one step across: the
/// cells of a line touch, and no cell comes twice.
pub proof fn lemma_line_connected(x0: int, y0: int, x1: int, y1: int, k: int)
    requires
        0 <= k < line_reach(x0, y0, x1, y1),
    ensures
        ({
            let here = line_point(x0, y0, x1, y1, k);
            let next = line_point(x0, y0, x1, y1, k + 1);
            if magnitude(x1 - x0) >= magnitude(y1 - y0) {
                &&& next.0 == here.0 + heading(x0, x1)
                &&& next.1 == here.1 || next.1 == here.1 + heading(y0, y1)
            } else {
                &&& next.1 == here.1 + heading(y0, y1)
                &&& next.0 == here.0 || next.0 == here.0 + heading(x0, x1)
            }
        }),
{
    let dx = magnitude(x1 - x0);
    let dy = magnitude(y1 - y0);
    let wide = dx >= dy;
    let major = if wide {
        dx
    } else {
        dy
    };
    let drift = if wide {
        y1 - y0
    } else {
        x1 - x0
    };
    let along = if wide {
        heading(x0, x1)
    } else {
        heading(y0, y1)
    };
    let here = nearest(k * drift, major);
    let next = nearest((k + 1) * drift, major);
    lemma_nearest_bounds(k * drift, major);
    lemma_nearest_bounds((k + 1) * drift, major);
    assert((k + 1) * drift == k * drift + drift) by (nonlinear_arith);
    if drift > 0 {
        assert(next == here || next == here + 1) by (nonlinear_arith)
            requires
                major > 0,
                0 < drift <= major,
                2 * (major * here) <= 2 * (k * drift) + major < 2 * (major * here) + 2 * major,
                2 * (major * next) <= 2 * (k * drift + drift) + major < 2 * (major * next) + 2
                    * major,
        ;
    } else {
        assert(next == here || next == here - 1) by (nonlinear_arith)
            requires
                major > 0,
                -major <= drift <= 0,
                2 * (major * here) <= 2 * (k * drift) + major < 2 * (major * here) + 2 * major,
                2 * (major * next) <= 2 * (k * drift + drift) + major < 2 * (major * next) + 2
                    * major,
        ;
        if drift == 0 {
            assert(k * 0 == 0 && (k + 1) * 0 == 0) by (nonlinear_arith);
        }
    }
    assert(along * (k + 1) == along * k + along) by (nonlinear_arith);
}

/// No cell comes twice on a line.
pub proof fn lemma_line_cells_differ(x0: int, y0: int, x1: int, y1: int, first: int, second: int)
    requires
        0 <= first < second <= line_reach(x0, y0, x1, y1),
    ensures
        line_points(x0, y0, x1, y1)[first] != line_points(x0, y0, x1, y1)[second],
{
    let sx = heading(x0, x1);
    let sy = heading(y0, y1);
    assert(sx * first != sx * second) by (nonlinear_arith)
        requires
            sx == 1 || sx == -1,
            first < second,
    ;
    assert(sy * first != sy * second) by (nonlinear_arith)
        requires
            sy == 1 || sy == -1,
            first < second,
    ;
}

/// Whether two cells are neighbours, or one cell: they lie at most one
/// column and at most one row apart.
pub open spec fn adjacent(first: (int, int), second: (int, int)) -> bool {
    -1 <= second.0 - first.0 <= 1 && -1 <= second.1 - first.1 <= 1
}

/// Whether `cells` is a run without a gap: each cell is a neighbour of the
/// one before it.
pub open spec fn unbroken(cells: Seq<(int, int)>) -> bool {
    forall|i: int| 0 <= i < cells.len() - 1 ==> adjacent(#[trigger] cells[i], cells[i + 1])
}

/// A line has no gap.
pub proof fn lemma_line_unbroken(x0: int, y0: int, x1: int, y1: int)
    ensures
        unbroken(line_points(x0, y0, x1, y1)),
{
    let cells = line_points(x0, y0, x1, y1);
    assert forall|i: int| 0 <= i < cells.len() - 1 implies adjacent(
        #[trigger] cells[i],
        cells[i + 1],
    ) by {
        lemma_line_connected(x0, y0, x1, y1, i);
    }
}

/// A cell before a run without a gap, next to the first cell of the run,
/// makes a run without a gap.
pub proof fn lemma_unbroken_after(cell: (int, int), rest: Seq<(int, int)>)
    requires
        unbroken(rest),
        rest.len() > 0 ==> adjacent(cell, rest.first()),
    ensures
        unbroken(seq![cell] + rest),
{
    let cells = seq![cell] + rest;
    assert forall|i: int| 0 <= i < cells.len() - 1 implies adjacent(
        #[trigger] cells[i],
        cells[i + 1],
    ) by {
        if i == 0 {
            assert(cells[1] == rest[0]);
        } else {
            assert(cells[i] == rest[i - 1]);
            assert(cells[i + 1] == rest[i]);
        }
    }
}

/// A line drawn from its second end to its first passes through the cells
/// that it passes through when drawn from its first end to its second, in
/// the opposite order.
pub proof fn lemma_line_symmetric(x0: int, y0: int, x1: int, y1: int)
    ensures
        line_points(x1, y1, x0, y0) == line_points(x0, y0, x1, y1).reverse(),
{
    let dx = magnitude(x1 - x0);
    let dy = magnitude(y1 - y0);
    let major = line_reach(x0, y0, x1, y1);
    let forward = line_points(x0, y0, x1, y1);
    let backward = line_points(x1, y1, x0, y0);
    assert(backward.len() == forward.len());
    assert forall|k: int| 0 <= k < backward.len() implies backward[k] == forward[forward.len() - 1
        - k] by {
        let drift = if dx >= dy {
            y1 - y0
        } else {
            x1 - x0
        };
        let sx = heading(x0, x1);
        let sy = heading(y0, y1);
        if major == 0 {
            assert(k == 0);
            assert(sx * 0 == 0 && sy * 0 == 0) by (nonlinear_arith);
            assert(heading(x1, x0) * 0 == 0 && heading(y1, y0) * 0 == 0) by (nonlinear_arith);
        } else {
            // The cell `k` steps from the second end lies `major - k` steps
            // from the first.
            lemma_nearest_shift(k * (-drift), major, drift);
            assert((major - k) * drift == k * (-drift) + major * drift) by (nonlinear_arith);
            assert(sx * dx == x1 - x0) by (nonlinear_arith)
                requires
                    dx == magnitude(x1 - x0),
                    sx == heading(x0, x1),
            ;
            assert(sy * dy == y1 - y0) by (nonlinear_arith)
                requires
                    dy == magnitude(y1 - y0),
                    sy == heading(y0, y1),
            ;
            assert(sx * (major - k) == sx * major - sx * k) by (nonlinear_arith);
            assert(sy * (major - k) == sy * major - sy * k) by (nonlinear_arith);
            assert(heading(x1, x0) * k == -(sx * k) || x0 == x1) by (nonlinear_arith)
                requires
                    sx == heading(x0, x1),
            ;
            assert(heading(y1, y0) * k == -(sy * k) || y0 == y1) by (nonlinear_arith)
                requires
                    sy == heading(y0, y1),
            ;
        }
    }
    assert(backward =~= forward.reverse());
}

/// The cells of the outline of the rectangle with the opposite corners
/// `(x0, y0)` and `(x1, y1)`: its four sides, drawn in one stroke that starts
/// and ends at `(x0, y0)`.
pub open spec fn outline_points(x0: int, y0: int, x1: int, y1: int) -> Seq<(int, int)> {
    line_points(x0, y0, x1, y0) + line_points(x1, y0, x1, y1) + line_points(x1, y1, x0, y1)
        + line_points(x0, y1, x0, y0)
}

/// A line along a row passes, step by step, through the cells of the row.
pub proof fn lemma_level_line(x0: int, x1: int, y: int, k: int)
    requires
        0 <= k <= magnitude(x1 - x0),
    ensures
        line_points(x0, y, x1, y).len() == magnitude(x1 - x0) + 1,
        line_points(x0, y, x1, y)[k] == (x0 + (if x0 < x1 {
            k
        } else {
            -k
        }), y),
{
    let dx = magnitude(x1 - x0);
    assert(k * 0 == 0) by (nonlinear_arith);
    if dx > 0 {
        lemma_nearest_is(0, dx, 0);
    }
    assert(heading(x0, x1) * k == (if x0 < x1 {
        k
    } else {
        -k
    })) by (nonlinear_arith);
}

/// A line along a column passes, step by step, through the cells of the
/// column.
pub proof fn lemma_upright_line(x: int, y0: int, y1: int, k: int)
    requires
        0 <= k <= magnitude(y1 - y0),
    ensures
        line_points(x, y0, x, y1).len() == magnitude(y1 - y0) + 1,
        line_points(x, y0, x, y1)[k] == (x, y0 + (if y0 < y1 {
            k
        } else {
            -k
        })),
{
    let dy = magnitude(y1 - y0);
    assert(k * 0 == 0) by (nonlinear_arith);
    if dy > 0 {
        lemma_nearest_is(0, dy, 0);
    }
    assert(heading(x, x) * 0 == 0) by (nonlinear_arith);
    assert(heading(y0, y1) * k == (if y0 < y1 {
        k
    } else {
        -k
    })) by (nonlinear_arith);
}

/// Whether `(x, y)` lies on the border of the rectangle that spans the
/// columns `x0` to `x1` and the rows `y0` to `y1`.
pub open spec fn on_border(x0: int, y0: int, x1: int, y1: int, x: int, y: int) -> bool {
    x0 <= x <= x1 && y0 <= y <= y1 && (x == x0 || x == x1 || y == y0 || y == y1)
}

/// The outline of a rectangle holds each cell of its border, and no other
/// cell.
pub proof fn lemma_outline_is_border(x0: int, y0: int, x1: int, y1: int, x: int, y: int)
    requires
        x0 <= x1,
        y0 <= y1,
    ensures
        outline_points(x0, y0, x1, y1).contains((x, y)) <==> on_border(x0, y0, x1, y1, x, y),
{
    let top = line_points(x0, y0, x1, y0);
    let right = line_points(x1, y0, x1, y1);
    let bottom = line_points(x1, y1, x0, y1);
    let left = line_points(x0, y1, x0, y0);
    let outline = outline_points(x0, y0, x1, y1);
    let wide = x1 - x0;
    let high = y1 - y0;
    lemma_level_line(x0, x1, y0, 0);
    lemma_upright_line(x1, y0, y1, 0);
    lemma_level_line(x1, x0, y1, 0);
    lemma_upright_line(x0, y1, y0, 0);
    assert(outline.len() == 2 * wide + 2 * high + 4);
    if on_border(x0, y0, x1, y1, x, y) {
        if y == y0 {
            lemma_level_line(x0, x1, y0, x - x0);
            assert(outline[x - x0] == (x, y));
        } else if x == x1 {
            lemma_upright_line(x1, y0, y1, y - y0);
            assert(outline[wide + 1 + (y - y0)] == (x, y));
        } else if y == y1 {
            lemma_level_line(x1, x0, y1, x1 - x);
            assert(outline[wide + 1 + high + 1 + (x1 - x)] == (x, y));
        } else {
            lemma_upright_line(x0, y1, y0, y1 - y);
            assert(outline[wide + 1 + high + 1 + wide + 1 + (y1 - y)] == (x, y));
        }
    }
    if outline.contains((x, y)) {
        let i = choose|i: int| 0 <= i < outline.len() && outline[i] == (x, y);
        if i < wide + 1 {
            lemma_level_line(x0, x1, y0, i);
            assert(outline[i] == top[i]);
        } else if i < wide + 1 + high + 1 {
            lemma_upright_line(x1, y0, y1, i - (wide + 1));
            assert(outline[i] == right[i - (wide + 1)]);
        } else if i < wide + 1 + high + 1 + wide + 1 {
            lemma_level_line(x1, x0, y1, i - (wide + 1 + high + 1));
            assert(outline[i] == bottom[i - (wide + 1 + high + 1)]);
        } else {
            lemma_upright_line(x0, y1, y0, i - (wide + 1 + high + 1 + wide + 1));
            assert(outline[i] == left[i - (wide + 1 + high + 1 + wide + 1)]);
        }
    }
}

/// The cells of the rectangle that spans the columns `x0` to `x1` and the
/// rows `y0` to `y1`, all four included: row after row, each from left to
/// right.
pub open spec fn rect_points(x0: int, y0: int, x1: int, y1: int) -> Seq<(int, int)> {
    let columns = x1 - x0 + 1;
    let rows = y1 - y0 + 1;
    if columns <= 0 || rows <= 0 {
        Seq::empty()
    } else {
        Seq::new((columns * rows) as nat, |i: int| (x0 + i % columns, y0 + i / columns))
    }
}

/// A filled rectangle holds each cell of its span, and no other cell.
pub proof fn lemma_rect_points_cover(x0: int, y0: int, x1: int, y1: int, x: int, y: int)
    ensures
        rect_points(x0, y0, x1, y1).contains((x, y)) <==> (x0 <= x <= x1 && y0 <= y <= y1),
{
    let columns = x1 - x0 + 1;
    let rows = y1 - y0 + 1;
    let points = rect_points(x0, y0, x1, y1);
    if columns > 0 && rows > 0 {
        assert(columns * rows >= 0) by (nonlinear_arith)
            requires
                columns > 0,
                rows > 0,
        ;
        if x0 <= x <= x1 && y0 <= y <= y1 {
            crate::drawing::cell_buffer::lemma_grid_offset(columns, rows, x - x0, y - y0);
            let i = (x - x0) + columns * (y - y0);
            assert(points[i] == (x, y));
        }
        if points.contains((x, y)) {
            let i = choose|i: int| 0 <= i < points.len() && points[i] == (x, y);
            crate::drawing::cell_buffer::lemma_grid_coordinates(columns, rows, i);
        }
    }
}

/// How far the cell diagonally beyond the offset `(x, y)` lies outside the
/// circle of radius `r` about the origin: the square of its distance from
/// the center, less the square of the radius.
pub open spec fn circle_error(r: int, x: int, y: int) -> int {
    (x + 1) * (x + 1) + (y + 1) * (y + 1) - r * r
}

/// The row that follows the offset `(x, y)` on the arc: the next one, unless
/// the cell diagonally beyond lies too far outside the circle.
pub open spec fn circle_next_y(r: int, x: int, y: int) -> int {
    if circle_error(r, x, y) <= y {
        y + 1
    } else {
        y
    }
}

/// The column that follows the offset `(x, y)` on the arc.
pub open spec fn circle_next_x(r: int, x: int, y: int) -> int {
    if circle_error(r, x, y) > x || circle_error(r, x, circle_next_y(r, x, y)) > circle_next_y(
        r,
        x,
        y,
    ) {
        x + 1
    } else {
        x
    }
}

/// The four cells of the outline that belong to the offset `(x, y)`: one in
/// each quarter about the center `(cx, cy)`.
pub open spec fn circle_stamp(cx: int, cy: int, x: int, y: int) -> Seq<(int, int)> {
    seq![(cx - x, cy + y), (cx - y, cy - x), (cx + x, cy - y), (cx + y, cy + x)]
}

/// The cells of the two columns at the distance `x` on either side of the
/// center `(cx, cy)`, over the rows up to `y` above and below it: row after
/// row, in each row the column by `x` first and the opposite one second.
pub open spec fn circle_chord(cx: int, cy: int, x: int, y: int) -> Seq<(int, int)> {
    if y < 0 {
        Seq::empty()
    } else {
        Seq::new(
            (2 * (2 * y + 1)) as nat,
            |i: int|
                if i % 2 == 0 {
                    (cx + x, cy - y + i / 2)
                } else {
                    (cx - x, cy - y + i / 2)
                },
        )
    }
}

/// On the arc a row is only left while it is nearer to the center than the
/// radius.
pub proof fn lemma_circle_rise_bound(r: int, x: int, y: int)
    requires
        r >= 0,
        y >= 0,
        circle_error(r, x, y) <= y,
    ensures
        y < r,
{
    assert(y < r) by (nonlinear_arith)
        requires
            r >= 0,
            y >= 0,
            (x + 1) * (x + 1) + (y + 1) * (y + 1) - r * r <= y,
    ;
}

/// The cells of a circle of radius `r` about `(cx, cy)` from the offset
/// `(x, y)` on: of its outline, or, if `filled`, of its inside too. The arc
/// runs from the offset `(-r, 0)` through a quarter of the circle until it
/// has passed the column of the center.
pub open spec fn circle_trace(cx: int, cy: int, r: int, x: int, y: int, filled: bool) -> Seq<
    (int, int),
>
    decreases
        (if x <= 0 {
            1 - x
        } else {
            0
        }) + (if y < r {
            r - y
        } else {
            0
        }),
    when r >= 0 && y >= 0
{
    if x > 0 {
        Seq::empty()
    } else {
        proof {
            if circle_error(r, x, y) <= y {
                lemma_circle_rise_bound(r, x, y);
            }
        }
        (if filled {
            circle_chord(cx, cy, x, y)
        } else {
            circle_stamp(cx, cy, x, y)
        }) + circle_trace(cx, cy, r, circle_next_x(r, x, y), circle_next_y(r, x, y), filled)
    }
}

/// The outline of a circle, from any offset of its arc on, looks the same
/// after a quarter turn about its center: with each cell it holds the cell
/// that the turn takes it to.
pub proof fn lemma_circle_trace_turn(cx: int, cy: int, r: int, x: int, y: int, px: int, py: int)
    requires
        r >= 0,
        y >= 0,
        circle_trace(cx, cy, r, x, y, false).contains((px, py)),
    ensures
        circle_trace(cx, cy, r, x, y, false).contains((cx - (py - cy), cy + (px - cx))),
    decreases
        (if x <= 0 {
            1 - x
        } else {
            0
        }) + (if y < r {
            r - y
        } else {
            0
        }),
{
    let trace = circle_trace(cx, cy, r, x, y, false);
    let turned = (cx - (py - cy), cy + (px - cx));
    if x <= 0 {
        if circle_error(r, x, y) <= y {
            lemma_circle_rise_bound(r, x, y);
        }
        let stamp = circle_stamp(cx, cy, x, y);
        let rest = circle_trace(cx, cy, r, circle_next_x(r, x, y), circle_next_y(r, x, y), false);
        let i = choose|i: int| 0 <= i < trace.len() && trace[i] == (px, py);
        if i < 4 {
            let j = if i == 3 {
                0
            } else {
                i + 1
            };
            assert(trace[j] == turned);
        } else {
            assert(rest[i - 4] == (px, py));
            lemma_circle_trace_turn(
                cx,
                cy,
                r,
                circle_next_x(r, x, y),
                circle_next_y(r, x, y),
                px,
                py,
            );
            let j = choose|j: int| 0 <= j < rest.len() && rest[j] == turned;
            assert(trace[j + 4] == turned);
        }
    }
}

/// The outline of a circle looks the same after a quarter turn about its
/// center, after a half turn and after three quarters of a turn: with each
/// cell it holds the cells that the turns take it to.
pub proof fn lemma_circle_quarter_turn(cx: int, cy: int, r: int, px: int, py: int)
    requires
        r >= 0,
        circle_points(cx, cy, r).contains((px, py)),
    ensures
        circle_points(cx, cy, r).contains((cx - (py - cy), cy + (px - cx))),
        circle_points(cx, cy, r).contains((cx - (px - cx), cy - (py - cy))),
        circle_points(cx, cy, r).contains((cx + (py - cy), cy - (px - cx))),
{
    lemma_circle_trace_turn(cx, cy, r, -r, 0, px, py);
    lemma_circle_trace_turn(cx, cy, r, -r, 0, cx - (py - cy), cy + (px - cx));
    lemma_circle_trace_turn(cx, cy, r, -r, 0, cx - (px - cx), cy - (py - cy));
}

/// The cells of the outline of the circle of radius `r` about `(cx, cy)`,
/// in the order in which they are drawn.
pub open spec fn circle_points(cx: int, cy: int, r: int) -> Seq<(int, int)> {
    circle_trace(cx, cy, r, -r, 0, false)
}

/// The cells of the circle of radius `r` about `(cx, cy)`, its inside
/// included, in the order in which they are colored.
pub open spec fn disc_points(cx: int, cy: int, r: int) -> Seq<(int, int)> {
    circle_trace(cx, cy, r, -r, 0, true)
}

/// The error term of an ellipse `a` wide and `b` high after `i` steps along
/// the columns and `j` steps along the rows, starting from the ends of its
/// horizontal axis. It measures how far the cell diagonally beyond lies
/// outside the ellipse.
pub open spec fn ellipse_error(a: int, b: int, i: int, j: int) -> int {
    4 * (b * b) * ((1 + i) * (1 + i - a)) + 4 * (a * a) * ((1 + j) * (1 + j + b % 2)) + (b % 2) * (
    a * a)
}

/// The bound on twice the error term up to which the ellipse moves on to the
/// next row, after `j` steps along the rows.
pub open spec fn ellipse_rise_limit(a: int, b: int, j: int) -> int {
    4 * (b % 2 + 1) * (a * a) + 8 * (a * a) * j
}

/// The bound on twice the error term from which the ellipse moves on to the
/// next column, after `i` steps along the columns.
pub open spec fn ellipse_advance_limit(a: int, b: int, i: int) -> int {
    4 * (1 - a) * (b * b) + 8 * (b * b) * i
}

/// The number of steps along the rows after the state `(i, j)`.
pub open spec fn ellipse_next_j(a: int, b: int, i: int, j: int) -> int {
    if 2 * ellipse_error(a, b, i, j) <= ellipse_rise_limit(a, b, j) {
        j + 1
    } else {
        j
    }
}

/// The number of steps along the columns after the state `(i, j)`.
pub open spec fn ellipse_next_i(a: int, b: int, i: int, j: int) -> int {
    let next_j = ellipse_next_j(a, b, i, j);
    if 2 * ellipse_error(a, b, i, j) >= ellipse_advance_limit(a, b, i) || 2 * ellipse_error(
        a,
        b,
        i,
        next_j,
    ) > ellipse_rise_limit(a, b, next_j) {
        i + 1
    } else {
        i
    }
}

/// The left column of the ellipse in the state `(i, j)`.
pub open spec fn ellipse_left(px: int, i: int) -> int {
    px + i
}

/// The right column of the ellipse in the state `(i, j)`.
pub open spec fn ellipse_right(px: int, a: int, i: int) -> int {
    px + a - i
}

/// The lower row of the ellipse in the state `(i, j)`.
pub open spec fn ellipse_lower(py: int, b: int, j: int) -> int {
    py + (b + 1) / 2 + j
}

/// The upper row of the ellipse in the state `(i, j)`.
pub open spec fn ellipse_upper(py: int, b: int, j: int) -> int {
    py + (b + 1) / 2 - b % 2 - j
}

/// The four cells of the outline that belong to the state `(i, j)`: one in
/// each quarter of the ellipse that fills the box from `(px, py)` to
/// `(px + a, py + b)`.
pub open spec fn ellipse_stamp(px: int, py: int, a: int, b: int, i: int, j: int) -> Seq<(int, int)> {
    seq![
        (ellipse_left(px, i), ellipse_lower(py, b, j)),
        (ellipse_left(px, i), ellipse_upper(py, b, j)),
        (ellipse_right(px, a, i), ellipse_lower(py, b, j)),
        (ellipse_right(px, a, i), ellipse_upper(py, b, j)),
    ]
}

/// The cells of the lower and the upper row of the state `(i, j)` between
/// its left and its right column: column after column, the lower row first.
pub open spec fn ellipse_span(px: int, py: int, a: int, b: int, i: int, j: int) -> Seq<(int, int)> {
    let left = ellipse_left(px, i);
    let right = ellipse_right(px, a, i);
    if right < left {
        Seq::empty()
    } else {
        Seq::new(
            (2 * (right - left + 1)) as nat,
            |k: int|
                if k % 2 == 0 {
                    (left + k / 2, ellipse_lower(py, b, j))
                } else {
                    (left + k / 2, ellipse_upper(py, b, j))
                },
        )
    }
}

/// The cells of the left and the right column of the state `(i, j)` over
/// the rows from its upper row to its lower row: row after row, the left
/// column first.
pub open spec fn ellipse_post(px: int, py: int, a: int, b: int, i: int, j: int) -> Seq<(int, int)> {
    let lower = ellipse_lower(py, b, j);
    let upper = ellipse_upper(py, b, j);
    if lower < upper {
        Seq::empty()
    } else {
        Seq::new(
            (2 * (lower - upper + 1)) as nat,
            |k: int|
                if k % 2 == 0 {
                    (ellipse_left(px, i), upper + k / 2)
                } else {
                    (ellipse_right(px, a, i), upper + k / 2)
                },
        )
    }
}

/// Where an ellipse stays in its column, it moves on to the next row, its
/// error term is negative, and the step brings the error term nearer to zero.
pub proof fn lemma_ellipse_stall(a: int, b: int, i: int, j: int)
    requires
        a >= 0,
        b >= 0,
        i >= 0,
        j >= 0,
        ellipse_next_i(a, b, i, j) == i,
    ensures
        ellipse_next_j(a, b, i, j) == j + 1,
        ellipse_error(a, b, i, j) < 0,
        ellipse_error(a, b, i, j) < ellipse_error(a, b, i, j + 1),
{
    let e = ellipse_error(a, b, i, j);
    let parity = b % 2;
    let aa = a * a;
    let bb = b * b;
    assert(aa >= 0 && bb >= 0) by (nonlinear_arith)
        requires
            aa == a * a,
            bb == b * b,
    ;
    if ellipse_next_j(a, b, i, j) == j {
        assert(false);
    }
    let e1 = ellipse_error(a, b, i, j + 1);
    let limit = ellipse_rise_limit(a, b, j + 1);
    assert(e1 - e == limit) by (nonlinear_arith)
        requires
            e == 4 * bb * ((1 + i) * (1 + i - a)) + 4 * aa * ((1 + j) * (1 + j + parity)) + parity
                * aa,
            e1 == 4 * bb * ((1 + i) * (1 + i - a)) + 4 * aa * ((1 + (j + 1)) * (1 + (j + 1)
                + parity)) + parity * aa,
            limit == 4 * (parity + 1) * aa + 8 * aa * (j + 1),
    ;
    assert(2 * e1 <= limit);
    if a == 0 {
        assert(aa == 0) by (nonlinear_arith)
            requires
                a == 0,
                aa == a * a,
        ;
        assert(2 * e >= ellipse_advance_limit(a, b, i)) by (nonlinear_arith)
            requires
                a == 0,
                aa == 0,
                i >= 0,
                bb >= 0,
                e == 4 * bb * ((1 + i) * (1 + i - a)) + 4 * aa * ((1 + j) * (1 + j + parity))
                    + parity * aa,
                ellipse_advance_limit(a, b, i) == 4 * (1 - a) * bb + 8 * bb * i,
        ;
        assert(false);
    }
    assert(limit > 0) by (nonlinear_arith)
        requires
            a >= 1,
            aa == a * a,
            j >= 0,
            0 <= parity <= 1,
            limit == 4 * (parity + 1) * aa + 8 * aa * (j + 1),
    ;
}

/// One more row raises the error term by the next bound on the rows, which
/// grows evenly from row to row.
pub proof fn lemma_ellipse_rise(a: int, b: int, i: int, j: int)
    ensures
        ellipse_error(a, b, i, j + 1) == ellipse_error(a, b, i, j) + ellipse_rise_limit(a, b, j + 1),
        ellipse_rise_limit(a, b, j + 1) == ellipse_rise_limit(a, b, j) + 8 * (a * a),
{
    let parity = b % 2;
    let aa = a * a;
    let bb = b * b;
    let across = (1 + i) * (1 + i - a);
    assert(4 * aa * ((1 + (j + 1)) * (1 + (j + 1) + parity)) == 4 * aa * ((1 + j) * (1 + j
        + parity)) + 4 * (parity + 1) * aa + 8 * aa * (j + 1)) by (nonlinear_arith);
    assert(8 * aa * (j + 1) == 8 * aa * j + 8 * aa) by (nonlinear_arith);
}

/// One more column raises the error term by the next bound on the columns,
/// which grows evenly from column to column.
pub proof fn lemma_ellipse_advance(a: int, b: int, i: int, j: int)
    ensures
        ellipse_error(a, b, i + 1, j) == ellipse_error(a, b, i, j) + ellipse_advance_limit(
            a,
            b,
            i + 1,
        ),
        ellipse_advance_limit(a, b, i + 1) == ellipse_advance_limit(a, b, i) + 8 * (b * b),
{
    let bb = b * b;
    assert(4 * bb * ((1 + (i + 1)) * (1 + (i + 1) - a)) == 4 * bb * ((1 + i) * (1 + i - a)) + 4
        * (1 - a) * bb + 8 * bb * (i + 1)) by (nonlinear_arith);
    assert(8 * bb * (i + 1) == 8 * bb * i + 8 * bb) by (nonlinear_arith);
}

/// An ellipse that has a width moves on to the next row only while it has
/// not reached half its height.
pub proof fn lemma_ellipse_rise_bound(a: int, b: int, i: int, j: int)
    requires
        a >= 1,
        b >= 0,
        i >= 0,
        j >= 0,
        2 * ellipse_error(a, b, i, j) <= ellipse_rise_limit(a, b, j),
    ensures
        2 * j + 1 < b,
{
    let parity = b % 2;
    let aa = a * a;
    let bb = b * b;
    let across = (1 + i) * (1 + i - a);
    let along = (1 + j) * (1 + j + parity);
    assert(4 * across + aa >= 0) by (nonlinear_arith)
        requires
            across == (1 + i) * (1 + i - a),
            aa == a * a,
    ;
    assert(aa >= 1) by (nonlinear_arith)
        requires
            a >= 1,
            aa == a * a,
    ;
    assert(bb >= 0) by (nonlinear_arith)
        requires
            bb == b * b,
    ;
    assert(4 * bb * across >= -(aa * bb)) by (nonlinear_arith)
        requires
            4 * across + aa >= 0,
            bb >= 0,
    ;
    let slack = 2 * bb + 2 * parity + 4 + 8 * j - 8 * along;
    assert(aa * slack >= 0) by (nonlinear_arith)
        requires
            2 * (4 * bb * across + 4 * aa * along + parity * aa) <= 4 * (parity + 1) * aa + 8 * aa
                * j,
            4 * bb * across >= -(aa * bb),
            slack == 2 * bb + 2 * parity + 4 + 8 * j - 8 * along,
    ;
    assert(slack >= 0) by (nonlinear_arith)
        requires
            aa >= 1,
            aa * slack >= 0,
    ;
    let reach = 2 * j + 1;
    assert(reach * reach < bb) by (nonlinear_arith)
        requires
            slack >= 0,
            slack == 2 * bb + 2 * parity + 4 + 8 * j - 8 * along,
            along == (1 + j) * (1 + j + parity),
            parity == 0 || parity == 1,
            reach == 2 * j + 1,
            j >= 0,
    ;
    assert(reach < b) by (nonlinear_arith)
        requires
            reach * reach < bb,
            bb == b * b,
            b >= 0,
            reach >= 0,
    ;
}

/// The error term and its two bounds stay within what a wide integer holds,
/// for an ellipse whose extents are at most 2^30.
pub proof fn lemma_ellipse_magnitudes(a: int, b: int, i: int, j: int)
    requires
        0 <= a <= 0x4000_0000,
        0 <= b <= 0x4000_0000,
        0 <= i <= 0x4000_0000,
        0 <= j <= 0x4000_0000,
    ensures
        0 <= a * a <= 0x1000_0000_0000_0000,
        0 <= b * b <= 0x1000_0000_0000_0000,
        -0x4000_0000_0000_0000_0000_0000_0000_0000 < ellipse_error(a, b, i, j)
            < 0x4000_0000_0000_0000_0000_0000_0000_0000,
        -0x1_0000_0000_0000_0000_0000_0000 < ellipse_rise_limit(a, b, j)
            < 0x1_0000_0000_0000_0000_0000_0000,
        -0x1_0000_0000_0000_0000_0000_0000 < ellipse_advance_limit(a, b, i)
            < 0x1_0000_0000_0000_0000_0000_0000,
{
    let parity = b % 2;
    let aa = a * a;
    let bb = b * b;
    let across = (1 + i) * (1 + i - a);
    let along = (1 + j) * (1 + j + parity);
    assert(0 <= aa <= 0x1000_0000_0000_0000) by (nonlinear_arith)
        requires
            0 <= a <= 0x4000_0000,
            aa == a * a,
    ;
    assert(0 <= bb <= 0x1000_0000_0000_0000) by (nonlinear_arith)
        requires
            0 <= b <= 0x4000_0000,
            bb == b * b,
    ;
    assert(-0x2000_0000_0000_0000 <= across <= 0x2000_0000_0000_0000) by (nonlinear_arith)
        requires
            0 <= a <= 0x4000_0000,
            0 <= i <= 0x4000_0000,
            across == (1 + i) * (1 + i - a),
    ;
    assert(0 <= along <= 0x2000_0000_0000_0000) by (nonlinear_arith)
        requires
            0 <= j <= 0x4000_0000,
            0 <= parity <= 1,
            along == (1 + j) * (1 + j + parity),
    ;
    assert(-0x200_0000_0000_0000_0000_0000_0000_0000 <= bb * across
        <= 0x200_0000_0000_0000_0000_0000_0000_0000) by (nonlinear_arith)
        requires
            0 <= bb <= 0x1000_0000_0000_0000,
            -0x2000_0000_0000_0000 <= across <= 0x2000_0000_0000_0000,
    ;
    assert(0 <= aa * along <= 0x200_0000_0000_0000_0000_0000_0000_0000) by (nonlinear_arith)
        requires
            0 <= aa <= 0x1000_0000_0000_0000,
            0 <= along <= 0x2000_0000_0000_0000,
    ;
    assert(4 * bb * across == 4 * (bb * across)) by (nonlinear_arith);
    assert(4 * aa * along == 4 * (aa * along)) by (nonlinear_arith);
    assert(0 <= parity * aa <= 0x1000_0000_0000_0000) by (nonlinear_arith)
        requires
            0 <= aa <= 0x1000_0000_0000_0000,
            0 <= parity <= 1,
    ;
    assert(0 <= aa * j <= 0x400_0000_0000_0000_0000_0000) by (nonlinear_arith)
        requires
            0 <= aa <= 0x1000_0000_0000_0000,
            0 <= j <= 0x4000_0000,
    ;
    assert(0 <= bb * i <= 0x400_0000_0000_0000_0000_0000) by (nonlinear_arith)
        requires
            0 <= bb <= 0x1000_0000_0000_0000,
            0 <= i <= 0x4000_0000,
    ;
    assert(8 * aa * j == 8 * (aa * j)) by (nonlinear_arith);
    assert(8 * bb * i == 8 * (bb * i)) by (nonlinear_arith);
    assert(0 <= 4 * (parity + 1) * aa <= 8 * aa) by (nonlinear_arith)
        requires
            0 <= parity <= 1,
            0 <= aa,
    ;
    assert(-0x4000_0000 * bb <= (1 - a) * bb <= bb) by (nonlinear_arith)
        requires
            0 <= a <= 0x4000_0000,
            0 <= bb,
    ;
    assert(4 * (1 - a) * bb == 4 * ((1 - a) * bb)) by (nonlinear_arith);
}

/// The cells of the narrow ends of an ellipse from the state `(i, j)` on:
/// what is left of its height once its columns have met.
pub open spec fn ellipse_tall_trace(
    px: int,
    py: int,
    a: int,
    b: int,
    i: int,
    j: int,
    filled: bool,
) -> Seq<(int, int)>
    decreases b - 2 * j,
{
    if b % 2 + 2 * j >= b {
        Seq::empty()
    } else {
        (if filled {
            ellipse_post(px, py, a, b, i, j)
        } else {
            ellipse_stamp(px, py, a, b, i, j)
        }) + ellipse_tall_trace(px, py, a, b, i, j + 1, filled)
    }
}

/// The cells of the ellipse that fills the box from `(px, py)` to
/// `(px + a, py + b)`, from the state `(i, j)` on: of its outline, or, if
/// `filled`, of its inside too. The ellipse is drawn in all four quarters at
/// once, from the ends of its horizontal axis until its columns have met,
/// and then along what is left of its height.
pub open spec fn ellipse_trace(
    px: int,
    py: int,
    a: int,
    b: int,
    i: int,
    j: int,
    filled: bool,
) -> Seq<(int, int)>
    decreases
        (if 2 * i <= a {
            a - 2 * i + 1
        } else {
            0
        }),
        (if ellipse_error(a, b, i, j) < 0 {
            -ellipse_error(a, b, i, j)
        } else {
            0
        }),
    when a >= 0 && b >= 0 && i >= 0 && j >= 0
{
    if 2 * i > a {
        ellipse_tall_trace(px, py, a, b, i, j, filled)
    } else {
        proof {
            if ellipse_next_i(a, b, i, j) == i {
                lemma_ellipse_stall(a, b, i, j);
            }
        }
        (if filled {
            ellipse_span(px, py, a, b, i, j)
        } else {
            ellipse_stamp(px, py, a, b, i, j)
        }) + ellipse_trace(
            px,
            py,
            a,
            b,
            ellipse_next_i(a, b, i, j),
            ellipse_next_j(a, b, i, j),
            filled,
        )
    }
}

/// The cells of the outline of the ellipse that fills the box from
/// `(px, py)` to `(px + a, py + b)`, in the order in which they are drawn.
pub open spec fn ellipse_points(px: int, py: int, a: int, b: int) -> Seq<(int, int)> {
    ellipse_trace(px, py, a, b, 0, 0, false)
}

/// The cells of the ellipse that fills the box from `(px, py)` to
/// `(px + a, py + b)`, its inside included, in the order in which they are
/// colored.
pub open spec fn oval_points(px: int, py: int, a: int, b: int) -> Seq<(int, int)> {
    ellipse_trace(px, py, a, b, 0, 0, true)
}

/// The cell that lies opposite `(x, y)`, across the vertical axis, in the
/// box from `(px, py)` to `(px + a, py + b)`.
pub open spec fn mirrored_in_x(px: int, a: int, x: int, y: int) -> (int, int) {
    (2 * px + a - x, y)
}

/// The cell that lies opposite `(x, y)`, across the horizontal axis, in the
/// box from `(px, py)` to `(px + a, py + b)`.
pub open spec fn mirrored_in_y(py: int, b: int, x: int, y: int) -> (int, int) {
    (x, 2 * py + b - y)
}

/// The four cells of the outline of an ellipse that belong to one state
/// hold, with each cell, the cells opposite it across the two axes.
pub proof fn lemma_ellipse_stamp_mirrored(
    px: int,
    py: int,
    a: int,
    b: int,
    i: int,
    j: int,
    k: int,
)
    requires
        b >= 0,
        0 <= k < 4,
    ensures
        ({
            let stamp = ellipse_stamp(px, py, a, b, i, j);
            &&& mirrored_in_x(px, a, stamp[k].0, stamp[k].1) == stamp[if k < 2 {
                k + 2
            } else {
                k - 2
            }]
            &&& mirrored_in_y(py, b, stamp[k].0, stamp[k].1) == stamp[if k % 2 == 0 {
                k + 1
            } else {
                k - 1
            }]
        }),
{
}

/// The narrow ends of the outline of an ellipse hold, with each cell, the
/// cells opposite it across the two axes.
pub proof fn lemma_ellipse_tall_mirrored(
    px: int,
    py: int,
    a: int,
    b: int,
    i: int,
    j: int,
    x: int,
    y: int,
)
    requires
        b >= 0,
        ellipse_tall_trace(px, py, a, b, i, j, false).contains((x, y)),
    ensures
        ellipse_tall_trace(px, py, a, b, i, j, false).contains(mirrored_in_x(px, a, x, y)),
        ellipse_tall_trace(px, py, a, b, i, j, false).contains(mirrored_in_y(py, b, x, y)),
    decreases b - 2 * j,
{
    let trace = ellipse_tall_trace(px, py, a, b, i, j, false);
    if b % 2 + 2 * j < b {
        let stamp = ellipse_stamp(px, py, a, b, i, j);
        let rest = ellipse_tall_trace(px, py, a, b, i, j + 1, false);
        let k = choose|k: int| 0 <= k < trace.len() && trace[k] == (x, y);
        if k < 4 {
            lemma_ellipse_stamp_mirrored(px, py, a, b, i, j, k);
            assert(trace[if k < 2 {
                k + 2
            } else {
                k - 2
            }] == mirrored_in_x(px, a, x, y));
            assert(trace[if k % 2 == 0 {
                k + 1
            } else {
                k - 1
            }] == mirrored_in_y(py, b, x, y));
        } else {
            assert(rest[k - 4] == (x, y));
            lemma_ellipse_tall_mirrored(px, py, a, b, i, j + 1, x, y);
            let across = choose|m: int| 0 <= m < rest.len() && rest[m] == mirrored_in_x(px, a, x, y);
            assert(trace[across + 4] == mirrored_in_x(px, a, x, y));
            let along = choose|m: int| 0 <= m < rest.len() && rest[m] == mirrored_in_y(py, b, x, y);
            assert(trace[along + 4] == mirrored_in_y(py, b, x, y));
        }
    }
}

/// The outline of an ellipse, from any state on, holds with each cell the
/// cells opposite it across the two axes.
pub proof fn lemma_ellipse_trace_mirrored(
    px: int,
    py: int,
    a: int,
    b: int,
    i: int,
    j: int,
    x: int,
    y: int,
)
    requires
        a >= 0,
        b >= 0,
        i >= 0,
        j >= 0,
        ellipse_trace(px, py, a, b, i, j, false).contains((x, y)),
    ensures
        ellipse_trace(px, py, a, b, i, j, false).contains(mirrored_in_x(px, a, x, y)),
        ellipse_trace(px, py, a, b, i, j, false).contains(mirrored_in_y(py, b, x, y)),
    decreases
        (if 2 * i <= a {
            a - 2 * i + 1
        } else {
            0
        }),
        (if ellipse_error(a, b, i, j) < 0 {
            -ellipse_error(a, b, i, j)
        } else {
            0
        }),
{
    let trace = ellipse_trace(px, py, a, b, i, j, false);
    if 2 * i > a {
        lemma_ellipse_tall_mirrored(px, py, a, b, i, j, x, y);
    } else {
        if ellipse_next_i(a, b, i, j) == i {
            lemma_ellipse_stall(a, b, i, j);
        }
        let stamp = ellipse_stamp(px, py, a, b, i, j);
        let rest = ellipse_trace(
            px,
            py,
            a,
            b,
            ellipse_next_i(a, b, i, j),
            ellipse_next_j(a, b, i, j),
            false,
        );
        let k = choose|k: int| 0 <= k < trace.len() && trace[k] == (x, y);
        if k < 4 {
            lemma_ellipse_stamp_mirrored(px, py, a, b, i, j, k);
            assert(trace[if k < 2 {
                k + 2
            } else {
                k - 2
            }] == mirrored_in_x(px, a, x, y));
            assert(trace[if k % 2 == 0 {
                k + 1
            } else {
                k - 1
            }] == mirrored_in_y(py, b, x, y));
        } else {
            assert(rest[k - 4] == (x, y));
            lemma_ellipse_trace_mirrored(
                px,
                py,
                a,
                b,
                ellipse_next_i(a, b, i, j),
                ellipse_next_j(a, b, i, j),
                x,
                y,
            );
            let across = choose|m: int| 0 <= m < rest.len() && rest[m] == mirrored_in_x(px, a, x, y);
            assert(trace[across + 4] == mirrored_in_x(px, a, x, y));
            let along = choose|m: int| 0 <= m < rest.len() && rest[m] == mirrored_in_y(py, b, x, y);
            assert(trace[along + 4] == mirrored_in_y(py, b, x, y));
        }
    }
}

/// The outline of an ellipse is the same on both sides of each of its two
/// axes: with each cell it holds the cells opposite it.
pub proof fn lemma_ellipse_mirrored(px: int, py: int, a: int, b: int, x: int, y: int)
    requires
        a >= 0,
        b >= 0,
        ellipse_points(px, py, a, b).contains((x, y)),
    ensures
        ellipse_points(px, py, a, b).contains(mirrored_in_x(px, a, x, y)),
        ellipse_points(px, py, a, b).contains(mirrored_in_y(py, b, x, y)),
{
    lemma_ellipse_trace_mirrored(px, py, a, b, 0, 0, x, y);
}

/// The narrow ends of a filled ellipse hold every cell of the narrow ends
/// of its outline.
pub proof fn lemma_oval_tall_holds_outline(
    px: int,
    py: int,
    a: int,
    b: int,
    i: int,
    j: int,
    x: int,
    y: int,
)
    requires
        b >= 0,
        j >= 0,
        ellipse_tall_trace(px, py, a, b, i, j, false).contains((x, y)),
    ensures
        ellipse_tall_trace(px, py, a, b, i, j, true).contains((x, y)),
    decreases b - 2 * j,
{
    let outline = ellipse_tall_trace(px, py, a, b, i, j, false);
    let filled = ellipse_tall_trace(px, py, a, b, i, j, true);
    if b % 2 + 2 * j < b {
        let post = ellipse_post(px, py, a, b, i, j);
        let high = ellipse_lower(py, b, j) - ellipse_upper(py, b, j);
        assert(high >= 0);
        let k = choose|k: int| 0 <= k < outline.len() && outline[k] == (x, y);
        if k < 4 {
            let at = if k == 0 {
                2 * high
            } else if k == 1 {
                0
            } else if k == 2 {
                2 * high + 1
            } else {
                1
            };
            assert(post[at] == (x, y));
            assert(filled[at] == (x, y));
        } else {
            let rest = ellipse_tall_trace(px, py, a, b, i, j + 1, false);
            let filled_rest = ellipse_tall_trace(px, py, a, b, i, j + 1, true);
            assert(rest[k - 4] == (x, y));
            lemma_oval_tall_holds_outline(px, py, a, b, i, j + 1, x, y);
            let m = choose|m: int| 0 <= m < filled_rest.len() && filled_rest[m] == (x, y);
            assert(filled[post.len() + m] == (x, y));
        }
    }
}

/// A filled ellipse, from any state on, holds every cell of its outline.
pub proof fn lemma_oval_trace_holds_outline(
    px: int,
    py: int,
    a: int,
    b: int,
    i: int,
    j: int,
    x: int,
    y: int,
)
    requires
        a >= 0,
        b >= 0,
        i >= 0,
        j >= 0,
        ellipse_trace(px, py, a, b, i, j, false).contains((x, y)),
    ensures
        ellipse_trace(px, py, a, b, i, j, true).contains((x, y)),
    decreases
        (if 2 * i <= a {
            a - 2 * i + 1
        } else {
            0
        }),
        (if ellipse_error(a, b, i, j) < 0 {
            -ellipse_error(a, b, i, j)
        } else {
            0
        }),
{
    let outline = ellipse_trace(px, py, a, b, i, j, false);
    let filled = ellipse_trace(px, py, a, b, i, j, true);
    if 2 * i > a {
        lemma_oval_tall_holds_outline(px, py, a, b, i, j, x, y);
    } else {
        if ellipse_next_i(a, b, i, j) == i {
            lemma_ellipse_stall(a, b, i, j);
        }
        let span = ellipse_span(px, py, a, b, i, j);
        let wide = ellipse_right(px, a, i) - ellipse_left(px, i);
        assert(wide >= 0);
        let next_i = ellipse_next_i(a, b, i, j);
        let next_j = ellipse_next_j(a, b, i, j);
        let k = choose|k: int| 0 <= k < outline.len() && outline[k] == (x, y);
        if k < 4 {
            let at = if k == 0 {
                0
            } else if k == 1 {
                1
            } else if k == 2 {
                2 * wide
            } else {
                2 * wide + 1
            };
            assert(span[at] == (x, y));
            assert(filled[at] == (x, y));
        } else {
            let rest = ellipse_trace(px, py, a, b, next_i, next_j, false);
            let filled_rest = ellipse_trace(px, py, a, b, next_i, next_j, true);
            assert(rest[k - 4] == (x, y));
            lemma_oval_trace_holds_outline(px, py, a, b, next_i, next_j, x, y);
            let m = choose|m: int| 0 <= m < filled_rest.len() && filled_rest[m] == (x, y);
            assert(filled[span.len() + m] == (x, y));
        }
    }
}

/// A filled ellipse holds every cell of its outline.
pub proof fn lemma_oval_holds_outline(px: int, py: int, a: int, b: int, x: int, y: int)
    requires
        a >= 0,
        b >= 0,
        ellipse_points(px, py, a, b).contains((x, y)),
    ensures
        oval_points(px, py, a, b).contains((x, y)),
{
    lemma_oval_trace_holds_outline(px, py, a, b, 0, 0, x, y);
}

} // verus!
