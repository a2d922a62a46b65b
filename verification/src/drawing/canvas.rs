use vstd::prelude::*;
use crate::drawing::cell::Cell;
use crate::drawing::cell_buffer::{covers, offset_of, put, CellBuffer};
use crate::drawing::point_2d::Point2d;
use crate::drawing::cell_buffer::lemma_grid_offset;
use crate::drawing::shapes::{
    heading, lemma_nearest_is, line_points, line_reach, magnitude,
    circle_chord, circle_error, circle_next_x, circle_next_y, circle_points, circle_stamp,
    circle_trace, disc_points, ellipse_advance_limit, ellipse_error, ellipse_left, ellipse_lower,
    ellipse_next_i, ellipse_next_j, ellipse_points, ellipse_post, ellipse_right,
    ellipse_rise_limit, ellipse_span, ellipse_stamp, ellipse_tall_trace, ellipse_trace,
    ellipse_upper, lemma_ellipse_advance, lemma_ellipse_magnitudes, lemma_ellipse_rise,
    lemma_ellipse_rise_bound, lemma_ellipse_stall, outline_points, oval_points, rect_points,
};
use crate::drawing::size_2d::Size2d;
use crate::Result;

verus! {

/// A way to color the cell that a shape passes through.
pub trait Paint {
    /// The cell that this paint leaves at `position`, where `under` was.
    spec fn cell_at(&self, position: Point2d, under: Cell) -> Cell;

    /// Colors the cell at `position`. A position off the grid changes nothing.
    fn paint(&self, cell_buffer: &mut CellBuffer, position: Point2d)
        requires
            old(cell_buffer).wf(),
        ensures
            final(cell_buffer).wf(),
            final(cell_buffer).size == old(cell_buffer).size,
            final(cell_buffer)@ == put(
                old(cell_buffer).size,
                old(cell_buffer)@,
                position,
                self.cell_at(position, old(cell_buffer)@[offset_of(old(cell_buffer).size, position)]),
            ),
    ;
}

/// The cells of a grid of extent `size` after `paint` has colored the cell
/// at `position`.
pub open spec fn painted<P: Paint + ?Sized>(
    paint: &P,
    size: Size2d,
    cells: Seq<Cell>,
    position: Point2d,
) -> Seq<Cell> {
    put(size, cells, position, paint.cell_at(position, cells[offset_of(size, position)]))
}

/// Whether the coordinate type holds `(x, y)`.
pub open spec fn addressable(x: int, y: int) -> bool {
    i32::MIN <= x <= i32::MAX && i32::MIN <= y <= i32::MAX
}

/// The cells of a grid of extent `size` after `paint` has colored the cell
/// at `(x, y)`. A position that the coordinate type does not hold is off
/// every grid.
pub open spec fn painted_at<P: Paint + ?Sized>(
    paint: &P,
    size: Size2d,
    cells: Seq<Cell>,
    x: int,
    y: int,
) -> Seq<Cell> {
    if addressable(x, y) {
        painted(paint, size, cells, Point2d { x: x as i32, y: y as i32 })
    } else {
        cells
    }
}

/// The cells of a grid of extent `size` after `paint` has colored the cells
/// at `points`, one after the other.
pub open spec fn painted_all<P: Paint + ?Sized>(
    paint: &P,
    size: Size2d,
    cells: Seq<Cell>,
    points: Seq<(int, int)>,
) -> Seq<Cell>
    decreases points.len(),
{
    if points.len() == 0 {
        cells
    } else {
        painted_at(
            paint,
            size,
            painted_all(paint, size, cells, points.drop_last()),
            points.last().0,
            points.last().1,
        )
    }
}

/// Coloring one more cell extends what has been colored by that cell.
pub proof fn lemma_painted_next<P: Paint + ?Sized>(
    paint: &P,
    size: Size2d,
    cells: Seq<Cell>,
    points: Seq<(int, int)>,
    count: int,
)
    requires
        0 <= count < points.len(),
    ensures
        painted_all(paint, size, cells, points.take(count + 1)) == painted_at(
            paint,
            size,
            painted_all(paint, size, cells, points.take(count)),
            points[count].0,
            points[count].1,
        ),
{
    assert(points.take(count + 1).drop_last() =~= points.take(count));
}

/// Coloring the cell at `(x, y)` after a run of cells colors the run with
/// that cell at its end.
pub proof fn lemma_painted_push<P: Paint + ?Sized>(
    paint: &P,
    size: Size2d,
    cells: Seq<Cell>,
    points: Seq<(int, int)>,
    x: int,
    y: int,
)
    ensures
        painted_all(paint, size, cells, points.push((x, y))) == painted_at(
            paint,
            size,
            painted_all(paint, size, cells, points),
            x,
            y,
        ),
{
    assert(points.push((x, y)).drop_last() =~= points);
}

/// Coloring one run of cells and then another colors the two runs joined.
pub proof fn lemma_painted_joined<P: Paint + ?Sized>(
    paint: &P,
    size: Size2d,
    cells: Seq<Cell>,
    first: Seq<(int, int)>,
    second: Seq<(int, int)>,
)
    ensures
        painted_all(paint, size, cells, first + second) == painted_all(
            paint,
            size,
            painted_all(paint, size, cells, first),
            second,
        ),
    decreases second.len(),
{
    if second.len() == 0 {
        assert(first + second =~= first);
    } else {
        lemma_painted_joined(paint, size, cells, first, second.drop_last());
        assert((first + second).drop_last() =~= first + second.drop_last());
    }
}

/// Whether the cell at the offset `index` of a grid of extent `size` is one
/// of the cells at `points`.
pub open spec fn touches(size: Size2d, points: Seq<(int, int)>, index: int) -> bool {
    exists|k: int|
        0 <= k < points.len() && addressable(#[trigger] points[k].0, points[k].1) && covers(
            size,
            Point2d { x: points[k].0 as i32, y: points[k].1 as i32 },
        ) && offset_of(size, Point2d { x: points[k].0 as i32, y: points[k].1 as i32 }) == index
}

/// Coloring cells leaves the number of cells as it is, and leaves every
/// cell as it is that is none of the colored ones.
pub proof fn lemma_painted_elsewhere<P: Paint + ?Sized>(
    paint: &P,
    size: Size2d,
    cells: Seq<Cell>,
    points: Seq<(int, int)>,
    index: int,
)
    requires
        cells.len() == size.width * size.height,
        0 <= index < cells.len(),
        !touches(size, points, index),
    ensures
        painted_all(paint, size, cells, points).len() == cells.len(),
        painted_all(paint, size, cells, points)[index] == cells[index],
    decreases points.len(),
{
    lemma_painted_length(paint, size, cells, points);
    if points.len() > 0 {
        let last = points.len() - 1;
        assert forall|k: int| 0 <= k < points.drop_last().len() implies !(addressable(
            #[trigger] points.drop_last()[k].0,
            points.drop_last()[k].1,
        ) && covers(
            size,
            Point2d { x: points.drop_last()[k].0 as i32, y: points.drop_last()[k].1 as i32 },
        ) && offset_of(
            size,
            Point2d { x: points.drop_last()[k].0 as i32, y: points.drop_last()[k].1 as i32 },
        ) == index) by {
            assert(points.drop_last()[k] == points[k]);
        }
        lemma_painted_elsewhere(paint, size, cells, points.drop_last(), index);
        lemma_painted_length(paint, size, cells, points.drop_last());
        let point = points[last];
        if addressable(point.0, point.1) && covers(
            size,
            Point2d { x: point.0 as i32, y: point.1 as i32 },
        ) {
            crate::drawing::cell_buffer::lemma_offset_in_range(
                size,
                Point2d { x: point.0 as i32, y: point.1 as i32 },
            );
        }
    }
}

/// Coloring cells leaves the number of cells as it is.
pub proof fn lemma_painted_length<P: Paint + ?Sized>(
    paint: &P,
    size: Size2d,
    cells: Seq<Cell>,
    points: Seq<(int, int)>,
)
    requires
        cells.len() == size.width * size.height,
    ensures
        painted_all(paint, size, cells, points).len() == cells.len(),
    decreases points.len(),
{
    if points.len() > 0 {
        lemma_painted_length(paint, size, cells, points.drop_last());
        let point = points.last();
        if addressable(point.0, point.1) && covers(
            size,
            Point2d { x: point.0 as i32, y: point.1 as i32 },
        ) {
            crate::drawing::cell_buffer::lemma_offset_in_range(
                size,
                Point2d { x: point.0 as i32, y: point.1 as i32 },
            );
        }
    }
}

/// A solid paint leaves its cell in every cell that it colors.
pub proof fn lemma_solid_painted(
    paint: &SolidPaint,
    size: Size2d,
    cells: Seq<Cell>,
    points: Seq<(int, int)>,
    index: int,
)
    requires
        cells.len() == size.width * size.height,
        0 <= index < cells.len(),
        touches(size, points, index),
    ensures
        painted_all(paint, size, cells, points)[index] == paint.cell,
    decreases points.len(),
{
    let k = choose|k: int|
        0 <= k < points.len() && addressable(#[trigger] points[k].0, points[k].1) && covers(
            size,
            Point2d { x: points[k].0 as i32, y: points[k].1 as i32 },
        ) && offset_of(size, Point2d { x: points[k].0 as i32, y: points[k].1 as i32 }) == index;
    let last = points.len() - 1;
    let point = points[last];
    lemma_painted_length(paint, size, cells, points.drop_last());
    if addressable(point.0, point.1) && covers(
        size,
        Point2d { x: point.0 as i32, y: point.1 as i32 },
    ) {
        crate::drawing::cell_buffer::lemma_offset_in_range(
            size,
            Point2d { x: point.0 as i32, y: point.1 as i32 },
        );
    }
    if addressable(point.0, point.1) && covers(
        size,
        Point2d { x: point.0 as i32, y: point.1 as i32 },
    ) && offset_of(size, Point2d { x: point.0 as i32, y: point.1 as i32 }) == index {
    } else {
        assert(k < last);
        assert(points.drop_last()[k] == points[k]);
        lemma_solid_painted(paint, size, cells, points.drop_last(), index);
    }
}

/// A paint that puts the same cell everywhere.
pub struct SolidPaint {
    pub cell: Cell,
}

impl SolidPaint {
    pub fn new(cell: Cell) -> (paint: SolidPaint)
        ensures
            paint.cell == cell,
    {
        SolidPaint { cell }
    }
}

impl Paint for SolidPaint {
    open spec fn cell_at(&self, position: Point2d, under: Cell) -> Cell {
        self.cell
    }

    fn paint(&self, cell_buffer: &mut CellBuffer, position: Point2d) {
        cell_buffer.set(position, self.cell);
    }
}

/// A pen on a grid. Each stroke starts where the one before it ended, and
/// colors the cells it passes through with the stroke paint; filled shapes
/// are colored with the fill paint.
pub struct Canvas<'a, S: Paint + ?Sized, F: Paint + ?Sized> {
    pub cell_buffer: &'a mut CellBuffer,
    pub position: Point2d,
    pub stroke: Option<&'a S>,
    pub fill: Option<&'a F>,
}

pub const MISSING_LINE_STROKE: &'static str = "Can not draw a line without a stroke.";

pub const MISSING_RECT_STROKE: &'static str = "Can not draw a rectangle without a stroke.";

pub const MISSING_RECT_FILL: &'static str = "Can not fill a rectangle without a fill.";

pub const MISSING_CIRCLE_STROKE: &'static str = "Can not draw a circle without a stroke.";

pub const MISSING_CIRCLE_FILL: &'static str = "Can not fill a circle without a fill.";

pub const MISSING_ELLIPSE_STROKE: &'static str = "Can not draw an ellipse without a stroke.";

pub const MISSING_ELLIPSE_FILL: &'static str = "Can not fill an ellipse without a fill.";

/// The widest and the highest ellipse that can be drawn.
pub const ELLIPSE_EXTENT_MAX: usize = 0x4000_0000;

impl<'a, S: Paint + ?Sized, F: Paint + ?Sized> Canvas<'a, S, F> {
    /// The grid under the canvas holds as many cells as its extent says.
    pub open spec fn wf(&self) -> bool {
        self.cell_buffer.wf()
    }

    /// Whether this canvas has the extent and the paints of `before`.
    pub open spec fn set_as(&self, before: &Canvas<'a, S, F>) -> bool {
        &&& self.cell_buffer.size == before.cell_buffer.size
        &&& self.stroke == before.stroke
        &&& self.fill == before.fill
    }

    /// A canvas on `cell_buffer` with the pen at the origin.
    pub fn new(
        cell_buffer: &'a mut CellBuffer,
        stroke: Option<&'a S>,
        fill: Option<&'a F>,
    ) -> (canvas: Canvas<'a, S, F>)
        requires
            old(cell_buffer).wf(),
        ensures
            canvas.wf(),
            *canvas.cell_buffer == *old(cell_buffer),
            *final(canvas.cell_buffer) == *final(cell_buffer),
            canvas.position == (Point2d { x: 0, y: 0 }),
            canvas.stroke == stroke,
            canvas.fill == fill,
    {
        Canvas { cell_buffer, position: Point2d::empty(), stroke, fill }
    }

    /// Takes `painter` for the strokes that follow.
    pub fn set_stroke(&mut self, painter: &'a S)
        ensures
            *final(self).cell_buffer == *old(self).cell_buffer,
            *final(final(self).cell_buffer) == *final(old(self).cell_buffer),
            final(self).position == old(self).position,
            final(self).stroke == Some(painter),
            final(self).fill == old(self).fill,
    {
        self.stroke = Some(painter);
    }

    /// Takes `painter` for the filled shapes that follow.
    pub fn set_fill(&mut self, painter: &'a F)
        ensures
            *final(self).cell_buffer == *old(self).cell_buffer,
            *final(final(self).cell_buffer) == *final(old(self).cell_buffer),
            final(self).position == old(self).position,
            final(self).stroke == old(self).stroke,
            final(self).fill == Some(painter),
    {
        self.fill = Some(painter);
    }

    /// Moves the pen to `position` without drawing.
    pub fn move_to(&mut self, position: Point2d)
        ensures
            *final(self).cell_buffer == *old(self).cell_buffer,
            *final(final(self).cell_buffer) == *final(old(self).cell_buffer),
            final(self).position == position,
            final(self).stroke == old(self).stroke,
            final(self).fill == old(self).fill,
    {
        self.position = position;
    }

    /// Colors the cell at `(x, y)` with `paint`.
    pub(crate) fn touch<P: Paint + ?Sized>(&mut self, paint: &P, x: i64, y: i64)
        requires
            old(self).wf(),
        ensures
            final(self).wf(),
            final(self).set_as(old(self)),
            *final(final(self).cell_buffer) == *final(old(self).cell_buffer),
            final(self).position == old(self).position,
            final(self).cell_buffer@ == painted_at(
                paint,
                old(self).cell_buffer.size,
                old(self).cell_buffer@,
                x as int,
                y as int,
            ),
    {
        if -0x8000_0000 <= x && x <= 0x7fff_ffff && -0x8000_0000 <= y && y <= 0x7fff_ffff {
            paint.paint(self.cell_buffer, Point2d::new(x as i32, y as i32));
        }
    }

    /// Draws the line from the pen to `position`, both ends included, and
    /// leaves the pen at `position`. Without a stroke paint nothing is drawn
    /// and the pen stays.
    #[verifier::rlimit(50)]
    pub fn line_to(&mut self, position: Point2d) -> (result: Result<()>)
        requires
            old(self).wf(),
        ensures
            final(self).wf(),
            final(self).set_as(old(self)),
            *final(final(self).cell_buffer) == *final(old(self).cell_buffer),
            match old(self).stroke {
                Some(stroke) => {
                    &&& result == Ok::<(), &'static str>(())
                    &&& final(self).position == position
                    &&& final(self).cell_buffer@ == painted_all(
                        stroke,
                        old(self).cell_buffer.size,
                        old(self).cell_buffer@,
                        line_points(
                            old(self).position.x as int,
                            old(self).position.y as int,
                            position.x as int,
                            position.y as int,
                        ),
                    )
                },
                None => {
                    &&& result == Err::<(), &'static str>(MISSING_LINE_STROKE)
                    &&& final(self).position == old(self).position
                    &&& final(self).cell_buffer@ == old(self).cell_buffer@
                },
            },
    {
        let stroke = match self.stroke {
            Some(stroke) => stroke,
            None => {
                return Err(MISSING_LINE_STROKE);
            },
        };
        let x0 = self.position.x as i64;
        let y0 = self.position.y as i64;
        let x1 = position.x as i64;
        let y1 = position.y as i64;
        let dx: i64 = if x1 >= x0 {
            x1 - x0
        } else {
            x0 - x1
        };
        let dy: i64 = if y1 >= y0 {
            y0 - y1
        } else {
            y1 - y0
        };
        let sx: i64 = if x0 < x1 {
            1
        } else {
            -1
        };
        let sy: i64 = if y0 < y1 {
            1
        } else {
            -1
        };
        // Where the straight line passes half way between two cells, the
        // line takes the one in the higher column or row, whichever way it
        // is drawn.
        let along_x = dx >= -dy;
        let x_on_tie = along_x || x0 < x1;
        let y_on_tie = !along_x || y0 < y1;
        let mut x = x0;
        let mut y = y0;
        let mut err: i64 = dx + dy;
        let ghost before = self.cell_buffer@;
        let ghost size = self.cell_buffer.size;
        let ghost points = line_points(x0 as int, y0 as int, x1 as int, y1 as int);
        let ghost wide = dx >= -dy;
        let ghost up = if wide {
            y0 < y1
        } else {
            x0 < x1
        };
        let ghost major: int = if wide {
            dx as int
        } else {
            -dy
        };
        let ghost minor: int = if wide {
            -dy
        } else {
            dx as int
        };
        let ghost mut k: int = 0;
        let ghost mut n: int = 0;
        let ghost mut major_n: int = 0;
        let ghost mut minor_k: int = 0;
        proof {
            assert(major * 0 == 0 && minor * 0 == 0) by (nonlinear_arith);
            assert(points.take(0) =~= Seq::<(int, int)>::empty());
        }
        loop
            invariant_except_break
                self.cell_buffer@ == painted_all(stroke, size, before, points.take(k)),
            invariant
                self.wf(),
                self.set_as(old(self)),
                self.cell_buffer.size == size,
                *final(self.cell_buffer) == *final(old(self).cell_buffer),
                self.position == old(self).position,
                old(self).stroke == Some(stroke),
                x0 == old(self).position.x,
                y0 == old(self).position.y,
                x1 == position.x,
                y1 == position.y,
                dx == magnitude(x1 - x0),
                dy == -magnitude(y1 - y0),
                sx == heading(x0 as int, x1 as int),
                sy == heading(y0 as int, y1 as int),
                points == line_points(x0 as int, y0 as int, x1 as int, y1 as int),
                wide == (dx >= -dy),
                along_x == wide,
                x_on_tie == (wide || x0 < x1),
                y_on_tie == (!wide || y0 < y1),
                up == (if wide { y0 < y1 } else { x0 < x1 }),
                major == line_reach(x0 as int, y0 as int, x1 as int, y1 as int),
                major == if wide { dx as int } else { -dy },
                minor == if wide { -dy } else { dx as int },
                0 <= minor <= major,
                !wide ==> minor < major,
                0 <= k <= major,
                0 <= n,
                major_n == major * n,
                minor_k == minor * k,
                up ==> 2 * major_n <= 2 * minor_k + major,
                up && major > 0 ==> 2 * minor_k + major < 2 * major_n + 2 * major,
                !up ==> 2 * minor_k - major <= 2 * major_n,
                !up && major > 0 ==> 2 * major_n < 2 * minor_k + major,
                major == 0 ==> n == 0,
                n <= k,
                x == if sx == 1 { x0 + (if wide { k } else { n }) } else { x0 - (if wide { k } else { n }) },
                y == if sy == 1 { y0 + (if wide { n } else { k }) } else { y0 - (if wide { n } else { k }) },
                err == if wide {
                    major + major_n - minor - minor_k
                } else {
                    minor + minor_k - major - major_n
                },
            ensures
                self.wf(),
                self.set_as(old(self)),
                *final(self.cell_buffer) == *final(old(self).cell_buffer),
                self.position == old(self).position,
                self.cell_buffer@ == painted_all(stroke, size, before, points),
            decreases major - k,
        {
            proof {
                let drift = if wide {
                    y1 - y0
                } else {
                    x1 - x0
                };
                assert(k * drift == (if up { minor_k } else { -minor_k })) by (nonlinear_arith)
                    requires
                        minor_k == minor * k,
                        drift == (if up { minor } else { -minor }),
                ;
                assert(major * (-n) == -major_n) by (nonlinear_arith)
                    requires
                        major_n == major * n,
                ;
                if major > 0 {
                    if up {
                        lemma_nearest_is(minor_k, major, n);
                    } else {
                        lemma_nearest_is(-minor_k, major, -n);
                    }
                }
                assert(points[k] == (x as int, y as int)) by {
                    assert(sx * k == (if sx == 1 { k } else { -k })) by (nonlinear_arith)
                        requires
                            sx == 1 || sx == -1,
                    ;
                    assert(sy * k == (if sy == 1 { k } else { -k })) by (nonlinear_arith)
                        requires
                            sy == 1 || sy == -1,
                    ;
                }
                lemma_painted_next(stroke, size, before, points, k);
            }
            self.touch(stroke, x, y);
            if x == x1 && y == y1 {
                proof {
                    assert(k == major);
                    assert(points.take(k + 1) =~= points);
                }
                break ;
            }
            proof {
                if k == major {
                    crate::drawing::shapes::lemma_line_ends(
                        x0 as int,
                        y0 as int,
                        x1 as int,
                        y1 as int,
                    );
                    assert(false);
                }
            }
            let e2 = 2 * err;
            if e2 > dy || (e2 == dy && x_on_tie) {
                err += dy;
                x += sx;
            }
            if e2 < dx || (e2 == dx && y_on_tie) {
                err += dx;
                y += sy;
            }
            proof {
                if 2 * major_n + major < 2 * minor_k + 2 * minor || (up && 2 * major_n + major == 2
                    * minor_k + 2 * minor) {
                    n = n + 1;
                    major_n = major_n + major;
                }
                k = k + 1;
                minor_k = minor_k + minor;
                assert(major_n == major * n) by (nonlinear_arith)
                    requires
                        major_n == major * (n - 1) + major || major_n == major * n,
                ;
                assert(minor_k == minor * k) by (nonlinear_arith)
                    requires
                        minor_k == minor * (k - 1) + minor,
                ;
            }
        }
        self.move_to(position);
        Ok(())
    }

    /// Draws the outline of the rectangle whose corner nearest the origin
    /// is `position` and whose opposite corner lies `size` further, in one
    /// stroke that starts and ends at `position`; the pen is left there.
    /// Without a stroke paint nothing is drawn and the pen stays.
    pub fn stroke_rect(&mut self, position: Point2d, size: Size2d) -> (result: Result<()>)
        requires
            old(self).wf(),
            old(self).stroke is Some ==> position.x + size.width <= i32::MAX,
            old(self).stroke is Some ==> position.y + size.height <= i32::MAX,
        ensures
            final(self).wf(),
            final(self).set_as(old(self)),
            *final(final(self).cell_buffer) == *final(old(self).cell_buffer),
            match old(self).stroke {
                Some(stroke) => {
                    &&& result == Ok::<(), &'static str>(())
                    &&& final(self).position == position
                    &&& final(self).cell_buffer@ == painted_all(
                        stroke,
                        old(self).cell_buffer.size,
                        old(self).cell_buffer@,
                        outline_points(
                            position.x as int,
                            position.y as int,
                            position.x + size.width,
                            position.y + size.height,
                        ),
                    )
                },
                None => {
                    &&& result == Err::<(), &'static str>(MISSING_RECT_STROKE)
                    &&& final(self).position == old(self).position
                    &&& final(self).cell_buffer@ == old(self).cell_buffer@
                },
            },
    {
        let stroke = match self.stroke {
            Some(stroke) => stroke,
            None => {
                return Err(MISSING_RECT_STROKE);
            },
        };
        let x0 = position.x;
        let y0 = position.y;
        let x1 = (position.x as i64 + size.width as i64) as i32;
        let y1 = (position.y as i64 + size.height as i64) as i32;
        let ghost size_before = self.cell_buffer.size;
        let ghost before = self.cell_buffer@;
        let ghost top = line_points(x0 as int, y0 as int, x1 as int, y0 as int);
        let ghost right = line_points(x1 as int, y0 as int, x1 as int, y1 as int);
        let ghost bottom = line_points(x1 as int, y1 as int, x0 as int, y1 as int);
        let ghost left = line_points(x0 as int, y1 as int, x0 as int, y0 as int);
        self.move_to(Point2d::new(x0, y0));
        self.line_to(Point2d::new(x1, y0))?;
        self.line_to(Point2d::new(x1, y1))?;
        self.line_to(Point2d::new(x0, y1))?;
        self.line_to(Point2d::new(x0, y0))?;
        proof {
            lemma_painted_joined(stroke, size_before, before, top, right);
            lemma_painted_joined(stroke, size_before, before, top + right, bottom);
            lemma_painted_joined(stroke, size_before, before, top + right + bottom, left);
        }
        Ok(())
    }

    /// Colors every cell of the rectangle whose corner nearest the origin is
    /// `position` and whose opposite corner lies `size` further, row after
    /// row. The pen stays. Without a fill paint nothing is colored.
    #[verifier::rlimit(50)]
    pub fn fill_rect(&mut self, position: Point2d, size: Size2d) -> (result: Result<()>)
        requires
            old(self).wf(),
            old(self).fill is Some ==> position.x + size.width <= i32::MAX,
            old(self).fill is Some ==> position.y + size.height <= i32::MAX,
        ensures
            final(self).wf(),
            final(self).set_as(old(self)),
            *final(final(self).cell_buffer) == *final(old(self).cell_buffer),
            final(self).position == old(self).position,
            match old(self).fill {
                Some(fill) => {
                    &&& result == Ok::<(), &'static str>(())
                    &&& final(self).cell_buffer@ == painted_all(
                        fill,
                        old(self).cell_buffer.size,
                        old(self).cell_buffer@,
                        rect_points(
                            position.x as int,
                            position.y as int,
                            position.x + size.width,
                            position.y + size.height,
                        ),
                    )
                },
                None => {
                    &&& result == Err::<(), &'static str>(MISSING_RECT_FILL)
                    &&& final(self).cell_buffer@ == old(self).cell_buffer@
                },
            },
    {
        let fill = match self.fill {
            Some(fill) => fill,
            None => {
                return Err(MISSING_RECT_FILL);
            },
        };
        let x0 = position.x as i64;
        let y0 = position.y as i64;
        let x1 = position.x as i64 + size.width as i64;
        let y1 = position.y as i64 + size.height as i64;
        let ghost size_before = self.cell_buffer.size;
        let ghost before = self.cell_buffer@;
        let ghost points = rect_points(x0 as int, y0 as int, x1 as int, y1 as int);
        let ghost columns = x1 - x0 + 1;
        let ghost rows = y1 - y0 + 1;
        let ghost mut done: int = 0;
        proof {
            assert(points.take(0) =~= Seq::<(int, int)>::empty());
            assert(columns * 0 == 0) by (nonlinear_arith);
            assert(points.len() == columns * rows) by (nonlinear_arith)
                requires
                    columns > 0,
                    rows > 0,
                    points.len() == (columns * rows) as nat,
            ;
        }
        let mut y = y0;
        while y <= y1
            invariant
                self.wf(),
                self.set_as(old(self)),
                self.cell_buffer.size == size_before,
                *final(self.cell_buffer) == *final(old(self).cell_buffer),
                self.position == old(self).position,
                old(self).fill == Some(fill),
                points == rect_points(x0 as int, y0 as int, x1 as int, y1 as int),
                points.len() == columns * rows,
                columns == x1 - x0 + 1,
                rows == y1 - y0 + 1,
                columns > 0,
                rows > 0,
                x0 <= x1 <= i32::MAX,
                i32::MIN <= x0,
                y0 <= y <= y1 + 1,
                y1 <= i32::MAX,
                done == columns * (y - y0),
                self.cell_buffer@ == painted_all(fill, size_before, before, points.take(done)),
            decreases y1 + 1 - y,
        {
            let mut x = x0;
            let ghost row_start = done;
            while x <= x1
                invariant
                    self.wf(),
                    self.set_as(old(self)),
                    self.cell_buffer.size == size_before,
                    *final(self.cell_buffer) == *final(old(self).cell_buffer),
                    self.position == old(self).position,
                    old(self).fill == Some(fill),
                    points == rect_points(x0 as int, y0 as int, x1 as int, y1 as int),
                    points.len() == columns * rows,
                    columns == x1 - x0 + 1,
                    rows == y1 - y0 + 1,
                    columns > 0,
                    rows > 0,
                    x0 <= x <= x1 + 1,
                    x1 <= i32::MAX,
                    y0 <= y <= y1,
                    row_start == columns * (y - y0),
                    done == row_start + (x - x0),
                    self.cell_buffer@ == painted_all(fill, size_before, before, points.take(done)),
                decreases x1 + 1 - x,
            {
                proof {
                    lemma_grid_offset(columns, rows, x - x0, y - y0);
                    assert(points[done] == (x as int, y as int));
                    lemma_painted_next(fill, size_before, before, points, done);
                    done = done + 1;
                }
                self.touch(fill, x, y);
                x += 1;
            }
            proof {
                assert(columns * (y + 1 - y0) == columns * (y - y0) + columns) by (nonlinear_arith);
            }
            y += 1;
        }
        proof {
            assert(points.take(done) =~= points);
        }
        Ok(())
    }

    /// Colors with `paint` the cells of the circle of radius `r` about
    /// `(cx, cy)`: of its outline, or, if `filled`, of its inside too.
    #[verifier::rlimit(50)]
    fn trace_circle<P: Paint + ?Sized>(&mut self, paint: &P, cx: i64, cy: i64, r: i64, filled: bool)
        requires
            old(self).wf(),
            0 <= r <= i32::MAX,
            -0x1_0000_0000 <= cx <= 0x1_0000_0000,
            -0x1_0000_0000 <= cy <= 0x1_0000_0000,
        ensures
            final(self).wf(),
            final(self).set_as(old(self)),
            *final(final(self).cell_buffer) == *final(old(self).cell_buffer),
            final(self).position == old(self).position,
            final(self).cell_buffer@ == painted_all(
                paint,
                old(self).cell_buffer.size,
                old(self).cell_buffer@,
                circle_trace(cx as int, cy as int, r as int, -r, 0, filled),
            ),
    {
        let ghost size = self.cell_buffer.size;
        let ghost before = self.cell_buffer@;
        let ghost all = circle_trace(cx as int, cy as int, r as int, -r, 0, filled);
        let ghost mut done: Seq<(int, int)> = Seq::empty();
        let mut x: i64 = -r;
        let mut y: i64 = 0;
        let mut err: i64 = 2 - 2 * r;
        proof {
            assert(err == circle_error(r as int, x as int, y as int)) by (nonlinear_arith)
                requires
                    err == 2 - 2 * r,
                    x == -r,
                    y == 0,
            ;
            assert(done + all =~= all);
        }
        while x <= 0
            invariant
                self.wf(),
                self.set_as(old(self)),
                self.cell_buffer.size == size,
                *final(self.cell_buffer) == *final(old(self).cell_buffer),
                self.position == old(self).position,
                0 <= r <= i32::MAX,
                -0x1_0000_0000 <= cx <= 0x1_0000_0000,
                -0x1_0000_0000 <= cy <= 0x1_0000_0000,
                -r <= x <= 1,
                0 <= y <= r,
                err == circle_error(r as int, x as int, y as int),
                all == done + circle_trace(cx as int, cy as int, r as int, x as int, y as int, filled),
                self.cell_buffer@ == painted_all(paint, size, before, done),
            decreases (1 - x) + (r - y),
        {
            let ghost rest = circle_trace(
                cx as int,
                cy as int,
                r as int,
                circle_next_x(r as int, x as int, y as int),
                circle_next_y(r as int, x as int, y as int),
                filled,
            );
            proof {
                assert(-0x4000_0000_0000_0000 <= err <= 0x4000_0001_0000_0000) by (nonlinear_arith)
                    requires
                        err == (x + 1) * (x + 1) + (y + 1) * (y + 1) - r * r,
                        0 <= r <= 0x7fff_ffff,
                        -r <= x <= 0,
                        0 <= y <= r,
                ;
            }
            if filled {
                let ghost chord = circle_chord(cx as int, cy as int, x as int, y as int);
                let ghost row_done = done;
                let mut row = cy - y;
                while row <= cy + y
                    invariant
                        self.wf(),
                        self.set_as(old(self)),
                        self.cell_buffer.size == size,
                        *final(self.cell_buffer) == *final(old(self).cell_buffer),
                        self.position == old(self).position,
                        0 <= r <= i32::MAX,
                        -0x1_0000_0000 <= cx <= 0x1_0000_0000,
                        -0x1_0000_0000 <= cy <= 0x1_0000_0000,
                        -r <= x <= 0,
                        0 <= y <= r,
                        cy - y <= row <= cy + y + 1,
                        chord == circle_chord(cx as int, cy as int, x as int, y as int),
                        done == row_done + chord.take(2 * (row - (cy - y))),
                        self.cell_buffer@ == painted_all(paint, size, before, done),
                    decreases cy + y + 1 - row,
                {
                    let ghost i = 2 * (row - (cy - y));
                    proof {
                        assert(chord[i] == (cx + x, row as int));
                        assert(chord[i + 1] == (cx - x, row as int));
                        lemma_painted_push(paint, size, before, done, cx + x, row as int);
                        lemma_painted_push(
                            paint,
                            size,
                            before,
                            done.push((cx + x, row as int)),
                            cx - x,
                            row as int,
                        );
                        assert(chord.take(i + 2) =~= chord.take(i).push(chord[i]).push(
                            chord[i + 1],
                        ));
                        done = done.push((cx + x, row as int)).push((cx - x, row as int));
                        assert(done =~= row_done + chord.take(i + 2));
                    }
                    self.touch(paint, cx + x, row);
                    self.touch(paint, cx - x, row);
                    row += 1;
                }
                proof {
                    assert(chord.take(2 * (row - (cy - y))) =~= chord);
                }
            } else {
                proof {
                    lemma_painted_push(paint, size, before, done, cx - x, cy + y);
                    let first = done.push((cx - x, cy + y));
                    lemma_painted_push(paint, size, before, first, cx - y, cy - x);
                    let second = first.push((cx - y, cy - x));
                    lemma_painted_push(paint, size, before, second, cx + x, cy - y);
                    let third = second.push((cx + x, cy - y));
                    lemma_painted_push(paint, size, before, third, cx + y, cy + x);
                    done = third.push((cx + y, cy + x));
                    assert(done =~= first.drop_last() + circle_stamp(
                        cx as int,
                        cy as int,
                        x as int,
                        y as int,
                    ));
                }
                self.touch(paint, cx - x, cy + y);
                self.touch(paint, cx - y, cy - x);
                self.touch(paint, cx + x, cy - y);
                self.touch(paint, cx + y, cy + x);
            }
            proof {
                assert(all =~= done + rest);
                if err <= y {
                    crate::drawing::shapes::lemma_circle_rise_bound(r as int, x as int, y as int);
                }
                assert(circle_error(r as int, x as int, y + 1) == circle_error(
                    r as int,
                    x as int,
                    y as int,
                ) + 2 * (y + 1) + 1) by (nonlinear_arith);
                assert forall|row: int|
                    circle_error(r as int, x + 1, row) == #[trigger] circle_error(
                        r as int,
                        x as int,
                        row,
                    ) + 2 * (x + 1) + 1 by {
                    assert(circle_error(r as int, x + 1, row) == circle_error(
                        r as int,
                        x as int,
                        row,
                    ) + 2 * (x + 1) + 1) by (nonlinear_arith);
                }
            }
            let reached = err;
            if reached <= y {
                y += 1;
                err += y * 2 + 1;
            }
            proof {
                assert(-0x4000_0000_0000_0000 <= err <= 0x4000_0001_0000_0000) by (nonlinear_arith)
                    requires
                        err == (x + 1) * (x + 1) + (y + 1) * (y + 1) - r * r,
                        0 <= r <= 0x7fff_ffff,
                        -r <= x <= 0,
                        0 <= y <= r,
                ;
            }
            if reached > x || err > y {
                x += 1;
                err += x * 2 + 1;
            }
        }
        proof {
            assert(all =~= done);
        }
    }

    /// Draws the outline of the circle of radius `radius` about `center`.
    /// The pen stays. Without a stroke paint nothing is drawn.
    pub fn stroke_circle_from_center(&mut self, center: Point2d, radius: usize) -> (result: Result<
        (),
    >)
        requires
            old(self).wf(),
            old(self).stroke is Some ==> radius <= i32::MAX,
        ensures
            final(self).wf(),
            final(self).set_as(old(self)),
            *final(final(self).cell_buffer) == *final(old(self).cell_buffer),
            final(self).position == old(self).position,
            match old(self).stroke {
                Some(stroke) => {
                    &&& result == Ok::<(), &'static str>(())
                    &&& final(self).cell_buffer@ == painted_all(
                        stroke,
                        old(self).cell_buffer.size,
                        old(self).cell_buffer@,
                        circle_points(center.x as int, center.y as int, radius as int),
                    )
                },
                None => {
                    &&& result == Err::<(), &'static str>(MISSING_CIRCLE_STROKE)
                    &&& final(self).cell_buffer@ == old(self).cell_buffer@
                },
            },
    {
        let stroke = match self.stroke {
            Some(stroke) => stroke,
            None => {
                return Err(MISSING_CIRCLE_STROKE);
            },
        };
        self.trace_circle(stroke, center.x as i64, center.y as i64, radius as i64, false);
        Ok(())
    }

    /// Draws the outline of the circle of radius `radius` that touches the
    /// column and the row of `position` from the inside: its center lies
    /// `radius` to the right of and below `position`. The pen stays. Without
    /// a stroke paint nothing is drawn.
    pub fn stroke_circle(&mut self, position: Point2d, radius: usize) -> (result: Result<()>)
        requires
            old(self).wf(),
            old(self).stroke is Some ==> radius <= i32::MAX,
        ensures
            final(self).wf(),
            final(self).set_as(old(self)),
            *final(final(self).cell_buffer) == *final(old(self).cell_buffer),
            final(self).position == old(self).position,
            match old(self).stroke {
                Some(stroke) => {
                    &&& result == Ok::<(), &'static str>(())
                    &&& final(self).cell_buffer@ == painted_all(
                        stroke,
                        old(self).cell_buffer.size,
                        old(self).cell_buffer@,
                        circle_points(position.x + radius, position.y + radius, radius as int),
                    )
                },
                None => {
                    &&& result == Err::<(), &'static str>(MISSING_CIRCLE_STROKE)
                    &&& final(self).cell_buffer@ == old(self).cell_buffer@
                },
            },
    {
        let stroke = match self.stroke {
            Some(stroke) => stroke,
            None => {
                return Err(MISSING_CIRCLE_STROKE);
            },
        };
        let r = radius as i64;
        self.trace_circle(stroke, position.x as i64 + r, position.y as i64 + r, r, false);
        Ok(())
    }

    /// Colors the circle of radius `radius` about `center`, its inside
    /// included. The pen stays. Without a fill paint nothing is colored.
    pub fn fill_circle_from_center(&mut self, center: Point2d, radius: usize) -> (result: Result<
        (),
    >)
        requires
            old(self).wf(),
            old(self).fill is Some ==> radius <= i32::MAX,
        ensures
            final(self).wf(),
            final(self).set_as(old(self)),
            *final(final(self).cell_buffer) == *final(old(self).cell_buffer),
            final(self).position == old(self).position,
            match old(self).fill {
                Some(fill) => {
                    &&& result == Ok::<(), &'static str>(())
                    &&& final(self).cell_buffer@ == painted_all(
                        fill,
                        old(self).cell_buffer.size,
                        old(self).cell_buffer@,
                        disc_points(center.x as int, center.y as int, radius as int),
                    )
                },
                None => {
                    &&& result == Err::<(), &'static str>(MISSING_CIRCLE_FILL)
                    &&& final(self).cell_buffer@ == old(self).cell_buffer@
                },
            },
    {
        let fill = match self.fill {
            Some(fill) => fill,
            None => {
                return Err(MISSING_CIRCLE_FILL);
            },
        };
        self.trace_circle(fill, center.x as i64, center.y as i64, radius as i64, true);
        Ok(())
    }

    /// Colors the circle of radius `radius` that touches the column and the
    /// row of `position` from the inside, its inside included. The pen
    /// stays. Without a fill paint nothing is colored.
    pub fn fill_circle(&mut self, position: Point2d, radius: usize) -> (result: Result<()>)
        requires
            old(self).wf(),
            old(self).fill is Some ==> radius <= i32::MAX,
        ensures
            final(self).wf(),
            final(self).set_as(old(self)),
            *final(final(self).cell_buffer) == *final(old(self).cell_buffer),
            final(self).position == old(self).position,
            match old(self).fill {
                Some(fill) => {
                    &&& result == Ok::<(), &'static str>(())
                    &&& final(self).cell_buffer@ == painted_all(
                        fill,
                        old(self).cell_buffer.size,
                        old(self).cell_buffer@,
                        disc_points(position.x + radius, position.y + radius, radius as int),
                    )
                },
                None => {
                    &&& result == Err::<(), &'static str>(MISSING_CIRCLE_FILL)
                    &&& final(self).cell_buffer@ == old(self).cell_buffer@
                },
            },
    {
        let fill = match self.fill {
            Some(fill) => fill,
            None => {
                return Err(MISSING_CIRCLE_FILL);
            },
        };
        let r = radius as i64;
        self.trace_circle(fill, position.x as i64 + r, position.y as i64 + r, r, true);
        Ok(())
    }

    /// Colors with `paint` the four cells `(left, lower)`, `(left, upper)`,
    /// `(right, lower)` and `(right, upper)`, after the cells `done`.
    fn touch_corners<P: Paint + ?Sized>(
        &mut self,
        paint: &P,
        left: i64,
        right: i64,
        lower: i64,
        upper: i64,
        Ghost(before): Ghost<Seq<Cell>>,
        Ghost(done): Ghost<Seq<(int, int)>>,
    )
        requires
            old(self).wf(),
            old(self).cell_buffer@ == painted_all(paint, old(self).cell_buffer.size, before, done),
        ensures
            final(self).wf(),
            final(self).set_as(old(self)),
            *final(final(self).cell_buffer) == *final(old(self).cell_buffer),
            final(self).position == old(self).position,
            final(self).cell_buffer@ == painted_all(
                paint,
                old(self).cell_buffer.size,
                before,
                done + seq![
                    (left as int, lower as int),
                    (left as int, upper as int),
                    (right as int, lower as int),
                    (right as int, upper as int),
                ],
            ),
    {
        let ghost size = self.cell_buffer.size;
        proof {
            lemma_painted_push(paint, size, before, done, left as int, lower as int);
            let first = done.push((left as int, lower as int));
            lemma_painted_push(paint, size, before, first, left as int, upper as int);
            let second = first.push((left as int, upper as int));
            lemma_painted_push(paint, size, before, second, right as int, lower as int);
            let third = second.push((right as int, lower as int));
            lemma_painted_push(paint, size, before, third, right as int, upper as int);
            assert(third.push((right as int, upper as int)) =~= done + seq![
                (left as int, lower as int),
                (left as int, upper as int),
                (right as int, lower as int),
                (right as int, upper as int),
            ]);
        }
        self.touch(paint, left, lower);
        self.touch(paint, left, upper);
        self.touch(paint, right, lower);
        self.touch(paint, right, upper);
    }

    /// Colors with `paint` the cells of the ellipse that fills the box from
    /// `(px, py)` to `(px + a, py + b)`: of its outline, or, if `filled`, of
    /// its inside too.
    #[verifier::rlimit(60)]
    fn trace_ellipse<P: Paint + ?Sized>(
        &mut self,
        paint: &P,
        px: i64,
        py: i64,
        a: i64,
        b: i64,
        filled: bool,
    )
        requires
            old(self).wf(),
            0 <= a <= ELLIPSE_EXTENT_MAX,
            0 <= b <= ELLIPSE_EXTENT_MAX,
            -0x1_0000_0000 <= px <= 0x1_0000_0000,
            -0x1_0000_0000 <= py <= 0x1_0000_0000,
        ensures
            final(self).wf(),
            final(self).set_as(old(self)),
            *final(final(self).cell_buffer) == *final(old(self).cell_buffer),
            final(self).position == old(self).position,
            final(self).cell_buffer@ == painted_all(
                paint,
                old(self).cell_buffer.size,
                old(self).cell_buffer@,
                ellipse_trace(px as int, py as int, a as int, b as int, 0, 0, filled),
            ),
    {
        let ghost size = self.cell_buffer.size;
        let ghost before = self.cell_buffer@;
        let ghost all = ellipse_trace(px as int, py as int, a as int, b as int, 0, 0, filled);
        let ghost mut done: Seq<(int, int)> = Seq::empty();
        let ghost mut i: int = 0;
        let ghost mut j: int = 0;
        let parity = b % 2;
        let wide_a = a as i128;
        let wide_b = b as i128;
        proof {
            lemma_ellipse_magnitudes(a as int, b as int, 0, 0);
        }
        let aa = wide_a * wide_a;
        let bb = wide_b * wide_b;
        let rise_step = 8 * aa;
        let advance_step = 8 * bb;
        let mut x0 = px;
        let mut x1 = px + a;
        let mut y0 = py + (b + 1) / 2;
        let mut y1 = y0 - parity;
        proof {
            assert(4 * (1 - wide_a) * bb == 4 * ((1 - wide_a) * bb)) by (nonlinear_arith);
            assert(-0x4000_0000 * bb <= (1 - wide_a) * bb <= bb) by (nonlinear_arith)
                requires
                    0 <= wide_a <= 0x4000_0000,
                    0 <= bb,
            ;
            assert(0 <= (parity as i128 + 1) * aa <= 2 * aa) by (nonlinear_arith)
                requires
                    0 <= parity <= 1,
                    0 <= aa,
            ;
            assert(4 * (parity as i128 + 1) * aa == 4 * ((parity as i128 + 1) * aa))
                by (nonlinear_arith);
            assert(0 <= (parity as i128) * aa <= aa) by (nonlinear_arith)
                requires
                    0 <= parity <= 1,
                    0 <= aa,
            ;
        }
        let mut dx: i128 = 4 * ((1 - wide_a) * bb);
        let mut dy: i128 = 4 * ((parity as i128 + 1) * aa);
        let mut err: i128 = dx + dy + (parity as i128) * aa;
        proof {
            assert(dx == ellipse_advance_limit(a as int, b as int, 0)) by (nonlinear_arith)
                requires
                    dx == 4 * ((1 - wide_a) * bb),
                    bb == b * b,
                    wide_a == a,
            ;
            assert(dy == ellipse_rise_limit(a as int, b as int, 0)) by (nonlinear_arith)
                requires
                    dy == 4 * ((parity + 1) * aa),
                    aa == a * a,
                    parity == b % 2,
            ;
            assert(err == ellipse_error(a as int, b as int, 0, 0)) by (nonlinear_arith)
                requires
                    err == dx + dy + parity * aa,
                    dx == 4 * ((1 - a) * bb),
                    dy == 4 * ((parity + 1) * aa),
                    aa == a * a,
                    bb == b * b,
                    parity == b % 2,
            ;
            assert(done + all =~= all);
        }
        while x0 <= x1
            invariant
                self.wf(),
                self.set_as(old(self)),
                self.cell_buffer.size == size,
                *final(self.cell_buffer) == *final(old(self).cell_buffer),
                self.position == old(self).position,
                0 <= a <= ELLIPSE_EXTENT_MAX,
                0 <= b <= ELLIPSE_EXTENT_MAX,
                -0x1_0000_0000 <= px <= 0x1_0000_0000,
                -0x1_0000_0000 <= py <= 0x1_0000_0000,
                parity == b % 2,
                aa == a * a,
                bb == b * b,
                rise_step == 8 * aa,
                advance_step == 8 * bb,
                0 <= i,
                2 * i <= a + 2,
                0 <= j,
                a >= 1 ==> 2 * j <= b,
                a == 0 ==> j <= i,
                x0 == ellipse_left(px as int, i),
                x1 == ellipse_right(px as int, a as int, i),
                y0 == ellipse_lower(py as int, b as int, j),
                y1 == ellipse_upper(py as int, b as int, j),
                dx == ellipse_advance_limit(a as int, b as int, i),
                dy == ellipse_rise_limit(a as int, b as int, j),
                err == ellipse_error(a as int, b as int, i, j),
                all == done + ellipse_trace(px as int, py as int, a as int, b as int, i, j, filled),
                self.cell_buffer@ == painted_all(paint, size, before, done),
            decreases
                (if 2 * i <= a {
                    a - 2 * i + 1
                } else {
                    0
                }),
                (if err < 0 {
                    -err
                } else {
                    0
                }),
        {
            let ghost rest = ellipse_trace(
                px as int,
                py as int,
                a as int,
                b as int,
                ellipse_next_i(a as int, b as int, i, j),
                ellipse_next_j(a as int, b as int, i, j),
                filled,
            );
            proof {
                lemma_ellipse_magnitudes(a as int, b as int, i, j);
                lemma_ellipse_magnitudes(a as int, b as int, i + 1, j + 1);
                lemma_ellipse_magnitudes(a as int, b as int, i, j + 1);
                lemma_ellipse_rise(a as int, b as int, i, j);
                lemma_ellipse_advance(a as int, b as int, i, j);
                lemma_ellipse_advance(a as int, b as int, i, j + 1);
                if ellipse_next_i(a as int, b as int, i, j) == i {
                    lemma_ellipse_stall(a as int, b as int, i, j);
                }
                if a >= 1 && 2 * err <= dy {
                    lemma_ellipse_rise_bound(a as int, b as int, i, j);
                }
            }
            if filled {
                let ghost span = ellipse_span(px as int, py as int, a as int, b as int, i, j);
                let ghost row_done = done;
                let mut column = x0;
                while column <= x1
                    invariant
                        self.wf(),
                        self.set_as(old(self)),
                        self.cell_buffer.size == size,
                        *final(self.cell_buffer) == *final(old(self).cell_buffer),
                        self.position == old(self).position,
                        x0 <= column <= x1 + 1,
                        x1 <= 0x2_0000_0000,
                        x0 == ellipse_left(px as int, i),
                        x1 == ellipse_right(px as int, a as int, i),
                        y0 == ellipse_lower(py as int, b as int, j),
                        y1 == ellipse_upper(py as int, b as int, j),
                        span == ellipse_span(px as int, py as int, a as int, b as int, i, j),
                        done == row_done + span.take(2 * (column - x0)),
                        self.cell_buffer@ == painted_all(paint, size, before, done),
                    decreases x1 + 1 - column,
                {
                    let ghost k = 2 * (column - x0);
                    proof {
                        assert(span[k] == (column as int, y0 as int));
                        assert(span[k + 1] == (column as int, y1 as int));
                        lemma_painted_push(paint, size, before, done, column as int, y0 as int);
                        lemma_painted_push(
                            paint,
                            size,
                            before,
                            done.push((column as int, y0 as int)),
                            column as int,
                            y1 as int,
                        );
                        assert(span.take(k + 2) =~= span.take(k).push(span[k]).push(span[k + 1]));
                        done = done.push((column as int, y0 as int)).push((column as int, y1 as int));
                        assert(done =~= row_done + span.take(k + 2));
                    }
                    self.touch(paint, column, y0);
                    self.touch(paint, column, y1);
                    column += 1;
                }
                proof {
                    assert(span.take(2 * (column - x0)) =~= span);
                }
            } else {
                self.touch_corners(paint, x0, x1, y0, y1, Ghost(before), Ghost(done));
                proof {
                    done = done + ellipse_stamp(px as int, py as int, a as int, b as int, i, j);
                }
            }
            proof {
                assert(all =~= done + rest);
            }
            let e2 = 2 * err;
            let ghost risen = e2 <= dy;
            if e2 <= dy {
                y0 += 1;
                y1 -= 1;
                dy += rise_step;
                err += dy;
            }
            let ghost advanced = e2 >= dx || 2 * err > dy;
            if e2 >= dx || 2 * err > dy {
                x0 += 1;
                x1 -= 1;
                dx += advance_step;
                err += dx;
            }
            proof {
                if risen {
                    j = j + 1;
                }
                if advanced {
                    i = i + 1;
                }
            }
        }
        let ghost end_i = i;
        while y0 - y1 < b
            invariant
                self.wf(),
                self.set_as(old(self)),
                self.cell_buffer.size == size,
                *final(self.cell_buffer) == *final(old(self).cell_buffer),
                self.position == old(self).position,
                0 <= a <= ELLIPSE_EXTENT_MAX,
                0 <= b <= ELLIPSE_EXTENT_MAX,
                -0x1_0000_0000 <= px <= 0x1_0000_0000,
                -0x1_0000_0000 <= py <= 0x1_0000_0000,
                0 <= i,
                2 * i <= a + 2,
                2 * i > a,
                0 <= j,
                2 * j <= b + 2,
                x0 == ellipse_left(px as int, i),
                x1 == ellipse_right(px as int, a as int, i),
                y0 == ellipse_lower(py as int, b as int, j),
                y1 == ellipse_upper(py as int, b as int, j),
                all == done + ellipse_tall_trace(
                    px as int,
                    py as int,
                    a as int,
                    b as int,
                    i,
                    j,
                    filled,
                ),
                self.cell_buffer@ == painted_all(paint, size, before, done),
            decreases b - (y0 - y1),
        {
            let ghost rest = ellipse_tall_trace(
                px as int,
                py as int,
                a as int,
                b as int,
                i,
                j + 1,
                filled,
            );
            if filled {
                let ghost post = ellipse_post(px as int, py as int, a as int, b as int, i, j);
                let ghost column_done = done;
                let mut row = y1;
                while row <= y0
                    invariant
                        self.wf(),
                        self.set_as(old(self)),
                        self.cell_buffer.size == size,
                        *final(self.cell_buffer) == *final(old(self).cell_buffer),
                        self.position == old(self).position,
                        y1 <= row,
                        row <= y0 + 1 || row == y1,
                        y0 <= 0x2_0000_0000,
                        x0 == ellipse_left(px as int, i),
                        x1 == ellipse_right(px as int, a as int, i),
                        y0 == ellipse_lower(py as int, b as int, j),
                        y1 == ellipse_upper(py as int, b as int, j),
                        post == ellipse_post(px as int, py as int, a as int, b as int, i, j),
                        done == column_done + post.take(2 * (row - y1)),
                        self.cell_buffer@ == painted_all(paint, size, before, done),
                    decreases y0 + 1 - row,
                {
                    let ghost k = 2 * (row - y1);
                    proof {
                        assert(post[k] == (x0 as int, row as int));
                        assert(post[k + 1] == (x1 as int, row as int));
                        lemma_painted_push(paint, size, before, done, x0 as int, row as int);
                        lemma_painted_push(
                            paint,
                            size,
                            before,
                            done.push((x0 as int, row as int)),
                            x1 as int,
                            row as int,
                        );
                        assert(post.take(k + 2) =~= post.take(k).push(post[k]).push(post[k + 1]));
                        done = done.push((x0 as int, row as int)).push((x1 as int, row as int));
                        assert(done =~= column_done + post.take(k + 2));
                    }
                    self.touch(paint, x0, row);
                    self.touch(paint, x1, row);
                    row += 1;
                }
                proof {
                    assert(post.take(2 * (row - y1)) =~= post);
                }
            } else {
                self.touch_corners(paint, x0, x1, y0, y1, Ghost(before), Ghost(done));
                proof {
                    done = done + ellipse_stamp(px as int, py as int, a as int, b as int, i, j);
                }
            }
            proof {
                assert(all =~= done + rest);
                j = j + 1;
            }
            y0 += 1;
            y1 -= 1;
        }
        proof {
            assert(all =~= done);
        }
    }

    /// Draws the outline of the ellipse of extent `size` about `center`:
    /// the ellipse that fills the box of that extent whose corner nearest
    /// the origin lies half the extent before `center`. The pen stays.
    /// Without a stroke paint nothing is drawn.
    pub fn stroke_ellipse_from_center(&mut self, center: Point2d, size: Size2d) -> (result: Result<()>)
        requires
            old(self).wf(),
            old(self).stroke is Some ==> size.width <= ELLIPSE_EXTENT_MAX,
            old(self).stroke is Some ==> size.height <= ELLIPSE_EXTENT_MAX,
        ensures
            final(self).wf(),
            final(self).set_as(old(self)),
            *final(final(self).cell_buffer) == *final(old(self).cell_buffer),
            final(self).position == old(self).position,
            match old(self).stroke {
                Some(stroke) => {
                    &&& result == Ok::<(), &'static str>(())
                    &&& final(self).cell_buffer@ == painted_all(
                        stroke,
                        old(self).cell_buffer.size,
                        old(self).cell_buffer@,
                        ellipse_points(
                            center.x - size.width / 2,
                            center.y - size.height / 2,
                            size.width as int,
                            size.height as int,
                        ),
                    )
                },
                None => {
                    &&& result == Err::<(), &'static str>(MISSING_ELLIPSE_STROKE)
                    &&& final(self).cell_buffer@ == old(self).cell_buffer@
                },
            },
    {
        let stroke = match self.stroke {
            Some(stroke) => stroke,
            None => {
                return Err(MISSING_ELLIPSE_STROKE);
            },
        };
        let a = size.width as i64;
        let b = size.height as i64;
        self.trace_ellipse(stroke, center.x as i64 - a / 2, center.y as i64 - b / 2, a, b, false);
        Ok(())
    }

    /// Draws the outline of the ellipse that fills the box of extent `size`
    /// whose corner nearest the origin is `position`. The pen stays. Without
    /// a stroke paint nothing is drawn.
    pub fn stroke_ellipse(&mut self, position: Point2d, size: Size2d) -> (result: Result<()>)
        requires
            old(self).wf(),
            old(self).stroke is Some ==> size.width <= ELLIPSE_EXTENT_MAX,
            old(self).stroke is Some ==> size.height <= ELLIPSE_EXTENT_MAX,
        ensures
            final(self).wf(),
            final(self).set_as(old(self)),
            *final(final(self).cell_buffer) == *final(old(self).cell_buffer),
            final(self).position == old(self).position,
            match old(self).stroke {
                Some(stroke) => {
                    &&& result == Ok::<(), &'static str>(())
                    &&& final(self).cell_buffer@ == painted_all(
                        stroke,
                        old(self).cell_buffer.size,
                        old(self).cell_buffer@,
                        ellipse_points(
                            position.x as int,
                            position.y as int,
                            size.width as int,
                            size.height as int,
                        ),
                    )
                },
                None => {
                    &&& result == Err::<(), &'static str>(MISSING_ELLIPSE_STROKE)
                    &&& final(self).cell_buffer@ == old(self).cell_buffer@
                },
            },
    {
        let stroke = match self.stroke {
            Some(stroke) => stroke,
            None => {
                return Err(MISSING_ELLIPSE_STROKE);
            },
        };
        let a = size.width as i64;
        let b = size.height as i64;
        self.trace_ellipse(stroke, position.x as i64, position.y as i64, a, b, false);
        Ok(())
    }

    /// Colors the ellipse of extent `size` about `center`, its inside
    /// included: the ellipse that fills the box of that extent whose corner
    /// nearest the origin lies half the extent before `center`. The pen
    /// stays. Without a fill paint nothing is colored.
    pub fn fill_ellipse_from_center(&mut self, center: Point2d, size: Size2d) -> (result: Result<()>)
        requires
            old(self).wf(),
            old(self).fill is Some ==> size.width <= ELLIPSE_EXTENT_MAX,
            old(self).fill is Some ==> size.height <= ELLIPSE_EXTENT_MAX,
        ensures
            final(self).wf(),
            final(self).set_as(old(self)),
            *final(final(self).cell_buffer) == *final(old(self).cell_buffer),
            final(self).position == old(self).position,
            match old(self).fill {
                Some(fill) => {
                    &&& result == Ok::<(), &'static str>(())
                    &&& final(self).cell_buffer@ == painted_all(
                        fill,
                        old(self).cell_buffer.size,
                        old(self).cell_buffer@,
                        oval_points(
                            center.x - size.width / 2,
                            center.y - size.height / 2,
                            size.width as int,
                            size.height as int,
                        ),
                    )
                },
                None => {
                    &&& result == Err::<(), &'static str>(MISSING_ELLIPSE_FILL)
                    &&& final(self).cell_buffer@ == old(self).cell_buffer@
                },
            },
    {
        let fill = match self.fill {
            Some(fill) => fill,
            None => {
                return Err(MISSING_ELLIPSE_FILL);
            },
        };
        let a = size.width as i64;
        let b = size.height as i64;
        self.trace_ellipse(fill, center.x as i64 - a / 2, center.y as i64 - b / 2, a, b, true);
        Ok(())
    }

    /// Colors the ellipse that fills the box of extent `size` whose corner
    /// nearest the origin is `position`, its inside included. The pen stays.
    /// Without a fill paint nothing is colored.
    pub fn fill_ellipse(&mut self, position: Point2d, size: Size2d) -> (result: Result<()>)
        requires
            old(self).wf(),
            old(self).fill is Some ==> size.width <= ELLIPSE_EXTENT_MAX,
            old(self).fill is Some ==> size.height <= ELLIPSE_EXTENT_MAX,
        ensures
            final(self).wf(),
            final(self).set_as(old(self)),
            *final(final(self).cell_buffer) == *final(old(self).cell_buffer),
            final(self).position == old(self).position,
            match old(self).fill {
                Some(fill) => {
                    &&& result == Ok::<(), &'static str>(())
                    &&& final(self).cell_buffer@ == painted_all(
                        fill,
                        old(self).cell_buffer.size,
                        old(self).cell_buffer@,
                        oval_points(
                            position.x as int,
                            position.y as int,
                            size.width as int,
                            size.height as int,
                        ),
                    )
                },
                None => {
                    &&& result == Err::<(), &'static str>(MISSING_ELLIPSE_FILL)
                    &&& final(self).cell_buffer@ == old(self).cell_buffer@
                },
            },
    {
        let fill = match self.fill {
            Some(fill) => fill,
            None => {
                return Err(MISSING_ELLIPSE_FILL);
            },
        };
        let a = size.width as i64;
        let b = size.height as i64;
        self.trace_ellipse(fill, position.x as i64, position.y as i64, a, b, true);
        Ok(())
    }
}

} // verus!
