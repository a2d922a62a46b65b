//! The cells that a curve with one control point passes through.
//!
//! A curve runs from its start towards its control point and bends from
//! there to its end. It is cut where it turns back along the columns and
//! where it turns back along the rows, into at most three pieces that each
//! bend one way; each piece is walked cell by cell with an error term that
//! tells, at each cell, whether the next cell lies along the columns, along
//! the rows, or both.

use vstd::prelude::*;
use crate::drawing::shapes::{
    adjacent, heading, lemma_line_ends, lemma_line_starts, lemma_line_unbroken,
    lemma_nearest_within, lemma_unbroken_after, line_points, magnitude, nearest, unbroken,
};

verus! {

/// The furthest from the origin, along the columns and along the rows, that
/// the points of a curve can lie.
pub const CURVE_REACH: i32 = 0x100_0000;

/// A curve from `(x0, y0)` to `(x1, y1)` that bends towards `(cx, cy)`.
pub struct Curve {
    pub x0: int,
    pub y0: int,
    pub x1: int,
    pub y1: int,
    pub cx: int,
    pub cy: int,
}

/// What an arc is walked by: the cell it ends at, the step along the
/// columns and along the rows, and the three amounts by which the error
/// term and its two bounds change from cell to cell.
pub struct Arc {
    pub end_x: int,
    pub end_y: int,
    pub step_x: int,
    pub step_y: int,
    pub xx: int,
    pub yy: int,
    pub xy: int,
}

/// Where the walk of an arc stands: the cell, the error term, and its two
/// bounds.
pub struct ArcState {
    pub x: int,
    pub y: int,
    pub dx: int,
    pub dy: int,
    pub err: int,
}

impl Curve {
    /// Whether the three points of the curve lie within reach.
    pub open spec fn within_reach(self) -> bool {
        &&& -CURVE_REACH <= self.x0 <= CURVE_REACH
        &&& -CURVE_REACH <= self.y0 <= CURVE_REACH
        &&& -CURVE_REACH <= self.x1 <= CURVE_REACH
        &&& -CURVE_REACH <= self.y1 <= CURVE_REACH
        &&& -CURVE_REACH <= self.cx <= CURVE_REACH
        &&& -CURVE_REACH <= self.cy <= CURVE_REACH
    }

    /// Whether the curve turns back along the columns: its control point
    /// lies, by its column, to one side of both its ends.
    pub open spec fn turns_in_x(self) -> bool {
        (self.x0 - self.cx) * (self.x1 - self.cx) > 0
    }

    /// Whether the curve turns back along the rows.
    pub open spec fn turns_in_y(self) -> bool {
        (self.y0 - self.cy) * (self.y1 - self.cy) > 0
    }

    /// Whether the curve bends one way: it turns back neither along the
    /// columns nor along the rows.
    pub open spec fn bends_one_way(self) -> bool {
        (self.x0 - self.cx) * (self.x1 - self.cx) <= 0 && (self.y0 - self.cy) * (self.y1 - self.cy)
            <= 0
    }

    /// The curve with its ends exchanged.
    pub open spec fn reversed(self) -> Curve {
        Curve { x0: self.x1, y0: self.y1, x1: self.x0, y1: self.y0, cx: self.cx, cy: self.cy }
    }

    /// Whether a curve that turns back along the columns and along the rows
    /// reaches, from its start, the turn along the rows first. Such a curve
    /// is drawn from its end.
    pub open spec fn turns_in_y_first(self) -> bool {
        self.turns_in_y() && magnitude((self.y0 - 2 * self.cy + self.y1) * (self.x0 - self.cx))
            > magnitude(self.y0 - self.cy) * magnitude(self.x0 - 2 * self.cx + self.x1)
    }

    /// The curve as it is drawn: from its end, where it reaches the turn
    /// along the rows first.
    pub open spec fn oriented(self) -> Curve {
        if self.turns_in_y_first() {
            self.reversed()
        } else {
            self
        }
    }

    /// The column at which a curve that turns back along the columns turns.
    pub open spec fn x_turn_column(self) -> int {
        nearest_ratio(self.x0 * self.x1 - self.cx * self.cx, self.x0 - 2 * self.cx + self.x1)
    }

    /// The row at which a curve that turns back along the columns turns.
    pub open spec fn x_turn_row(self) -> int {
        let whole = self.x0 - 2 * self.cx + self.x1;
        let part = self.x0 - self.cx;
        nearest_ratio(
            (whole - part) * ((whole - part) * self.y0 + 2 * part * self.cy) + part * part
                * self.y1,
            whole * whole,
        )
    }

    /// The row at which the line from the point `(x, y)` of the curve to its
    /// control point meets the column at which the curve turns back.
    pub open spec fn x_turn_control(self, x: int, y: int) -> int {
        let whole = self.x0 - 2 * self.cx + self.x1;
        let across = self.x0 * self.x1 - self.cx * self.cx;
        nearest_ratio(
            (self.cy - y) * (across - x * whole) + y * (whole * (self.cx - x)),
            whole * (self.cx - x),
        )
    }

    /// The piece of a curve that turns back along the columns from its
    /// start to the turn.
    pub open spec fn before_x_turn(self) -> Curve {
        Curve {
            x0: self.x0,
            y0: self.y0,
            x1: self.x_turn_column(),
            y1: self.x_turn_row(),
            cx: self.x_turn_column(),
            cy: self.x_turn_control(self.x0, self.y0),
        }
    }

    /// What is left of a curve that turns back along the columns after the
    /// turn.
    pub open spec fn after_x_turn(self) -> Curve {
        Curve {
            x0: self.x_turn_column(),
            y0: self.x_turn_row(),
            x1: self.x1,
            y1: self.y1,
            cx: self.x_turn_column(),
            cy: self.x_turn_control(self.x1, self.y1),
        }
    }

    /// The curve with columns and rows exchanged.
    pub open spec fn transposed(self) -> Curve {
        Curve { x0: self.y0, y0: self.x0, x1: self.y1, y1: self.x1, cx: self.cy, cy: self.cx }
    }

    /// The piece of a curve that turns back along the rows from its start
    /// to the turn.
    pub open spec fn before_y_turn(self) -> Curve {
        self.transposed().before_x_turn().transposed()
    }

    /// What is left of a curve that turns back along the rows after the
    /// turn.
    pub open spec fn after_y_turn(self) -> Curve {
        self.transposed().after_x_turn().transposed()
    }

    /// Twice the area of the triangle of the three points of the curve, with
    /// the sign of the side to which the curve bends. Zero where the three
    /// points lie on a line.
    pub open spec fn bend(self) -> int {
        (self.x0 - self.cx) * (self.y1 - self.cy) - (self.y0 - self.cy) * (self.x1 - self.cx)
    }

    /// Whether the end of the curve lies further from its control point
    /// than its start. Such a curve is walked from its end.
    pub open spec fn ends_further(self) -> bool {
        (self.x1 - self.cx) * (self.x1 - self.cx) + (self.y1 - self.cy) * (self.y1 - self.cy) > (
        self.x0 - self.cx) * (self.x0 - self.cx) + (self.y0 - self.cy) * (self.y0 - self.cy)
    }

    /// The curve as it is walked: from the end that lies further from the
    /// control point.
    pub open spec fn walked(self) -> Curve {
        if self.ends_further() {
            self.reversed()
        } else {
            self
        }
    }

    /// Whether the error term of the walk of the curve is counted with the
    /// opposite sign: the curve bends to the left of the way it is walked.
    pub open spec fn counts_backward(self) -> bool {
        turned(turned(self.bend(), heading(self.x0, self.x1)), heading(self.y0, self.y1)) < 0
    }

    /// What a curve that bends one way is walked by, from its start.
    pub open spec fn arc(self) -> Arc {
        let step_x = heading(self.x0, self.x1);
        let step_y = heading(self.y0, self.y1);
        let across = self.x0 - 2 * self.cx + self.x1;
        let along = self.y0 - 2 * self.cy + self.y1;
        let sign = if self.counts_backward() {
            -1
        } else {
            1
        };
        Arc {
            end_x: self.x1,
            end_y: self.y1,
            step_x,
            step_y,
            xx: turned(2 * (across * across), sign),
            yy: turned(2 * (along * along), sign),
            xy: turned(turned(turned(2 * (across * along), step_x), step_y), sign),
        }
    }

    /// Where the walk of a curve that bends one way stands at its start.
    pub open spec fn start(self) -> ArcState {
        let arc = self.arc();
        let across = self.x0 - 2 * self.cx + self.x1;
        let along = self.y0 - 2 * self.cy + self.y1;
        let sign = if self.counts_backward() {
            -1
        } else {
            1
        };
        let dx = turned(turned(4 * (self.bend() * (self.cx - self.x0)), arc.step_y), sign) + turned(
            across * across,
            sign,
        ) - arc.xy;
        let dy = turned(turned(4 * (self.bend() * (self.y0 - self.cy)), arc.step_x), sign) + turned(
            along * along,
            sign,
        ) - arc.xy;
        ArcState { x: self.x0, y: self.y0, dx, dy, err: dx + dy + arc.xy }
    }

    /// How many cells the walk of the curve may take: as many as lie
    /// between its ends, along the columns and along the rows together, and
    /// one more.
    pub open spec fn budget(self) -> nat {
        (magnitude(self.x1 - self.x0) + magnitude(self.y1 - self.y0) + 1) as nat
    }

    /// The cells of a curve that bends one way, in the order in which they
    /// are drawn: a straight line where the three points of the curve lie
    /// on one.
    pub open spec fn arc_points(self) -> Seq<(int, int)> {
        let walked = self.walked();
        if walked.bend() == 0 {
            line_points(walked.x0, walked.y0, walked.x1, walked.y1)
        } else {
            arc_walk(walked.arc(), walked.start(), walked.budget())
        }
    }

    /// The cells of a piece of a curve: those of an arc, where the piece
    /// bends one way, and else those of the straight line from its start to
    /// its end.
    pub open spec fn piece_points(self) -> Seq<(int, int)> {
        if self.bends_one_way() {
            self.arc_points()
        } else {
            line_points(self.x0, self.y0, self.x1, self.y1)
        }
    }

    /// The cells of what is left of a curve once it has been cut where it
    /// turns back along the columns.
    pub open spec fn points_after_x_turn(self) -> Seq<(int, int)> {
        if self.turns_in_y() {
            self.before_y_turn().piece_points() + self.after_y_turn().piece_points()
        } else {
            self.piece_points()
        }
    }

    /// The cells of the curve, in the order in which they are drawn.
    pub open spec fn points(self) -> Seq<(int, int)> {
        if self.turns_in_x() {
            let oriented = self.oriented();
            oriented.before_x_turn().piece_points() + oriented.after_x_turn().points_after_x_turn()
        } else {
            self.points_after_x_turn()
        }
    }
}

/// `value` with the sign of `sign`: `value` itself for a sign that is not
/// below zero, and its opposite for one that is.
pub open spec fn turned(value: int, sign: int) -> int {
    if sign < 0 {
        -value
    } else {
        value
    }
}

/// The whole number nearest to `numerator / denominator`, a half counting
/// upward, for a denominator of either sign. Zero when the denominator is
/// zero.
pub open spec fn nearest_ratio(numerator: int, denominator: int) -> int {
    if denominator < 0 {
        nearest(-numerator, -denominator)
    } else {
        nearest(numerator, denominator)
    }
}

/// Whether the walk of an arc goes on from the state `state` along the
/// columns: the error term, doubled, lies above its lower bound.
pub open spec fn arc_moves_in_x(state: ArcState) -> bool {
    2 * state.err > state.dy
}

/// The state of the walk of the arc `arc` after the state `state`, once the
/// step along the columns has been taken or left.
pub open spec fn arc_after_x(arc: Arc, state: ArcState) -> ArcState {
    if arc_moves_in_x(state) {
        ArcState {
            x: state.x + arc.step_x,
            y: state.y,
            dx: state.dx - arc.xy,
            dy: state.dy + arc.yy,
            err: state.err + state.dy + arc.yy,
        }
    } else {
        state
    }
}

/// Whether the walk of an arc goes on along the rows, once the step along
/// the columns has been taken or left: the error term, doubled, lies below
/// its upper bound.
pub open spec fn arc_moves_in_y(state: ArcState) -> bool {
    2 * state.err < state.dx
}

/// The state of the walk of the arc `arc` after the state `state`.
pub open spec fn arc_next(arc: Arc, state: ArcState) -> ArcState {
    let half = arc_after_x(arc, state);
    if arc_moves_in_y(half) {
        ArcState {
            x: half.x,
            y: half.y + arc.step_y,
            dx: half.dx + arc.xx,
            dy: half.dy - arc.xy,
            err: half.err + half.dx + arc.xx,
        }
    } else {
        half
    }
}

/// The cells of the arc `arc` from the state `state` on, for a walk that
/// may take `budget` cells more. The walk ends at the end of the arc. Where
/// its two bounds cross, where it comes to a stand, and where it has taken
/// as many cells as it may, the rest is a straight line to the end.
pub open spec fn arc_walk(arc: Arc, state: ArcState, budget: nat) -> Seq<(int, int)>
    decreases budget,
{
    if state.dy > state.dx || budget == 0 {
        line_points(state.x, state.y, arc.end_x, arc.end_y)
    } else if state.x == arc.end_x && state.y == arc.end_y {
        seq![(state.x, state.y)]
    } else {
        let next = arc_next(arc, state);
        seq![(state.x, state.y)] + (if next.x == state.x && next.y == state.y {
            line_points(state.x, state.y, arc.end_x, arc.end_y)
        } else {
            arc_walk(arc, next, (budget - 1) as nat)
        })
    }
}

/// The lower of two numbers.
pub open spec fn lower(a: int, b: int) -> int {
    if a <= b {
        a
    } else {
        b
    }
}

/// The higher of two numbers.
pub open spec fn higher(a: int, b: int) -> int {
    if a <= b {
        b
    } else {
        a
    }
}

/// A ratio of two numbers of either sign rounds to a whole number between
/// two whole numbers that it lies between.
pub proof fn lemma_nearest_ratio_within(numerator: int, denominator: int, low: int, high: int)
    requires
        denominator != 0,
        denominator > 0 ==> low * denominator <= numerator <= high * denominator,
        denominator < 0 ==> low * (-denominator) <= -numerator <= high * (-denominator),
    ensures
        low <= nearest_ratio(numerator, denominator) <= high,
{
    if denominator > 0 {
        lemma_nearest_within(numerator, denominator, low, high);
    } else {
        lemma_nearest_within(-numerator, -denominator, low, high);
    }
}

/// An average of two numbers, each counted with a weight that is not below
/// zero, lies between the two.
pub proof fn lemma_average_within(first: int, second: int, weight: int, other: int)
    by (nonlinear_arith)
    requires
        weight >= 0,
        other >= 0,
    ensures
        lower(first, second) * (weight + other) <= first * weight + second * other <= higher(
            first,
            second,
        ) * (weight + other),
{
}

/// The column at which a curve turns back lies between the column of its
/// control point and that of its start, and so does the row at which the
/// line from its start to its control point meets that column lie between
/// their rows.
#[verifier::rlimit(50)]
pub proof fn lemma_x_turn_near_start(curve: Curve)
    requires
        curve.turns_in_x(),
    ensures
        lower(curve.x0, curve.cx) <= curve.x_turn_column() <= higher(curve.x0, curve.cx),
        lower(curve.y0, curve.cy) <= curve.x_turn_control(curve.x0, curve.y0) <= higher(
            curve.y0,
            curve.cy,
        ),
{
    let a = curve.x0 - curve.cx;
    let b = curve.x1 - curve.cx;
    let whole = curve.x0 - 2 * curve.cx + curve.x1;
    let across = curve.x0 * curve.x1 - curve.cx * curve.cx;
    assert(whole == a + b);
    assert(a * b > 0);
    let aa = a * a;
    let ab = a * b;
    assert(aa > 0) by (nonlinear_arith)
        requires
            a * b > 0,
            aa == a * a,
    ;
    // The turn lies `ab / (a + b)` beyond the control point, and `aa / (a + b)`
    // before the start.
    assert(across == curve.cx * whole + ab) by (nonlinear_arith)
        requires
            across == curve.x0 * curve.x1 - curve.cx * curve.cx,
            whole == curve.x0 - 2 * curve.cx + curve.x1,
            ab == (curve.x0 - curve.cx) * (curve.x1 - curve.cx),
    ;
    assert(across == curve.x0 * whole - aa) by (nonlinear_arith)
        requires
            across == curve.x0 * curve.x1 - curve.cx * curve.cx,
            whole == curve.x0 - 2 * curve.cx + curve.x1,
            aa == (curve.x0 - curve.cx) * (curve.x0 - curve.cx),
    ;
    assert(whole * a == aa + ab) by (nonlinear_arith)
        requires
            whole == a + b,
            aa == a * a,
            ab == a * b,
    ;
    if whole > 0 {
        assert(a > 0 && b > 0) by (nonlinear_arith)
            requires
                a * b > 0,
                a + b > 0,
        ;
        assert(curve.cx * whole <= across <= curve.x0 * whole);
        assert(lower(curve.x0, curve.cx) == curve.cx && higher(curve.x0, curve.cx) == curve.x0);
    } else {
        assert(a < 0 && b < 0 && whole < 0) by (nonlinear_arith)
            requires
                a * b > 0,
                a + b <= 0,
                whole == a + b,
        ;
        assert(curve.x0 * (-whole) == -(curve.x0 * whole)) by (nonlinear_arith);
        assert(curve.cx * (-whole) == -(curve.cx * whole)) by (nonlinear_arith);
        assert(lower(curve.x0, curve.cx) == curve.x0 && higher(curve.x0, curve.cx) == curve.cx);
    }
    lemma_nearest_ratio_within(
        across,
        whole,
        lower(curve.x0, curve.cx),
        higher(curve.x0, curve.cx),
    );
    // The line to the control point meets the column of the turn at the
    // average of the rows of the start and of the control point, the one
    // counted `ab` times and the other `aa` times.
    let lever = whole * (curve.cx - curve.x0);
    let numerator = (curve.cy - curve.y0) * (across - curve.x0 * whole) + curve.y0 * lever;
    assert(lever == -(aa + ab)) by (nonlinear_arith)
        requires
            lever == whole * (curve.cx - curve.x0),
            whole * a == aa + ab,
            a == curve.x0 - curve.cx,
    ;
    assert(-numerator == curve.y0 * ab + curve.cy * aa) by (nonlinear_arith)
        requires
            numerator == (curve.cy - curve.y0) * (across - curve.x0 * whole) + curve.y0 * lever,
            across - curve.x0 * whole == -aa,
            lever == -(aa + ab),
    ;
    lemma_average_within(curve.y0, curve.cy, ab, aa);
    lemma_nearest_ratio_within(
        numerator,
        lever,
        lower(curve.y0, curve.cy),
        higher(curve.y0, curve.cy),
    );
}

/// The row at which a curve turns back along the columns lies between the
/// lowest and the highest of the rows of its three points.
pub proof fn lemma_x_turn_row_within(curve: Curve)
    requires
        curve.turns_in_x(),
    ensures
        lower(lower(curve.y0, curve.cy), curve.y1) <= curve.x_turn_row() <= higher(
            higher(curve.y0, curve.cy),
            curve.y1,
        ),
{
    let a = curve.x0 - curve.cx;
    let b = curve.x1 - curve.cx;
    let whole = curve.x0 - 2 * curve.cx + curve.x1;
    let aa = a * a;
    let ab = a * b;
    let bb = b * b;
    let low = lower(lower(curve.y0, curve.cy), curve.y1);
    let high = higher(higher(curve.y0, curve.cy), curve.y1);
    let numerator = (whole - a) * ((whole - a) * curve.y0 + 2 * a * curve.cy) + a * a * curve.y1;
    assert(aa >= 0 && bb >= 0 && ab > 0) by (nonlinear_arith)
        requires
            a * b > 0,
            aa == a * a,
            bb == b * b,
            ab == a * b,
    ;
    assert(whole * whole == aa + 2 * ab + bb) by (nonlinear_arith)
        requires
            whole == a + b,
            aa == a * a,
            bb == b * b,
            ab == a * b,
    ;
    assert(numerator == bb * curve.y0 + 2 * ab * curve.cy + aa * curve.y1) by (nonlinear_arith)
        requires
            numerator == (whole - a) * ((whole - a) * curve.y0 + 2 * a * curve.cy) + a * a
                * curve.y1,
            whole - a == b,
            aa == a * a,
            bb == b * b,
            ab == a * b,
    ;
    assert(low * (aa + 2 * ab + bb) <= bb * curve.y0 + 2 * ab * curve.cy + aa * curve.y1 <= high
        * (aa + 2 * ab + bb)) by (nonlinear_arith)
        requires
            aa >= 0,
            bb >= 0,
            ab > 0,
            low <= curve.y0 <= high,
            low <= curve.cy <= high,
            low <= curve.y1 <= high,
    ;
    lemma_nearest_ratio_within(numerator, whole * whole, low, high);
}

/// The two pieces of a curve that is cut where it turns back along the
/// columns lie within reach where the curve does.
pub proof fn lemma_x_turn_within_reach(curve: Curve)
    requires
        curve.within_reach(),
        curve.turns_in_x(),
    ensures
        curve.before_x_turn().within_reach(),
        curve.after_x_turn().within_reach(),
{
    lemma_x_turn_near_start(curve);
    lemma_x_turn_row_within(curve);
    let reversed = curve.reversed();
    assert(reversed.turns_in_x()) by (nonlinear_arith)
        requires
            (curve.x0 - curve.cx) * (curve.x1 - curve.cx) > 0,
            reversed.x0 == curve.x1,
            reversed.x1 == curve.x0,
            reversed.cx == curve.cx,
    ;
    lemma_x_turn_near_start(reversed);
    assert(reversed.x0 * reversed.x1 == curve.x0 * curve.x1) by (nonlinear_arith)
        requires
            reversed.x0 == curve.x1,
            reversed.x1 == curve.x0,
    ;
    assert(reversed.x_turn_control(reversed.x0, reversed.y0) == curve.x_turn_control(
        curve.x1,
        curve.y1,
    ));
}

/// The two pieces of a curve that is cut where it turns back along the
/// rows lie within reach where the curve does.
pub proof fn lemma_y_turn_within_reach(curve: Curve)
    requires
        curve.within_reach(),
        curve.turns_in_y(),
    ensures
        curve.before_y_turn().within_reach(),
        curve.after_y_turn().within_reach(),
{
    lemma_x_turn_within_reach(curve.transposed());
}

/// What holds of the cells of a run that leads from `(x0, y0)` to
/// `(x1, y1)`: there are some, the first is the one and the last is the
/// other.
pub open spec fn leads(cells: Seq<(int, int)>, x0: int, y0: int, x1: int, y1: int) -> bool {
    cells.len() > 0 && cells.first() == (x0, y0) && cells.last() == (x1, y1)
}

/// A run of cells holds its first and its last cell, whichever way it
/// leads.
pub proof fn lemma_leads_holds(cells: Seq<(int, int)>, x0: int, y0: int, x1: int, y1: int)
    requires
        leads(cells, x0, y0, x1, y1) || leads(cells, x1, y1, x0, y0),
    ensures
        cells.contains((x0, y0)),
        cells.contains((x1, y1)),
{
    assert(cells[0] == cells.first());
    assert(cells[cells.len() - 1] == cells.last());
}

/// Two runs of cells, one after the other, hold what either holds.
pub proof fn lemma_joined_holds(first: Seq<(int, int)>, second: Seq<(int, int)>, x: int, y: int)
    requires
        first.contains((x, y)) || second.contains((x, y)),
    ensures
        (first + second).contains((x, y)),
{
    if first.contains((x, y)) {
        let i = choose|i: int| 0 <= i < first.len() && first[i] == (x, y);
        assert((first + second)[i] == (x, y));
    } else {
        let i = choose|i: int| 0 <= i < second.len() && second[i] == (x, y);
        assert((first + second)[first.len() + i] == (x, y));
    }
}

/// A straight line leads from its first end to its second.
pub proof fn lemma_line_leads(x0: int, y0: int, x1: int, y1: int)
    ensures
        leads(line_points(x0, y0, x1, y1), x0, y0, x1, y1),
{
    lemma_line_starts(x0, y0, x1, y1);
    lemma_line_ends(x0, y0, x1, y1);
}

/// The walk of an arc leads from the cell it stands at to the end of the
/// arc.
pub proof fn lemma_arc_walk_leads(arc: Arc, state: ArcState, budget: nat)
    ensures
        leads(arc_walk(arc, state, budget), state.x, state.y, arc.end_x, arc.end_y),
    decreases budget,
{
    lemma_line_leads(state.x, state.y, arc.end_x, arc.end_y);
    if state.dy > state.dx || budget == 0 {
    } else if state.x == arc.end_x && state.y == arc.end_y {
    } else {
        let next = arc_next(arc, state);
        let rest = if next.x == state.x && next.y == state.y {
            line_points(state.x, state.y, arc.end_x, arc.end_y)
        } else {
            arc_walk(arc, next, (budget - 1) as nat)
        };
        if !(next.x == state.x && next.y == state.y) {
            lemma_arc_walk_leads(arc, next, (budget - 1) as nat);
        }
        let walk = seq![(state.x, state.y)] + rest;
        assert(walk.first() == (state.x, state.y));
        assert(walk.last() == rest.last());
    }
}

/// A piece of a curve holds the cell of its start and the cell of its end.
pub proof fn lemma_piece_holds_ends(piece: Curve)
    ensures
        piece.piece_points().contains((piece.x0, piece.y0)),
        piece.piece_points().contains((piece.x1, piece.y1)),
{
    if piece.bends_one_way() {
        let walked = piece.walked();
        if walked.bend() == 0 {
            lemma_line_leads(walked.x0, walked.y0, walked.x1, walked.y1);
        } else {
            lemma_arc_walk_leads(walked.arc(), walked.start(), walked.budget());
        }
        lemma_leads_holds(piece.arc_points(), piece.x0, piece.y0, piece.x1, piece.y1);
    } else {
        lemma_line_leads(piece.x0, piece.y0, piece.x1, piece.y1);
        lemma_leads_holds(piece.piece_points(), piece.x0, piece.y0, piece.x1, piece.y1);
    }
}

/// What is left of a curve after its turn along the columns holds the cell
/// of its start and the cell of its end.
pub proof fn lemma_rest_holds_ends(rest: Curve)
    ensures
        rest.points_after_x_turn().contains((rest.x0, rest.y0)),
        rest.points_after_x_turn().contains((rest.x1, rest.y1)),
{
    if rest.turns_in_y() {
        let first = rest.before_y_turn();
        let second = rest.after_y_turn();
        lemma_piece_holds_ends(first);
        lemma_piece_holds_ends(second);
        lemma_joined_holds(first.piece_points(), second.piece_points(), rest.x0, rest.y0);
        lemma_joined_holds(first.piece_points(), second.piece_points(), rest.x1, rest.y1);
    } else {
        lemma_piece_holds_ends(rest);
    }
}

/// A curve passes through the cell of its start and through the cell of its
/// end.
pub proof fn lemma_curve_holds_ends(curve: Curve)
    ensures
        curve.points().contains((curve.x0, curve.y0)),
        curve.points().contains((curve.x1, curve.y1)),
{
    if curve.turns_in_x() {
        let oriented = curve.oriented();
        let first = oriented.before_x_turn();
        let rest = oriented.after_x_turn();
        lemma_piece_holds_ends(first);
        lemma_rest_holds_ends(rest);
        lemma_joined_holds(
            first.piece_points(),
            rest.points_after_x_turn(),
            oriented.x0,
            oriented.y0,
        );
        lemma_joined_holds(
            first.piece_points(),
            rest.points_after_x_turn(),
            oriented.x1,
            oriented.y1,
        );
    } else {
        lemma_rest_holds_ends(curve);
    }
}

/// The walk of an arc has no gap.
pub proof fn lemma_arc_walk_unbroken(arc: Arc, state: ArcState, budget: nat)
    requires
        arc.step_x == 1 || arc.step_x == -1,
        arc.step_y == 1 || arc.step_y == -1,
    ensures
        unbroken(arc_walk(arc, state, budget)),
    decreases budget,
{
    lemma_line_unbroken(state.x, state.y, arc.end_x, arc.end_y);
    lemma_line_starts(state.x, state.y, arc.end_x, arc.end_y);
    if state.dy > state.dx || budget == 0 {
    } else if state.x == arc.end_x && state.y == arc.end_y {
    } else {
        let next = arc_next(arc, state);
        if next.x == state.x && next.y == state.y {
            lemma_unbroken_after(
                (state.x, state.y),
                line_points(state.x, state.y, arc.end_x, arc.end_y),
            );
        } else {
            lemma_arc_walk_unbroken(arc, next, (budget - 1) as nat);
            lemma_arc_walk_leads(arc, next, (budget - 1) as nat);
            lemma_unbroken_after((state.x, state.y), arc_walk(arc, next, (budget - 1) as nat));
        }
    }
}

/// A piece of a curve has no gap: its cells are a run, each next to the one
/// before it, from one of its ends to the other.
pub proof fn lemma_piece_unbroken(piece: Curve)
    ensures
        unbroken(piece.piece_points()),
        leads(piece.piece_points(), piece.x0, piece.y0, piece.x1, piece.y1) || leads(
            piece.piece_points(),
            piece.x1,
            piece.y1,
            piece.x0,
            piece.y0,
        ),
{
    if piece.bends_one_way() {
        let walked = piece.walked();
        if walked.bend() == 0 {
            lemma_line_unbroken(walked.x0, walked.y0, walked.x1, walked.y1);
            lemma_line_leads(walked.x0, walked.y0, walked.x1, walked.y1);
        } else {
            lemma_arc_walk_unbroken(walked.arc(), walked.start(), walked.budget());
            lemma_arc_walk_leads(walked.arc(), walked.start(), walked.budget());
        }
    } else {
        lemma_line_unbroken(piece.x0, piece.y0, piece.x1, piece.y1);
        lemma_line_leads(piece.x0, piece.y0, piece.x1, piece.y1);
    }
}

/// The pieces of a curve meet: each piece ends at the cell at which the next
/// one starts, the first starts at the start of the curve as it is drawn,
/// and the last ends at its end.
pub proof fn lemma_pieces_meet(curve: Curve)
    ensures
        curve.turns_in_x() ==> ({
            let drawn = curve.oriented();
            &&& drawn.before_x_turn().x0 == drawn.x0 && drawn.before_x_turn().y0 == drawn.y0
            &&& drawn.before_x_turn().x1 == drawn.after_x_turn().x0
            &&& drawn.before_x_turn().y1 == drawn.after_x_turn().y0
            &&& drawn.after_x_turn().x1 == drawn.x1 && drawn.after_x_turn().y1 == drawn.y1
        }),
        curve.turns_in_y() ==> ({
            &&& curve.before_y_turn().x0 == curve.x0 && curve.before_y_turn().y0 == curve.y0
            &&& curve.before_y_turn().x1 == curve.after_y_turn().x0
            &&& curve.before_y_turn().y1 == curve.after_y_turn().y0
            &&& curve.after_y_turn().x1 == curve.x1 && curve.after_y_turn().y1 == curve.y1
        }),
{
}

} // verus!
