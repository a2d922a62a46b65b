use vstd::prelude::*;
use crate::drawing::canvas::{lemma_painted_joined, lemma_painted_push, painted_all, Canvas, Paint};
use crate::drawing::curves::{
    arc_next, arc_walk, lemma_x_turn_within_reach, lemma_y_turn_within_reach, nearest_ratio, Arc,
    ArcState, Curve, CURVE_REACH,
};
use crate::drawing::point_2d::Point2d;
use crate::drawing::shapes::{line_points, magnitude};
use crate::Result;

verus! {

pub const MISSING_BEZIER_STROKE: &'static str = "Can not draw a bezier line without a stroke.";

/// The three points of a curve.
#[derive(Copy, Clone)]
pub struct CurvePoints {
    pub x0: i128,
    pub y0: i128,
    pub x1: i128,
    pub y1: i128,
    pub cx: i128,
    pub cy: i128,
}

impl View for CurvePoints {
    type V = Curve;

    open spec fn view(&self) -> Curve {
        Curve {
            x0: self.x0 as int,
            y0: self.y0 as int,
            x1: self.x1 as int,
            y1: self.y1 as int,
            cx: self.cx as int,
            cy: self.cy as int,
        }
    }
}

/// A product is within the product of the bounds of its factors.
pub proof fn lemma_product_within(a: int, b: int, bound_a: int, bound_b: int)
    by (nonlinear_arith)
    requires
        -bound_a <= a <= bound_a,
        -bound_b <= b <= bound_b,
    ensures
        -(bound_a * bound_b) <= a * b <= bound_a * bound_b,
{
}

/// The whole number nearest to `numerator / denominator`, a half counting
/// upward.
fn rounded_ratio(numerator: i128, denominator: i128) -> (rounded: i128)
    requires
        denominator != 0,
        -0x1_0000_0000_0000_0000_0000_0000 <= numerator <= 0x1_0000_0000_0000_0000_0000_0000,
        -0x1_0000_0000_0000_0000_0000_0000 <= denominator <= 0x1_0000_0000_0000_0000_0000_0000,
    ensures
        rounded == nearest_ratio(numerator as int, denominator as int),
{
    let (n, d) = if denominator < 0 {
        (-numerator, -denominator)
    } else {
        (numerator, denominator)
    };
    let dividend = 2 * n + d;
    let divisor = 2 * d;
    if dividend >= 0 {
        let rounded = dividend / divisor;
        proof {
            vstd::arithmetic::div_mod::lemma_fundamental_div_mod(dividend as int, divisor as int);
        }
        rounded
    } else {
        let raised = -dividend + divisor - 1;
        let quotient = raised / divisor;
        proof {
            vstd::arithmetic::div_mod::lemma_fundamental_div_mod(raised as int, divisor as int);
            let remainder = raised as int % divisor as int;
            assert(dividend == (-quotient) * divisor + (divisor - 1 - remainder)) by (nonlinear_arith)
                requires
                    raised == divisor * quotient + remainder,
                    raised == -dividend + divisor - 1,
            ;
            vstd::arithmetic::div_mod::lemma_fundamental_div_mod_converse(
                dividend as int,
                divisor as int,
                -quotient,
                divisor - 1 - remainder,
            );
            assert(0 <= quotient <= raised) by (nonlinear_arith)
                requires
                    raised == divisor * quotient + remainder,
                    0 <= remainder,
                    divisor >= 2,
                    raised >= 0,
                    quotient >= 0,
            ;
        }
        -quotient
    }
}

impl CurvePoints {
    /// The curve with its ends exchanged.
    fn reversed(&self) -> (reversed: CurvePoints)
        ensures
            reversed@ == self@.reversed(),
    {
        CurvePoints {
            x0: self.x1,
            y0: self.y1,
            x1: self.x0,
            y1: self.y0,
            cx: self.cx,
            cy: self.cy,
        }
    }

    /// The curve with columns and rows exchanged.
    fn transposed(&self) -> (transposed: CurvePoints)
        ensures
            transposed@ == self@.transposed(),
    {
        CurvePoints {
            x0: self.y0,
            y0: self.x0,
            x1: self.y1,
            y1: self.x1,
            cx: self.cy,
            cy: self.cx,
        }
    }

    /// Whether the curve turns back along the columns.
    fn turns_in_x(&self) -> (turns: bool)
        requires
            self@.within_reach(),
        ensures
            turns == self@.turns_in_x(),
    {
        proof {
            lemma_product_within(
                self.x0 - self.cx,
                self.x1 - self.cx,
                0x200_0000,
                0x200_0000,
            );
        }
        (self.x0 - self.cx) * (self.x1 - self.cx) > 0
    }

    /// Whether the curve bends one way.
    fn bends_one_way(&self) -> (bends: bool)
        requires
            self@.within_reach(),
        ensures
            bends == self@.bends_one_way(),
    {
        proof {
            lemma_product_within(
                self.x0 - self.cx,
                self.x1 - self.cx,
                0x200_0000,
                0x200_0000,
            );
            lemma_product_within(
                self.y0 - self.cy,
                self.y1 - self.cy,
                0x200_0000,
                0x200_0000,
            );
        }
        (self.x0 - self.cx) * (self.x1 - self.cx) <= 0 && (self.y0 - self.cy) * (self.y1 - self.cy)
            <= 0
    }

    /// Whether the curve reaches, from its start, the turn along the rows
    /// first.
    fn turns_in_y_first(&self) -> (first: bool)
        requires
            self@.within_reach(),
        ensures
            first == self@.turns_in_y_first(),
    {
        proof {
            lemma_product_within(
                self.y0 - self.cy,
                self.y1 - self.cy,
                0x200_0000,
                0x200_0000,
            );
            lemma_product_within(
                self.y0 - 2 * self.cy + self.y1,
                self.x0 - self.cx,
                0x400_0000,
                0x200_0000,
            );
            lemma_product_within(
                magnitude(self.y0 - self.cy),
                magnitude(self.x0 - 2 * self.cx + self.x1),
                0x200_0000,
                0x400_0000,
            );
        }
        if (self.y0 - self.cy) * (self.y1 - self.cy) > 0 {
            let bent = (self.y0 - 2 * self.cy + self.y1) * (self.x0 - self.cx);
            let bent = if bent < 0 {
                -bent
            } else {
                bent
            };
            let rise = if self.y0 - self.cy < 0 {
                -(self.y0 - self.cy)
            } else {
                self.y0 - self.cy
            };
            let whole = self.x0 - 2 * self.cx + self.x1;
            let whole = if whole < 0 {
                -whole
            } else {
                whole
            };
            bent > rise * whole
        } else {
            false
        }
    }

    /// The row at which the line from the point `(x, y)` of the curve to
    /// its control point meets the column at which the curve turns back.
    #[verifier::rlimit(50)]
    fn x_turn_control(&self, x: i128, y: i128) -> (row: i128)
        requires
            self@.within_reach(),
            -CURVE_REACH <= x <= CURVE_REACH,
            -CURVE_REACH <= y <= CURVE_REACH,
            (self.x0 - 2 * self.cx + self.x1) * (self.cx - x) != 0,
        ensures
            row == self@.x_turn_control(x as int, y as int),
    {
        let whole = self.x0 - 2 * self.cx + self.x1;
        proof {
            lemma_product_within(self.x0 as int, self.x1 as int, 0x100_0000, 0x100_0000);
            lemma_product_within(self.cx as int, self.cx as int, 0x100_0000, 0x100_0000);
            lemma_product_within(x as int, whole as int, 0x100_0000, 0x400_0000);
            lemma_product_within(whole as int, self.cx - x, 0x400_0000, 0x200_0000);
            lemma_product_within(
                self.cy - y,
                (self.x0 * self.x1 - self.cx * self.cx) - x * whole,
                0x200_0000,
                0x8_0000_0000_0000,
            );
            lemma_product_within(
                y as int,
                whole * (self.cx - x),
                0x100_0000,
                0x8_0000_0000_0000,
            );
        }
        let across = self.x0 * self.x1 - self.cx * self.cx;
        let lever = whole * (self.cx - x);
        rounded_ratio((self.cy - y) * (across - x * whole) + y * lever, lever)
    }

    /// Cuts a curve that turns back along the columns at the turn.
    #[verifier::rlimit(50)]
    fn cut_at_x_turn(&self) -> (cut: (CurvePoints, CurvePoints))
        requires
            self@.within_reach(),
            self@.turns_in_x(),
        ensures
            cut.0@ == self@.before_x_turn(),
            cut.1@ == self@.after_x_turn(),
    {
        let whole = self.x0 - 2 * self.cx + self.x1;
        let part = self.x0 - self.cx;
        let other = whole - part;
        proof {
            assert(whole != 0 && part != 0 && other != 0) by (nonlinear_arith)
                requires
                    part * other > 0,
                    whole == part + other,
            ;
            assert(whole * (self.cx - self.x0) != 0 && whole * (self.cx - self.x1) != 0)
                by (nonlinear_arith)
                requires
                    whole != 0,
                    part != 0,
                    other != 0,
                    part == self.x0 - self.cx,
                    other == self.x1 - self.cx,
            ;
            assert(whole * whole > 0) by (nonlinear_arith)
                requires
                    whole != 0,
            ;
            lemma_product_within(self.x0 as int, self.x1 as int, 0x100_0000, 0x100_0000);
            lemma_product_within(self.cx as int, self.cx as int, 0x100_0000, 0x100_0000);
            lemma_product_within(other as int, self.y0 as int, 0x200_0000, 0x100_0000);
            lemma_product_within(2 * part, self.cy as int, 0x400_0000, 0x100_0000);
            lemma_product_within(
                other as int,
                other * self.y0 + 2 * part * self.cy,
                0x200_0000,
                0x6_0000_0000_0000,
            );
            lemma_product_within(part as int, part as int, 0x200_0000, 0x200_0000);
            lemma_product_within(part * part, self.y1 as int, 0x4_0000_0000_0000, 0x100_0000);
            lemma_product_within(whole as int, whole as int, 0x400_0000, 0x400_0000);
        }
        let column = rounded_ratio(self.x0 * self.x1 - self.cx * self.cx, whole);
        let row = rounded_ratio(
            other * (other * self.y0 + 2 * part * self.cy) + part * part * self.y1,
            whole * whole,
        );
        let before = self.x_turn_control(self.x0, self.y0);
        let after = self.x_turn_control(self.x1, self.y1);
        (
            CurvePoints { x0: self.x0, y0: self.y0, x1: column, y1: row, cx: column, cy: before },
            CurvePoints { x0: column, y0: row, x1: self.x1, y1: self.y1, cx: column, cy: after },
        )
    }
}

/// The walk of an arc: what it is walked by, where it stands, and how many
/// cells it may take.
#[derive(Copy, Clone)]
pub struct Walk {
    pub x: i128,
    pub y: i128,
    pub dx: i128,
    pub dy: i128,
    pub err: i128,
    pub end_x: i128,
    pub end_y: i128,
    pub step_x: i128,
    pub step_y: i128,
    pub xx: i128,
    pub yy: i128,
    pub xy: i128,
    pub budget: i128,
}

impl Walk {
    /// What the arc is walked by.
    pub open spec fn arc(&self) -> Arc {
        Arc {
            end_x: self.end_x as int,
            end_y: self.end_y as int,
            step_x: self.step_x as int,
            step_y: self.step_y as int,
            xx: self.xx as int,
            yy: self.yy as int,
            xy: self.xy as int,
        }
    }

    /// Where the walk stands.
    pub open spec fn state(&self) -> ArcState {
        ArcState {
            x: self.x as int,
            y: self.y as int,
            dx: self.dx as int,
            dy: self.dy as int,
            err: self.err as int,
        }
    }

    /// The walk is at its start, with all its numbers small enough to be
    /// carried through as many cells as it may take.
    pub open spec fn ready(&self) -> bool {
        &&& self.step_x == 1 || self.step_x == -1
        &&& self.step_y == 1 || self.step_y == -1
        &&& -0x40_0000_0000_0000 <= self.xx <= 0x40_0000_0000_0000
        &&& -0x40_0000_0000_0000 <= self.yy <= 0x40_0000_0000_0000
        &&& -0x40_0000_0000_0000 <= self.xy <= 0x40_0000_0000_0000
        &&& -0x1_0000_0000_0000_0000_0000 <= self.dx <= 0x1_0000_0000_0000_0000_0000
        &&& -0x1_0000_0000_0000_0000_0000 <= self.dy <= 0x1_0000_0000_0000_0000_0000
        &&& -0x4_0000_0000_0000_0000_0000 <= self.err <= 0x4_0000_0000_0000_0000_0000
        &&& -CURVE_REACH <= self.x <= CURVE_REACH
        &&& -CURVE_REACH <= self.y <= CURVE_REACH
        &&& -CURVE_REACH <= self.end_x <= CURVE_REACH
        &&& -CURVE_REACH <= self.end_y <= CURVE_REACH
        &&& 0 <= self.budget <= 0x400_0001
    }
}

impl CurvePoints {
    /// Whether the end of the curve lies further from its control point
    /// than its start.
    fn ends_further(&self) -> (further: bool)
        requires
            self@.within_reach(),
        ensures
            further == self@.ends_further(),
    {
        proof {
            lemma_product_within(self.x1 - self.cx, self.x1 - self.cx, 0x200_0000, 0x200_0000);
            lemma_product_within(self.y1 - self.cy, self.y1 - self.cy, 0x200_0000, 0x200_0000);
            lemma_product_within(self.x0 - self.cx, self.x0 - self.cx, 0x200_0000, 0x200_0000);
            lemma_product_within(self.y0 - self.cy, self.y0 - self.cy, 0x200_0000, 0x200_0000);
        }
        (self.x1 - self.cx) * (self.x1 - self.cx) + (self.y1 - self.cy) * (self.y1 - self.cy) > (
        self.x0 - self.cx) * (self.x0 - self.cx) + (self.y0 - self.cy) * (self.y0 - self.cy)
    }

    /// Twice the area of the triangle of the three points, with the sign of
    /// the side to which the curve bends.
    fn bend(&self) -> (bend: i128)
        requires
            self@.within_reach(),
        ensures
            bend == self@.bend(),
            -0x8_0000_0000_0000 <= bend <= 0x8_0000_0000_0000,
    {
        proof {
            lemma_product_within(self.x0 - self.cx, self.y1 - self.cy, 0x200_0000, 0x200_0000);
            lemma_product_within(self.y0 - self.cy, self.x1 - self.cx, 0x200_0000, 0x200_0000);
        }
        (self.x0 - self.cx) * (self.y1 - self.cy) - (self.y0 - self.cy) * (self.x1 - self.cx)
    }

    /// The walk of the curve at its start.
    #[verifier::rlimit(50)]
    fn begin_walk(&self) -> (walk: Walk)
        requires
            self@.within_reach(),
        ensures
            walk.arc() == self@.arc(),
            walk.state() == self@.start(),
            walk.budget == self@.budget(),
            walk.ready(),
    {
        let bend = self.bend();
        let forward_x = self.x0 < self.x1;
        let forward_y = self.y0 < self.y1;
        let across = self.x0 - 2 * self.cx + self.x1;
        let along = self.y0 - 2 * self.cy + self.y1;
        let forward = turn(turn(bend, forward_x), forward_y) >= 0;
        let across_squared = product(across, across, Ghost(0x400_0000), Ghost(0x400_0000));
        let along_squared = product(along, along, Ghost(0x400_0000), Ghost(0x400_0000));
        let mixed = product(across, along, Ghost(0x400_0000), Ghost(0x400_0000));
        let pull_x = product(bend, self.cx - self.x0, Ghost(0x8_0000_0000_0000), Ghost(0x200_0000));
        let pull_y = product(bend, self.y0 - self.cy, Ghost(0x8_0000_0000_0000), Ghost(0x200_0000));
        let xx = turn(2 * across_squared, forward);
        let yy = turn(2 * along_squared, forward);
        let xy = turn(turn(turn(2 * mixed, forward_x), forward_y), forward);
        let dx = turn(turn(4 * pull_x, forward_y), forward) + turn(across_squared, forward) - xy;
        let dy = turn(turn(4 * pull_y, forward_x), forward) + turn(along_squared, forward) - xy;
        let span_x = if self.x1 >= self.x0 {
            self.x1 - self.x0
        } else {
            self.x0 - self.x1
        };
        let span_y = if self.y1 >= self.y0 {
            self.y1 - self.y0
        } else {
            self.y0 - self.y1
        };
        Walk {
            x: self.x0,
            y: self.y0,
            dx,
            dy,
            err: dx + dy + xy,
            end_x: self.x1,
            end_y: self.y1,
            step_x: if forward_x {
                1
            } else {
                -1
            },
            step_y: if forward_y {
                1
            } else {
                -1
            },
            xx,
            yy,
            xy,
            budget: span_x + span_y + 1,
        }
    }
}

/// The product of two numbers that lie within the bounds `first_bound` and
/// `second_bound`.
fn product(
    first: i128,
    second: i128,
    Ghost(first_bound): Ghost<int>,
    Ghost(second_bound): Ghost<int>,
) -> (product: i128)
    requires
        -first_bound <= first <= first_bound,
        -second_bound <= second <= second_bound,
        first_bound * second_bound <= 0x1000_0000_0000_0000_0000_0000_0000,
    ensures
        product == first * second,
        -(first_bound * second_bound) <= product <= first_bound * second_bound,
{
    proof {
        lemma_product_within(first as int, second as int, first_bound, second_bound);
    }
    first * second
}

/// `value`, or its opposite where `keep` does not hold.
fn turn(value: i128, keep: bool) -> (turned: i128)
    requires
        value > i128::MIN,
    ensures
        turned == if keep {
            value as int
        } else {
            -value
        },
{
    if keep {
        value
    } else {
        -value
    }
}

impl<'a, S: Paint + ?Sized, F: Paint + ?Sized> Canvas<'a, S, F> {
    /// Draws the straight line from `(x0, y0)` to `(x1, y1)`, both ends
    /// included.
    fn stroke_line(&mut self, x0: i128, y0: i128, x1: i128, y1: i128)
        requires
            old(self).wf(),
            old(self).stroke is Some,
            i32::MIN <= x0 <= i32::MAX,
            i32::MIN <= y0 <= i32::MAX,
            i32::MIN <= x1 <= i32::MAX,
            i32::MIN <= y1 <= i32::MAX,
        ensures
            final(self).wf(),
            final(self).set_as(old(self)),
            *final(final(self).cell_buffer) == *final(old(self).cell_buffer),
            final(self).cell_buffer@ == painted_all(
                old(self).stroke->0,
                old(self).cell_buffer.size,
                old(self).cell_buffer@,
                line_points(x0 as int, y0 as int, x1 as int, y1 as int),
            ),
    {
        self.move_to(Point2d::new(x0 as i32, y0 as i32));
        let _ = self.line_to(Point2d::new(x1 as i32, y1 as i32));
    }

    /// Walks an arc cell by cell, from where `walk` stands to its end.
    #[verifier::rlimit(60)]
    fn walk_arc(&mut self, walk: Walk)
        requires
            old(self).wf(),
            old(self).stroke is Some,
            walk.ready(),
        ensures
            final(self).wf(),
            final(self).set_as(old(self)),
            *final(final(self).cell_buffer) == *final(old(self).cell_buffer),
            final(self).cell_buffer@ == painted_all(
                old(self).stroke->0,
                old(self).cell_buffer.size,
                old(self).cell_buffer@,
                arc_walk(walk.arc(), walk.state(), walk.budget as nat),
            ),
    {
        let stroke = match self.stroke {
            Some(stroke) => stroke,
            None => {
                return ;
            },
        };
        let ghost size = self.cell_buffer.size;
        let ghost before = self.cell_buffer@;
        let ghost arc = walk.arc();
        let ghost all = arc_walk(arc, walk.state(), walk.budget as nat);
        let ghost mut done: Seq<(int, int)> = Seq::empty();
        let step_x = walk.step_x;
        let step_y = walk.step_y;
        let xx = walk.xx;
        let yy = walk.yy;
        let xy = walk.xy;
        let budget = walk.budget;
        let mut x = walk.x;
        let mut y = walk.y;
        let mut dx = walk.dx;
        let mut dy = walk.dy;
        let mut err = walk.err;
        let mut left = budget;
        proof {
            assert(done + all =~= all);
        }
        loop
            invariant_except_break
                all == done + arc_walk(
                    arc,
                    (ArcState {
                        x: x as int,
                        y: y as int,
                        dx: dx as int,
                        dy: dy as int,
                        err: err as int,
                    }),
                    left as nat,
                ),
            invariant
                self.wf(),
                self.set_as(old(self)),
                self.cell_buffer.size == size,
                *final(self.cell_buffer) == *final(old(self).cell_buffer),
                old(self).stroke == Some(stroke),
                before == old(self).cell_buffer@,
                size == old(self).cell_buffer.size,
                all == arc_walk(walk.arc(), walk.state(), walk.budget as nat),
                arc == walk.arc(),
                step_x == walk.step_x,
                step_y == walk.step_y,
                xx == walk.xx,
                yy == walk.yy,
                xy == walk.xy,
                budget == walk.budget,
                walk.ready(),
                0 <= left <= budget,
                walk.x - (budget - left) <= x <= walk.x + (budget - left),
                walk.y - (budget - left) <= y <= walk.y + (budget - left),
                -0x1_0000_0000_0000_0000_0000 - (budget - left) * 0x80_0000_0000_0000 <= dx
                    <= 0x1_0000_0000_0000_0000_0000 + (budget - left) * 0x80_0000_0000_0000,
                -0x1_0000_0000_0000_0000_0000 - (budget - left) * 0x80_0000_0000_0000 <= dy
                    <= 0x1_0000_0000_0000_0000_0000 + (budget - left) * 0x80_0000_0000_0000,
                -0x4_0000_0000_0000_0000_0000 - (budget - left) * 0x10_0000_0000_0000_0000_0000
                    <= err <= 0x4_0000_0000_0000_0000_0000 + (budget - left)
                    * 0x10_0000_0000_0000_0000_0000,
                self.cell_buffer@ == painted_all(stroke, size, before, done),
            ensures
                all == done + line_points(x as int, y as int, walk.end_x as int, walk.end_y as int),
                i32::MIN <= x <= i32::MAX,
                i32::MIN <= y <= i32::MAX,
            decreases left,
        {
            let ghost state = ArcState {
                x: x as int,
                y: y as int,
                dx: dx as int,
                dy: dy as int,
                err: err as int,
            };
            if dy > dx || left == 0 {
                break ;
            }
            proof {
                lemma_painted_push(stroke, size, before, done, x as int, y as int);
            }
            self.touch(stroke, x as i64, y as i64);
            if x == walk.end_x && y == walk.end_y {
                proof {
                    assert(all =~= done.push((x as int, y as int)));
                }
                return ;
            }
            let from_x = x;
            let from_y = y;
            if 2 * err > dy {
                x += step_x;
                dx -= xy;
                dy += yy;
                err += dy;
            }
            if 2 * err < dx {
                y += step_y;
                dy -= xy;
                dx += xx;
                err += dx;
            }
            let ghost next = ArcState {
                x: x as int,
                y: y as int,
                dx: dx as int,
                dy: dy as int,
                err: err as int,
            };
            proof {
                assert(next == arc_next(arc, state));
                let stood = done.push((from_x as int, from_y as int));
                assert(all =~= stood + (if next.x == state.x && next.y == state.y {
                    line_points(state.x, state.y, arc.end_x, arc.end_y)
                } else {
                    arc_walk(arc, next, (left - 1) as nat)
                }));
                done = stood;
            }
            if x == from_x && y == from_y {
                break ;
            }
            left -= 1;
        }
        self.stroke_line(x, y, walk.end_x, walk.end_y);
        proof {
            lemma_painted_joined(
                stroke,
                size,
                before,
                done,
                line_points(x as int, y as int, walk.end_x as int, walk.end_y as int),
            );
        }
    }

    /// Draws a curve that bends one way: a straight line where its three
    /// points lie on one, and else an arc, walked cell by cell.
    fn bezier_segment(&mut self, curve: CurvePoints)
        requires
            old(self).wf(),
            old(self).stroke is Some,
            curve@.within_reach(),
        ensures
            final(self).wf(),
            final(self).set_as(old(self)),
            *final(final(self).cell_buffer) == *final(old(self).cell_buffer),
            final(self).cell_buffer@ == painted_all(
                old(self).stroke->0,
                old(self).cell_buffer.size,
                old(self).cell_buffer@,
                curve@.arc_points(),
            ),
    {
        let walked = if curve.ends_further() {
            curve.reversed()
        } else {
            curve
        };
        if walked.bend() == 0 {
            self.stroke_line(walked.x0, walked.y0, walked.x1, walked.y1);
        } else {
            let walk = walked.begin_walk();
            self.walk_arc(walk);
        }
    }

    /// Draws a piece of a curve: an arc, where the piece bends one way, and
    /// else the straight line from its start to its end.
    fn draw_piece(&mut self, piece: CurvePoints)
        requires
            old(self).wf(),
            old(self).stroke is Some,
            piece@.within_reach(),
        ensures
            final(self).wf(),
            final(self).set_as(old(self)),
            *final(final(self).cell_buffer) == *final(old(self).cell_buffer),
            final(self).cell_buffer@ == painted_all(
                old(self).stroke->0,
                old(self).cell_buffer.size,
                old(self).cell_buffer@,
                piece@.piece_points(),
            ),
    {
        if piece.bends_one_way() {
            self.bezier_segment(piece);
        } else {
            self.stroke_line(piece.x0, piece.y0, piece.x1, piece.y1);
        }
    }

    /// Draws what is left of a curve once it has been cut where it turns
    /// back along the columns.
    fn draw_after_x_turn(&mut self, rest: CurvePoints)
        requires
            old(self).wf(),
            old(self).stroke is Some,
            rest@.within_reach(),
        ensures
            final(self).wf(),
            final(self).set_as(old(self)),
            *final(final(self).cell_buffer) == *final(old(self).cell_buffer),
            final(self).cell_buffer@ == painted_all(
                old(self).stroke->0,
                old(self).cell_buffer.size,
                old(self).cell_buffer@,
                rest@.points_after_x_turn(),
            ),
    {
        let ghost size = self.cell_buffer.size;
        let ghost before = self.cell_buffer@;
        let turned = rest.transposed();
        assert(turned@.within_reach());
        if turned.turns_in_x() {
            proof {
                lemma_y_turn_within_reach(rest@);
            }
            let (first, second) = turned.cut_at_x_turn();
            let first = first.transposed();
            let second = second.transposed();
            self.draw_piece(first);
            self.draw_piece(second);
            proof {
                lemma_painted_joined(
                    old(self).stroke->0,
                    size,
                    before,
                    first@.piece_points(),
                    second@.piece_points(),
                );
            }
        } else {
            self.draw_piece(rest);
        }
    }

    /// Draws the curve from the pen to `position` that bends towards
    /// `control_point`, and leaves the pen at `position`. The curve starts at
    /// the cell of the pen and ends at the cell of `position`. Without a
    /// stroke paint nothing is drawn and the pen stays.
    pub fn bezier_to(&mut self, position: Point2d, control_point: Point2d) -> (result: Result<()>)
        requires
            old(self).wf(),
            old(self).stroke is Some ==> (Curve {
                x0: old(self).position.x as int,
                y0: old(self).position.y as int,
                x1: position.x as int,
                y1: position.y as int,
                cx: control_point.x as int,
                cy: control_point.y as int,
            }).within_reach(),
        ensures
            final(self).wf(),
            final(self).set_as(old(self)),
            *final(final(self).cell_buffer) == *final(old(self).cell_buffer),
            match old(self).stroke {
                Some(stroke) => {
                    &&& result == Ok::<(), &'static str>(())
                    &&& final(self).position == position
                    &&& final(self).cell_buffer@ == painted_all(
                        stroke,
                        old(self).cell_buffer.size,
                        old(self).cell_buffer@,
                        (Curve {
                            x0: old(self).position.x as int,
                            y0: old(self).position.y as int,
                            x1: position.x as int,
                            y1: position.y as int,
                            cx: control_point.x as int,
                            cy: control_point.y as int,
                        }).points(),
                    )
                },
                None => {
                    &&& result == Err::<(), &'static str>(MISSING_BEZIER_STROKE)
                    &&& final(self).position == old(self).position
                    &&& final(self).cell_buffer@ == old(self).cell_buffer@
                },
            },
    {
        if self.stroke.is_none() {
            return Err(MISSING_BEZIER_STROKE);
        }
        let ghost size = self.cell_buffer.size;
        let ghost before = self.cell_buffer@;
        let curve = CurvePoints {
            x0: self.position.x as i128,
            y0: self.position.y as i128,
            x1: position.x as i128,
            y1: position.y as i128,
            cx: control_point.x as i128,
            cy: control_point.y as i128,
        };
        if curve.turns_in_x() {
            let oriented = if curve.turns_in_y_first() {
                curve.reversed()
            } else {
                curve
            };
            proof {
                lemma_x_turn_within_reach(oriented@);
            }
            let (first, rest) = oriented.cut_at_x_turn();
            self.draw_piece(first);
            self.draw_after_x_turn(rest);
            proof {
                lemma_painted_joined(
                    old(self).stroke->0,
                    size,
                    before,
                    first@.piece_points(),
                    rest@.points_after_x_turn(),
                );
            }
        } else {
            self.draw_after_x_turn(curve);
        }
        self.move_to(position);
        Ok(())
    }
}

} // verus!
