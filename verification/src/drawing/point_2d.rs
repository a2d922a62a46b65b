use vstd::prelude::*;

verus! {

/// A position on the integer grid. Coordinates are signed: a shape may pass
/// through positions left of or above the origin.
#[derive(Hash, Debug, Copy, Clone, PartialEq, Eq, Structural)]
pub struct Point2d {
    pub x: i32,
    pub y: i32,
}

impl Point2d {
    pub fn new(x: i32, y: i32) -> (point: Point2d)
        ensures
            point == (Point2d { x, y }),
    {
        Point2d { x, y }
    }

    /// The origin.
    pub fn empty() -> (point: Point2d)
        ensures
            point == (Point2d { x: 0, y: 0 }),
    {
        Point2d { x: 0, y: 0 }
    }

    /// The componentwise sum of two positions.
    pub fn add(&self, point: Point2d) -> (sum: Point2d)
        requires
            i32::MIN <= self.x + point.x <= i32::MAX,
            i32::MIN <= self.y + point.y <= i32::MAX,
        ensures
            sum.x == self.x + point.x,
            sum.y == self.y + point.y,
    {
        Point2d::new(self.x + point.x, self.y + point.y)
    }

    pub fn add_x(&self, x: i32) -> (sum: Point2d)
        requires
            i32::MIN <= self.x + x <= i32::MAX,
        ensures
            sum.x == self.x + x,
            sum.y == self.y,
    {
        Point2d::new(self.x + x, self.y)
    }

    pub fn add_y(&self, y: i32) -> (sum: Point2d)
        requires
            i32::MIN <= self.y + y <= i32::MAX,
        ensures
            sum.x == self.x,
            sum.y == self.y + y,
    {
        Point2d::new(self.x, self.y + y)
    }

    pub fn equal_to(&self, point: Point2d) -> (equal: bool)
        ensures
            equal == (*self == point),
    {
        self.x == point.x && self.y == point.y
    }

    /// Whether this is the origin.
    pub fn is_empty(&self) -> (empty: bool)
        ensures
            empty == (self.x == 0 && self.y == 0),
    {
        self.x == 0 && self.y == 0
    }
}

} // verus!
