use vstd::prelude::*;

verus! {

/// An extent in cells.
#[derive(Hash, Debug, Copy, Clone, PartialEq, Eq, Structural)]
pub struct Size2d {
    pub width: usize,
    pub height: usize,
}

impl Size2d {
    pub fn new(width: usize, height: usize) -> (size: Size2d)
        ensures
            size == (Size2d { width, height }),
    {
        Size2d { width, height }
    }

    /// The extent of nothing.
    pub fn empty() -> (size: Size2d)
        ensures
            size == (Size2d { width: 0, height: 0 }),
    {
        Size2d { width: 0, height: 0 }
    }

    /// The number of cells in a grid of this extent.
    pub open spec fn area(&self) -> nat {
        (self.width * self.height) as nat
    }

    /// The componentwise sum of two extents.
    pub fn add(&self, point: Size2d) -> (sum: Size2d)
        requires
            self.width + point.width <= usize::MAX,
            self.height + point.height <= usize::MAX,
        ensures
            sum.width == self.width + point.width,
            sum.height == self.height + point.height,
    {
        Size2d::new(self.width + point.width, self.height + point.height)
    }

    pub fn add_width(&self, width: usize) -> (sum: Size2d)
        requires
            self.width + width <= usize::MAX,
        ensures
            sum.width == self.width + width,
            sum.height == self.height,
    {
        Size2d::new(self.width + width, self.height)
    }

    pub fn add_height(&self, height: usize) -> (sum: Size2d)
        requires
            self.height + height <= usize::MAX,
        ensures
            sum.width == self.width,
            sum.height == self.height + height,
    {
        Size2d::new(self.width, self.height + height)
    }

    pub fn equal_to(&self, size: Size2d) -> (equal: bool)
        ensures
            equal == (*self == size),
    {
        self.width == size.width && self.height == size.height
    }

    /// Whether both dimensions are zero.
    pub fn is_empty(&self) -> (empty: bool)
        ensures
            empty == (self.width == 0 && self.height == 0),
    {
        self.width == 0 && self.height == 0
    }
}

} // verus!
