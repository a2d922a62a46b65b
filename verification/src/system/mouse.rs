use vstd::prelude::*;
use crate::drawing::point_2d::Point2d;
use crate::Result;

verus! {

/// What a platform knows of the mouse pointer.
pub trait Mouse {
    /// The place of the pointer on the screen.
    fn get_absolute_position(&self) -> Result<Point2d>;

    /// The place of the pointer within the window.
    fn get_client_position(&self) -> Result<Point2d>;

    /// Moves the pointer to `position`.
    fn set_position(&self, position: Point2d) -> Result<()>;

    /// Shows or hides the pointer.
    fn show_cursor(&self, visible: bool) -> Result<()>;
}

} // verus!
