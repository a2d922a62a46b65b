use vstd::prelude::*;
use crate::drawing::point_2d::Point2d;
use crate::drawing::size_2d::Size2d;
use crate::Result;

verus! {

/// What a platform knows of the window that shows the terminal.
pub trait Window {
    /// The extent of the inside of the window.
    fn get_window_client_size(&self) -> Result<Size2d>;

    /// The extent of the window.
    fn get_window_size(&self) -> Result<Size2d>;

    /// Gives the window the extent `size`.
    fn set_window_size(&self, size: Size2d) -> Result<()>;

    /// The place of the window on the screen.
    fn get_window_position(&self) -> Result<Point2d>;

    /// Moves the window to `position`.
    fn set_window_position(&self, position: Point2d) -> Result<()>;
}

} // verus!
