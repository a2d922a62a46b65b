use vstd::prelude::*;
use crate::drawing::cell_buffer::CellBuffer;
use crate::drawing::point_2d::Point2d;
use crate::drawing::size_2d::Size2d;
use crate::Result;

verus! {

/// The screen of a platform.
pub trait Terminal {
    /// Shows or hides the cursor.
    fn set_cursor_visibility(&mut self, visible: bool) -> Result<()>;

    /// Moves the cursor to `position`.
    fn set_cursor(&mut self, position: Point2d) -> Result<()>;

    /// The extent of the screen in cells.
    fn get_console_size(&self) -> Result<Size2d>;

    /// Clears the screen.
    fn clear(&mut self) -> Result<()>;

    /// Shows the whole of `cell_buffer` on the screen.
    fn write(&mut self, cell_buffer: &CellBuffer) -> Result<()>;

    /// Gives back what the terminal holds of the platform.
    fn dispose(&mut self) -> Result<()>;
}

} // verus!
