use vstd::prelude::*;
use crate::drawing::point_2d::Point2d;
use crate::system::mouse::Mouse;
use crate::Result;

verus! {

/// What every question about the mouse is answered with.
pub const MOUSE_NOT_AVAILABLE: &'static str = "The mouse is not available on this platform.";

/// The mouse of a curses terminal, which knows nothing of the pointer: every
/// question fails.
pub struct UnixMouse {}

impl UnixMouse {
    pub fn new() -> UnixMouse {
        UnixMouse {  }
    }
}

impl Mouse for UnixMouse {
    fn get_absolute_position(&self) -> (result: Result<Point2d>)
        ensures
            result == Err::<Point2d, &'static str>(MOUSE_NOT_AVAILABLE),
    {
        Err(MOUSE_NOT_AVAILABLE)
    }

    fn get_client_position(&self) -> (result: Result<Point2d>)
        ensures
            result == Err::<Point2d, &'static str>(MOUSE_NOT_AVAILABLE),
    {
        Err(MOUSE_NOT_AVAILABLE)
    }

    fn set_position(&self, position: Point2d) -> (result: Result<()>)
        ensures
            result == Err::<(), &'static str>(MOUSE_NOT_AVAILABLE),
    {
        Err(MOUSE_NOT_AVAILABLE)
    }

    fn show_cursor(&self, visible: bool) -> (result: Result<()>)
        ensures
            result == Err::<(), &'static str>(MOUSE_NOT_AVAILABLE),
    {
        Err(MOUSE_NOT_AVAILABLE)
    }
}

} // verus!
