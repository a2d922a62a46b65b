use vstd::prelude::*;
use crate::drawing::point_2d::Point2d;
use crate::drawing::size_2d::Size2d;
use crate::system::window::Window;
use crate::Result;

verus! {

/// What every question about the window is answered with.
pub const WINDOW_NOT_AVAILABLE: &'static str = "The window is not available on this platform.";

/// The window of a curses terminal, which knows nothing of a window: every
/// question fails.
pub struct UnixWindow {}

impl UnixWindow {
    pub fn new() -> UnixWindow {
        UnixWindow {  }
    }
}

impl Window for UnixWindow {
    fn get_window_client_size(&self) -> (result: Result<Size2d>)
        ensures
            result == Err::<Size2d, &'static str>(WINDOW_NOT_AVAILABLE),
    {
        Err(WINDOW_NOT_AVAILABLE)
    }

    fn get_window_size(&self) -> (result: Result<Size2d>)
        ensures
            result == Err::<Size2d, &'static str>(WINDOW_NOT_AVAILABLE),
    {
        Err(WINDOW_NOT_AVAILABLE)
    }

    fn set_window_size(&self, size: Size2d) -> (result: Result<()>)
        ensures
            result == Err::<(), &'static str>(WINDOW_NOT_AVAILABLE),
    {
        Err(WINDOW_NOT_AVAILABLE)
    }

    fn get_window_position(&self) -> (result: Result<Point2d>)
        ensures
            result == Err::<Point2d, &'static str>(WINDOW_NOT_AVAILABLE),
    {
        Err(WINDOW_NOT_AVAILABLE)
    }

    fn set_window_position(&self, position: Point2d) -> (result: Result<()>)
        ensures
            result == Err::<(), &'static str>(WINDOW_NOT_AVAILABLE),
    {
        Err(WINDOW_NOT_AVAILABLE)
    }
}

} // verus!
