//! A terminal that is driven through curses, with mouse.

pub mod application;
pub mod mouse;
pub mod window;
pub mod terminal;
