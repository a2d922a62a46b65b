//! A terminal that is driven through curses.

pub mod color;
pub mod mouse;
pub mod window;
