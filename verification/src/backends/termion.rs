//! A terminal in raw mode that is driven by escape sequences.

pub mod application;
pub mod color;
pub mod mouse;
pub mod window;
pub mod terminal;
