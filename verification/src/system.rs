//! What a platform offers to an application: a terminal to draw on, a source
//! of events, and what it knows of the window and the mouse.

pub mod application;
pub mod mouse;
pub mod terminal;
pub mod window;
