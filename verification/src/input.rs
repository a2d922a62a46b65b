//! The keys, and the trackers of what is held down.

pub mod key;
pub mod keyboard_state;
pub mod mouse_state;
