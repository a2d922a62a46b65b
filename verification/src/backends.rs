//! What each platform needs to turn its own input into events and the cell
//! grid into its own output. Nothing here talks to a platform: these are the
//! rules by which a platform's values are read and written.

pub mod ncurses;
pub mod termion;
pub mod unix;
pub mod windows;
