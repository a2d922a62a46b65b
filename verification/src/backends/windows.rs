//! The console of Windows.

pub mod application;
pub mod color;
pub mod terminal;
