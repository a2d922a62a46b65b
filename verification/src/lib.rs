//! A terminal-rendering toolkit: a character-grid buffer with vector-drawing
//! primitives, and a normalized model of keyboard, mouse and window events.

use vstd::prelude::*;

pub mod application;
pub mod backends;
pub mod drawing;
pub mod events;
pub mod input;
pub mod system;
pub mod text;

verus! {

/// The result of an operation that can fail with a static message.
pub type Result<T> = std::result::Result<T, &'static str>;

} // verus!
