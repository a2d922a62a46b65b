//! The events of keyboard, mouse and window, and the queue they wait in.

pub mod event;
pub mod event_queue;
