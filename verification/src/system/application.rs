use vstd::prelude::*;
use crate::events::event_queue::EventQueue;
use crate::input::keyboard_state::KeyboardState;
use crate::input::mouse_state::MouseState;
use crate::system::terminal::Terminal;
use crate::Result;

verus! {

/// A platform as an application sees it.
pub trait Application {
    /// The screen of the platform.
    type Screen: Terminal;

    fn get_terminal(&self) -> &Self::Screen;

    fn get_mut_terminal(&mut self) -> &mut Self::Screen;

    fn get_mouse_state(&self) -> &MouseState;

    fn get_mut_mouse_state(&mut self) -> &mut MouseState;

    fn get_keyboard_state(&self) -> &KeyboardState;

    fn get_mut_keyboard_state(&mut self) -> &mut KeyboardState;

    fn get_event_queue(&self) -> &EventQueue;

    fn get_mut_event_queue(&mut self) -> &mut EventQueue;

    /// Waits for what the platform has to tell and adds it, as events, to
    /// the queue.
    fn listen_events(&mut self) -> Result<()>;
}

} // verus!
