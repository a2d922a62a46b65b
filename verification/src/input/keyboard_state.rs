use vstd::prelude::*;
use crate::events::event::{KeyboardEvent, KeyboardEventType};
use crate::input::key::Key;

verus! {

/// Which keys are held down, as far as the events seen so far tell. The
/// slot of a key is at the place of the key in the order of the keys; the
/// table has room for more keys than there are.
pub struct KeyboardState {
    pub keys: [bool; 175],
}

/// The table `keys` after the event `keyboard`: the slot of the key that
/// went down or up is set first, and then the slots of the six modifier
/// keys are overwritten by what the event says of them.
pub open spec fn keys_after(keys: Seq<bool>, keyboard: KeyboardEvent) -> Seq<bool> {
    keys.update(keyboard.key.ordinal() as int, keyboard.event_type == KeyboardEventType::KeyDown)
        .update(Key::LeftShift.ordinal() as int, keyboard.left_shift).update(
        Key::LeftControl.ordinal() as int,
        keyboard.left_control,
    ).update(Key::LeftMenu.ordinal() as int, keyboard.left_menu).update(
        Key::RightShift.ordinal() as int,
        keyboard.right_shift,
    ).update(Key::RightControl.ordinal() as int, keyboard.right_control).update(
        Key::RightMenu.ordinal() as int,
        keyboard.right_menu,
    )
}

/// After an event the slots of the six modifier keys say what the event says
/// of them, whatever they said before and whichever key the event is about.
pub proof fn lemma_modifiers_follow_event(keys: Seq<bool>, keyboard: KeyboardEvent)
    requires
        keys.len() == 175,
    ensures
        keys_after(keys, keyboard).len() == 175,
        keys_after(keys, keyboard)[Key::LeftShift.ordinal() as int] == keyboard.left_shift,
        keys_after(keys, keyboard)[Key::LeftControl.ordinal() as int] == keyboard.left_control,
        keys_after(keys, keyboard)[Key::LeftMenu.ordinal() as int] == keyboard.left_menu,
        keys_after(keys, keyboard)[Key::RightShift.ordinal() as int] == keyboard.right_shift,
        keys_after(keys, keyboard)[Key::RightControl.ordinal() as int] == keyboard.right_control,
        keys_after(keys, keyboard)[Key::RightMenu.ordinal() as int] == keyboard.right_menu,
{
}

impl KeyboardState {
    /// A state in which no key is held.
    pub fn new() -> (state: KeyboardState)
        ensures
            forall|i: int| 0 <= i < 175 ==> !state.keys@[i],
    {
        KeyboardState { keys: [false; 175] }
    }

    /// Takes note of the event `keyboard`.
    pub fn update_from_event(&mut self, keyboard: KeyboardEvent)
        ensures
            final(self).keys@ == keys_after(old(self).keys@, keyboard),
    {
        self.keys[keyboard.key.to_u32() as usize] = keyboard.event_type
            == KeyboardEventType::KeyDown;
        self.keys[Key::LeftShift.to_u32() as usize] = keyboard.left_shift;
        self.keys[Key::LeftControl.to_u32() as usize] = keyboard.left_control;
        self.keys[Key::LeftMenu.to_u32() as usize] = keyboard.left_menu;
        self.keys[Key::RightShift.to_u32() as usize] = keyboard.right_shift;
        self.keys[Key::RightControl.to_u32() as usize] = keyboard.right_control;
        self.keys[Key::RightMenu.to_u32() as usize] = keyboard.right_menu;
    }
}

} // verus!
