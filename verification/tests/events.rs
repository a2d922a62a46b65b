use tokterm::drawing::point_2d::Point2d;
use tokterm::drawing::size_2d::Size2d;
use tokterm::events::event::{
    Event, KeyboardEvent, KeyboardEventType, MouseEvent, MouseEventType, WindowEvent,
    WindowEventType,
};
use tokterm::events::event_queue::EventQueue;
use tokterm::input::key::Key;
use tokterm::input::keyboard_state::KeyboardState;
use tokterm::input::mouse_state::MouseState;

fn key(event_type: KeyboardEventType, key: Key) -> KeyboardEvent {
    KeyboardEvent {
        event_type,
        key,
        key_code: 0,
        character: ' ',
        left_control: false,
        left_shift: false,
        left_menu: false,
        right_control: false,
        right_shift: false,
        right_menu: false,
    }
}

fn mouse(x: i32, y: i32) -> MouseEvent {
    MouseEvent {
        event_type: MouseEventType::MouseMove,
        left_button: false,
        middle_button: false,
        right_button: false,
        extra_button_1: false,
        extra_button_2: false,
        extra_button_3: false,
        extra_button_4: false,
        position: Point2d::new(x, y),
        wheel_delta: 0,
    }
}

#[test]
fn events_leave_the_queue_in_the_order_they_came() {
    let first = Event::Keyboard(key(KeyboardEventType::KeyDown, Key::A));
    let second = Event::Mouse(mouse(3, 4));
    let third = Event::Keyboard(key(KeyboardEventType::KeyUp, Key::B));
    let mut queue = EventQueue::new();
    queue.add_event(first);
    queue.add_event(second);
    queue.add_event(third);
    assert_eq!(queue.get_event(), Some(first));
    assert_eq!(queue.get_event(), Some(second));
    assert_eq!(queue.get_event(), Some(third));
    assert_eq!(queue.get_event(), None);
    assert_eq!(queue.get_event(), None);
}

#[test]
fn queue_can_be_filled_while_it_is_drained() {
    let window = Event::Window(WindowEvent {
        event_type: WindowEventType::WindowResize,
        position: Point2d::empty(),
        size: Size2d::new(80, 25),
    });
    let mut queue = EventQueue::new();
    assert_eq!(queue.get_event(), None);
    queue.add_event(window);
    queue.add_event(Event::Mouse(mouse(1, 1)));
    assert_eq!(queue.get_event(), Some(window));
    queue.add_event(Event::Mouse(mouse(2, 2)));
    assert_eq!(queue.get_event(), Some(Event::Mouse(mouse(1, 1))));
    assert_eq!(queue.get_event(), Some(Event::Mouse(mouse(2, 2))));
    assert_eq!(queue.get_event(), None);
}

#[test]
fn new_keyboard_state_holds_no_key() {
    let state = KeyboardState::new();
    assert_eq!(state.keys.len(), 175);
    assert!(state.keys.iter().all(|held| !held));
}

#[test]
fn keyboard_state_follows_the_key_of_the_event() {
    let mut state = KeyboardState::new();
    state.update_from_event(key(KeyboardEventType::KeyDown, Key::A));
    state.update_from_event(key(KeyboardEventType::KeyDown, Key::F5));
    assert!(state.keys[Key::A.to_u32() as usize]);
    assert!(state.keys[Key::F5.to_u32() as usize]);
    assert_eq!(state.keys.iter().filter(|held| **held).count(), 2);
    state.update_from_event(key(KeyboardEventType::KeyUp, Key::A));
    assert!(!state.keys[Key::A.to_u32() as usize]);
    assert!(state.keys[Key::F5.to_u32() as usize]);
}

#[test]
fn modifiers_are_overwritten_by_every_event() {
    let mut state = KeyboardState::new();
    let mut shifted = key(KeyboardEventType::KeyDown, Key::A);
    shifted.left_shift = true;
    shifted.right_menu = true;
    state.update_from_event(shifted);
    assert!(state.keys[Key::LeftShift.to_u32() as usize]);
    assert!(state.keys[Key::RightMenu.to_u32() as usize]);
    assert!(!state.keys[Key::LeftControl.to_u32() as usize]);
    state.update_from_event(key(KeyboardEventType::KeyDown, Key::B));
    assert!(!state.keys[Key::LeftShift.to_u32() as usize]);
    assert!(!state.keys[Key::RightMenu.to_u32() as usize]);
    assert!(state.keys[Key::A.to_u32() as usize]);
    assert!(state.keys[Key::B.to_u32() as usize]);
}

#[test]
fn modifier_flags_count_over_the_key_of_the_event() {
    let mut state = KeyboardState::new();
    state.update_from_event(key(KeyboardEventType::KeyDown, Key::LeftShift));
    assert!(!state.keys[Key::LeftShift.to_u32() as usize]);
    let mut released = key(KeyboardEventType::KeyUp, Key::RightControl);
    released.right_control = true;
    state.update_from_event(released);
    assert!(state.keys[Key::RightControl.to_u32() as usize]);
}

#[test]
fn keys_have_their_places_and_names() {
    assert_eq!(Key::Unknown.to_u32(), 0);
    assert_eq!(Key::LeftButton.to_u32(), 1);
    assert_eq!(Key::PA1.to_u32(), 168);
    assert_eq!(Key::A.to_u32() + 25, Key::Z.to_u32());
    assert_eq!(Key::Key0.to_u32() + 9, Key::Key9.to_u32());
    for key in [Key::Unknown, Key::A, Key::Q, Key::F12, Key::LeftShift, Key::MediaPlayPause, Key::PA1]
    {
        assert_eq!(key.name(), format!("{:?}", key));
    }
}

#[test]
fn mouse_state_is_what_the_last_event_told() {
    let mut state = MouseState::new();
    assert_eq!(state.position, Point2d::empty());
    assert!(!state.left_button && !state.middle_button && !state.right_button);
    assert!(!state.extra_button_1 && !state.extra_button_2);
    assert!(!state.extra_button_3 && !state.extra_button_4);
    let mut pressed = mouse(5, 6);
    pressed.left_button = true;
    pressed.extra_button_3 = true;
    state.update_from_event(pressed);
    assert!(state.left_button);
    assert!(state.extra_button_3);
    assert_eq!(state.position, Point2d::new(5, 6));
    let mut other = mouse(7, 8);
    other.right_button = true;
    state.update_from_event(other);
    assert!(!state.left_button);
    assert!(!state.extra_button_3);
    assert!(state.right_button);
    assert_eq!(state.position, Point2d::new(7, 8));
}
