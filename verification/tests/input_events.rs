use bevy_iced::systems::{
    compute_modifiers, process_input, queue_input, ButtonState, Event, IcedEventQueue, InputEvents,
    KeyboardEvent, KeyboardInput, Modifier, ModifierKey, Modifiers, MouseButtonInput, MouseEvent,
    Side,
};
use bevy_input::keyboard::KeyCode;
use bevy_input::ButtonInput;

type Ev = Event<(f32, f32), u8, char, u32>;

fn no_modifiers() -> Modifiers {
    Modifiers { shift: false, control: false, alt: false, logo: false }
}

fn empty_input() -> InputEvents<(f32, f32), u8, char, u32> {
    InputEvents {
        cursor_entered: 0,
        cursor_left: 0,
        cursor: vec![],
        mouse_button: vec![],
        mouse_wheel: vec![],
        keyboard_input: vec![],
        touch_input: vec![],
    }
}

fn key(c: char, state: ButtonState) -> KeyboardInput<char> {
    KeyboardInput { modifier_key: None, logical_key: c, state }
}

fn modifier_key(modifier: Modifier, side: Side, state: ButtonState) -> KeyboardInput<char> {
    KeyboardInput { modifier_key: Some(ModifierKey { modifier, side }), logical_key: '?', state }
}

#[test]
fn no_key_held_sets_no_modifier() {
    let input = ButtonInput::<KeyCode>::default();
    assert_eq!(compute_modifiers(&input), no_modifiers());
}

#[test]
fn either_control_key_sets_control() {
    let mut left = ButtonInput::<KeyCode>::default();
    left.press(KeyCode::ControlLeft);
    let mut right = ButtonInput::<KeyCode>::default();
    right.press(KeyCode::ControlRight);
    let expected = Modifiers { shift: false, control: true, alt: false, logo: false };
    assert_eq!(compute_modifiers(&left), expected);
    assert_eq!(compute_modifiers(&right), expected);
}

#[test]
fn each_modifier_has_its_own_flag() {
    let mut input = ButtonInput::<KeyCode>::default();
    input.press(KeyCode::ShiftRight);
    input.press(KeyCode::AltLeft);
    input.press(KeyCode::SuperRight);
    assert_eq!(
        compute_modifiers(&input),
        Modifiers { shift: true, control: false, alt: true, logo: true }
    );
}

#[test]
fn other_keys_set_no_modifier() {
    let mut input = ButtonInput::<KeyCode>::default();
    input.press(KeyCode::KeyA);
    input.press(KeyCode::Space);
    input.press(KeyCode::CapsLock);
    assert_eq!(compute_modifiers(&input), no_modifiers());
}

#[test]
fn released_modifier_is_not_held() {
    let mut input = ButtonInput::<KeyCode>::default();
    input.press(KeyCode::AltRight);
    input.release(KeyCode::AltRight);
    assert_eq!(compute_modifiers(&input), no_modifiers());
}

#[test]
fn modifiers_insert_sets_one_flag() {
    let mut m = Modifiers::empty();
    m.insert(Modifier::Super);
    assert_eq!(m, Modifiers { shift: false, control: false, alt: false, logo: true });
    m.insert(Modifier::Super);
    m.insert(Modifier::Shift);
    assert_eq!(m, Modifiers { shift: true, control: false, alt: false, logo: true });
}

#[test]
fn button_state_is_pressed() {
    assert!(ButtonState::Pressed.is_pressed());
    assert!(!ButtonState::Released.is_pressed());
}

#[test]
fn events_come_in_category_order() {
    let input = InputEvents {
        cursor_entered: 1,
        cursor_left: 1,
        cursor: vec![(1.0, 2.0), (3.0, 4.0)],
        mouse_button: vec![
            MouseButtonInput { button: 0u8, state: ButtonState::Pressed },
            MouseButtonInput { button: 0u8, state: ButtonState::Released },
        ],
        mouse_wheel: vec![(0.0, -5.0)],
        keyboard_input: vec![key('a', ButtonState::Pressed)],
        touch_input: vec![7u32],
    };
    let mut queue = IcedEventQueue::new();
    queue_input(input, no_modifiers(), &mut queue);
    let expected: Vec<Ev> = vec![
        Event::Mouse(MouseEvent::CursorMoved { position: (1.0, 2.0) }),
        Event::Mouse(MouseEvent::CursorMoved { position: (3.0, 4.0) }),
        Event::Mouse(MouseEvent::ButtonPressed(0)),
        Event::Mouse(MouseEvent::ButtonReleased(0)),
        Event::Mouse(MouseEvent::CursorEntered),
        Event::Mouse(MouseEvent::CursorLeft),
        Event::Mouse(MouseEvent::WheelScrolled { delta: (0.0, -5.0) }),
        Event::Keyboard(KeyboardEvent::KeyPressed { key: 'a', modifiers: no_modifiers() }),
        Event::Touch(7),
    ];
    assert_eq!(queue.0, expected);
}

#[test]
fn one_event_per_message() {
    let mut input = empty_input();
    input.cursor_entered = 3;
    input.cursor_left = 2;
    input.cursor = vec![(0.0, 0.0); 4];
    input.touch_input = vec![1, 2];
    let mut queue = IcedEventQueue::new();
    queue_input(input, no_modifiers(), &mut queue);
    assert_eq!(queue.0.len(), 3 + 2 + 4 + 2);
    let entered = queue.0.iter().filter(|e| **e == Event::Mouse(MouseEvent::CursorEntered)).count();
    let left = queue.0.iter().filter(|e| **e == Event::Mouse(MouseEvent::CursorLeft)).count();
    assert_eq!((entered, left), (3, 2));
}

#[test]
fn modifier_key_changes_report_modifiers() {
    let held = Modifiers { shift: true, control: false, alt: false, logo: false };
    let mut input = empty_input();
    input.keyboard_input = vec![
        modifier_key(Modifier::Shift, Side::Left, ButtonState::Pressed),
        key('B', ButtonState::Pressed),
        key('B', ButtonState::Released),
        modifier_key(Modifier::Control, Side::Right, ButtonState::Released),
    ];
    let mut queue = IcedEventQueue::new();
    queue_input(input, held, &mut queue);
    let expected: Vec<Ev> = vec![
        Event::Keyboard(KeyboardEvent::ModifiersChanged(held)),
        Event::Keyboard(KeyboardEvent::KeyPressed { key: 'B', modifiers: held }),
        Event::Keyboard(KeyboardEvent::KeyReleased { key: 'B', modifiers: held }),
        Event::Keyboard(KeyboardEvent::ModifiersChanged(held)),
    ];
    assert_eq!(queue.0, expected);
}

#[test]
fn queue_input_appends() {
    let mut queue: IcedEventQueue<Ev> = IcedEventQueue(vec![Event::Touch(1)]);
    let mut input = empty_input();
    input.touch_input = vec![2];
    queue_input(input, no_modifiers(), &mut queue);
    assert_eq!(queue.0, vec![Event::Touch(1), Event::Touch(2)]);
}

#[test]
fn process_input_replaces_the_queue_and_reads_held_modifiers() {
    let mut queue: IcedEventQueue<Ev> =
        IcedEventQueue(vec![Event::Touch(1), Event::Mouse(MouseEvent::CursorLeft)]);
    let mut held = ButtonInput::<KeyCode>::default();
    held.press(KeyCode::ControlLeft);
    let mut input = empty_input();
    input.keyboard_input = vec![key('c', ButtonState::Pressed)];
    process_input(input, &mut queue, &held);
    let control = Modifiers { shift: false, control: true, alt: false, logo: false };
    assert_eq!(
        queue.0,
        vec![Event::Keyboard(KeyboardEvent::KeyPressed { key: 'c', modifiers: control })]
    );
}

#[test]
fn process_input_without_messages_empties_the_queue() {
    let mut queue: IcedEventQueue<Ev> = IcedEventQueue(vec![Event::Touch(9)]);
    process_input(empty_input(), &mut queue, &ButtonInput::<KeyCode>::default());
    assert!(queue.0.is_empty());
}

#[test]
fn clear_empties_the_queue() {
    let mut queue: IcedEventQueue<Ev> = IcedEventQueue(vec![Event::Touch(3), Event::Touch(4)]);
    queue.clear();
    assert!(queue.0.is_empty());
}
