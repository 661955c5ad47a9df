//! Turning a frame's input messages into user interface events.

use vstd::prelude::*;
use bevy_input::ButtonInput;
use bevy_input::keyboard::KeyCode;

verus! {

#[verifier::external_type_specification]
#[verifier::external_body]
#[verifier::reject_recursive_types(T)]
pub struct ExButtonInput<T: Clone + Eq + core::hash::Hash + Send + Sync + 'static>(ButtonInput<T>);

#[verifier::external_type_specification]
#[verifier::external_body]
pub struct ExKeyCode(KeyCode);

/// One of the four modifiers that a user interface tracks.
#[derive(Clone, Copy, Debug, PartialEq, Eq, Structural)]
pub enum Modifier {
    /// The control keys.
    Control,
    /// The shift keys.
    Shift,
    /// The alt keys.
    Alt,
    /// The super keys (the "windows" key, or "command" on macOS).
    Super,
}

/// Which of the two keys of a modifier.
#[derive(Clone, Copy, Debug, PartialEq, Eq, Structural)]
pub enum Side {
    /// The key on the left of the keyboard.
    Left,
    /// The key on the right of the keyboard.
    Right,
}

/// A physical modifier key: `ControlLeft` is the left key of `Control`, and
/// so on for the eight modifier key codes of the keyboard.
#[derive(Clone, Copy, Debug, PartialEq, Eq, Structural)]
pub struct ModifierKey {
    /// The modifier the key belongs to.
    pub modifier: Modifier,
    /// The side of the keyboard the key is on.
    pub side: Side,
}

/// The modifier keys that `input` records as held: `ModifierKey { modifier,
/// side }` is in the set exactly when the key code of that side of that
/// modifier (`KeyCode::ControlLeft` for the left control key, and so on)
/// is pressed in `input`.
pub uninterp spec fn pressed_modifier_keys(input: ButtonInput<KeyCode>) -> Set<ModifierKey>;

/// Whether either key of `modifier` is in `keys`.
pub open spec fn either_held(keys: Set<ModifierKey>, modifier: Modifier) -> bool {
    ||| keys.contains(ModifierKey { modifier, side: Side::Left })
    ||| keys.contains(ModifierKey { modifier, side: Side::Right })
}

/// Calls `ButtonInput::any_pressed` with the left and the right key code of
/// `modifier`. That method returns whether any of the codes it is given is
/// in the input's set of pressed buttons, so the result is whether either
/// key of `modifier` is held.
#[verifier::external_body]
fn any_pressed(input: &ButtonInput<KeyCode>, modifier: Modifier) -> (held: bool)
    ensures
        held == either_held(pressed_modifier_keys(*input), modifier),
{
    input.any_pressed(match modifier {
        Modifier::Control => [KeyCode::ControlLeft, KeyCode::ControlRight],
        Modifier::Shift => [KeyCode::ShiftLeft, KeyCode::ShiftRight],
        Modifier::Alt => [KeyCode::AltLeft, KeyCode::AltRight],
        Modifier::Super => [KeyCode::SuperLeft, KeyCode::SuperRight],
    })
}

/// The state of the keyboard modifiers, as a user interface sees it.
#[derive(Clone, Copy, Debug, PartialEq, Eq, Structural)]
pub struct Modifiers {
    /// A shift key is held.
    pub shift: bool,
    /// A control key is held.
    pub control: bool,
    /// An alt key is held.
    pub alt: bool,
    /// A super ("logo") key is held.
    pub logo: bool,
}

impl Modifiers {
    /// Whether `modifier` is set.
    pub open spec fn has(self, modifier: Modifier) -> bool {
        match modifier {
            Modifier::Control => self.control,
            Modifier::Shift => self.shift,
            Modifier::Alt => self.alt,
            Modifier::Super => self.logo,
        }
    }

    /// The modifiers set by holding the keys in `keys`.
    pub open spec fn of_held(keys: Set<ModifierKey>) -> Modifiers {
        Modifiers {
            shift: either_held(keys, Modifier::Shift),
            control: either_held(keys, Modifier::Control),
            alt: either_held(keys, Modifier::Alt),
            logo: either_held(keys, Modifier::Super),
        }
    }

    /// No modifier set.
    pub fn empty() -> (m: Modifiers)
        ensures
            forall|x: Modifier| !m.has(x),
    {
        Modifiers { shift: false, control: false, alt: false, logo: false }
    }

    /// Sets `modifier`, leaving the others as they are.
    pub fn insert(&mut self, modifier: Modifier)
        ensures
            final(self).has(modifier),
            forall|x: Modifier| x != modifier ==> final(self).has(x) == old(self).has(x),
    {
        match modifier {
            Modifier::Control => self.control = true,
            Modifier::Shift => self.shift = true,
            Modifier::Alt => self.alt = true,
            Modifier::Super => self.logo = true,
        }
    }
}

/// Each modifier flag follows its own two keys and nothing else: shift is
/// set exactly when the left or the right shift key is held, whatever other
/// keys are held, and likewise control with the control keys, alt with the
/// alt keys and logo with the super keys.
pub proof fn lemma_each_flag_follows_its_own_keys(keys: Set<ModifierKey>)
    ensures
        Modifiers::of_held(keys).shift == (keys.contains(ModifierKey { modifier: Modifier::Shift, side: Side::Left }) || keys.contains(ModifierKey { modifier: Modifier::Shift, side: Side::Right })),
        Modifiers::of_held(keys).control == (keys.contains(ModifierKey { modifier: Modifier::Control, side: Side::Left }) || keys.contains(ModifierKey { modifier: Modifier::Control, side: Side::Right })),
        Modifiers::of_held(keys).alt == (keys.contains(ModifierKey { modifier: Modifier::Alt, side: Side::Left }) || keys.contains(ModifierKey { modifier: Modifier::Alt, side: Side::Right })),
        Modifiers::of_held(keys).logo == (keys.contains(ModifierKey { modifier: Modifier::Super, side: Side::Left }) || keys.contains(ModifierKey { modifier: Modifier::Super, side: Side::Right })),
{
}

/// The modifiers held in `input_map`: each of the four is set exactly when
/// its left or its right key is pressed.
pub fn compute_modifiers(input_map: &ButtonInput<KeyCode>) -> (modifiers: Modifiers)
    ensures
        modifiers == Modifiers::of_held(pressed_modifier_keys(*input_map)),
        modifiers.shift == (pressed_modifier_keys(*input_map).contains(ModifierKey { modifier: Modifier::Shift, side: Side::Left }) || pressed_modifier_keys(*input_map).contains(ModifierKey { modifier: Modifier::Shift, side: Side::Right })),
        modifiers.control == (pressed_modifier_keys(*input_map).contains(ModifierKey { modifier: Modifier::Control, side: Side::Left }) || pressed_modifier_keys(*input_map).contains(ModifierKey { modifier: Modifier::Control, side: Side::Right })),
        modifiers.alt == (pressed_modifier_keys(*input_map).contains(ModifierKey { modifier: Modifier::Alt, side: Side::Left }) || pressed_modifier_keys(*input_map).contains(ModifierKey { modifier: Modifier::Alt, side: Side::Right })),
        modifiers.logo == (pressed_modifier_keys(*input_map).contains(ModifierKey { modifier: Modifier::Super, side: Side::Left }) || pressed_modifier_keys(*input_map).contains(ModifierKey { modifier: Modifier::Super, side: Side::Right })),
{
    let mut modifiers = Modifiers::empty();
    if any_pressed(input_map, Modifier::Control) {
        modifiers.insert(Modifier::Control);
    }
    if any_pressed(input_map, Modifier::Shift) {
        modifiers.insert(Modifier::Shift);
    }
    if any_pressed(input_map, Modifier::Alt) {
        modifiers.insert(Modifier::Alt);
    }
    if any_pressed(input_map, Modifier::Super) {
        modifiers.insert(Modifier::Super);
    }
    let ghost held = pressed_modifier_keys(*input_map);
    assert(modifiers.has(Modifier::Control) == either_held(held, Modifier::Control));
    assert(modifiers.has(Modifier::Shift) == either_held(held, Modifier::Shift));
    assert(modifiers.has(Modifier::Alt) == either_held(held, Modifier::Alt));
    assert(modifiers.has(Modifier::Super) == either_held(held, Modifier::Super));
    modifiers
}


/// Whether a button or key is down or up.
#[derive(Clone, Copy, Debug, PartialEq, Eq, Structural)]
pub enum ButtonState {
    /// The button is pressed.
    Pressed,
    /// The button is not pressed.
    Released,
}

impl ButtonState {
    /// Is this button pressed?
    pub fn is_pressed(&self) -> (pressed: bool)
        ensures
            pressed == (*self == ButtonState::Pressed),
    {
        match self {
            ButtonState::Pressed => true,
            ButtonState::Released => false,
        }
    }
}

/// A mouse button changed state.
#[derive(Clone, Debug, PartialEq)]
pub struct MouseButtonInput<B> {
    /// The button, already in the form the user interface names it.
    pub button: B,
    /// Whether it went down or up.
    pub state: ButtonState,
}

/// A key changed state.
#[derive(Clone, Debug, PartialEq)]
pub struct KeyboardInput<K> {
    /// The modifier key named by the physical key code, if the code names
    /// one of the eight modifier keys; `None` for every other code.
    pub modifier_key: Option<ModifierKey>,
    /// The logical key, already in the form the user interface names it.
    pub logical_key: K,
    /// Whether it went down or up.
    pub state: ButtonState,
}

/// The input messages of one frame, category by category, each category in
/// the order its messages arrived. `P` is a position or a scroll amount,
/// `B` a mouse button, `K` a logical key and `T` a touch event.
#[derive(Clone, Debug, PartialEq)]
pub struct InputEvents<P, B, K, T> {
    /// The number of "cursor entered the window" messages.
    pub cursor_entered: usize,
    /// The number of "cursor left the window" messages.
    pub cursor_left: usize,
    /// The positions the cursor moved to.
    pub cursor: Vec<P>,
    /// The mouse button changes.
    pub mouse_button: Vec<MouseButtonInput<B>>,
    /// The mouse wheel scrolls, in pixels.
    pub mouse_wheel: Vec<P>,
    /// The key changes.
    pub keyboard_input: Vec<KeyboardInput<K>>,
    /// The touch events.
    pub touch_input: Vec<T>,
}

/// A mouse event of the user interface.
#[derive(Clone, Debug, PartialEq)]
pub enum MouseEvent<P, B> {
    /// The cursor entered the window.
    CursorEntered,
    /// The cursor left the window.
    CursorLeft,
    /// The cursor moved to `position`.
    CursorMoved { position: P },
    /// A button was pressed.
    ButtonPressed(B),
    /// A button was released.
    ButtonReleased(B),
    /// The wheel scrolled by `delta` pixels.
    WheelScrolled { delta: P },
}

/// A keyboard event of the user interface. Every key event has the
/// standard location, an unidentified physical key, no text and no repeat;
/// its modified key is its key.
#[derive(Clone, Debug, PartialEq)]
pub enum KeyboardEvent<K> {
    /// A key was pressed while `modifiers` were held.
    KeyPressed { key: K, modifiers: Modifiers },
    /// A key was released while `modifiers` were held.
    KeyReleased { key: K, modifiers: Modifiers },
    /// The held modifiers are now these.
    ModifiersChanged(Modifiers),
}

/// An event of the user interface.
#[derive(Clone, Debug, PartialEq)]
pub enum Event<P, B, K, T> {
    /// A mouse event.
    Mouse(MouseEvent<P, B>),
    /// A keyboard event.
    Keyboard(KeyboardEvent<K>),
    /// A touch event.
    Touch(T),
}

/// The queue of user interface events for the current frame.
#[derive(Clone, Debug, PartialEq)]
pub struct IcedEventQueue<E>(pub Vec<E>);

impl<E> IcedEventQueue<E> {
    /// An empty queue.
    pub fn new() -> (queue: Self)
        ensures
            queue.0@ == Seq::<E>::empty(),
    {
        IcedEventQueue(Vec::new())
    }

    /// Drops every queued event.
    pub fn clear(&mut self)
        ensures
            final(self).0@ == Seq::<E>::empty(),
    {
        self.0.clear();
    }
}

/// The event for a cursor move to `position`.
pub open spec fn moved_event<P, B, K, T>(position: P) -> Event<P, B, K, T> {
    Event::Mouse(MouseEvent::CursorMoved { position })
}

/// The event for a mouse button change.
pub open spec fn button_event<P, B, K, T>(input: MouseButtonInput<B>) -> Event<P, B, K, T> {
    match input.state {
        ButtonState::Pressed => Event::Mouse(MouseEvent::ButtonPressed(input.button)),
        ButtonState::Released => Event::Mouse(MouseEvent::ButtonReleased(input.button)),
    }
}

/// The event for a wheel scroll by `delta` pixels.
pub open spec fn wheel_event<P, B, K, T>(delta: P) -> Event<P, B, K, T> {
    Event::Mouse(MouseEvent::WheelScrolled { delta })
}

/// The event for a key change while `modifiers` are held: a change of a
/// modifier key, whichever way it went, reports the held modifiers; any
/// other key is pressed or released with them.
pub open spec fn key_event<P, B, K, T>(input: KeyboardInput<K>, modifiers: Modifiers) -> Event<P, B, K, T> {
    Event::Keyboard(
        match input.modifier_key {
            Some(_) => KeyboardEvent::ModifiersChanged(modifiers),
            None => match input.state {
                ButtonState::Pressed => KeyboardEvent::KeyPressed { key: input.logical_key, modifiers },
                ButtonState::Released => KeyboardEvent::KeyReleased { key: input.logical_key, modifiers },
            },
        },
    )
}

/// The event for a touch event.
pub open spec fn touch_event<P, B, K, T>(touch: T) -> Event<P, B, K, T> {
    Event::Touch(touch)
}

/// `n` copies of `event`.
pub open spec fn repeated<E>(event: E, n: usize) -> Seq<E> {
    Seq::new(n as nat, |i: int| event)
}

/// The events of one frame's input: first the cursor moves, then the mouse
/// button changes, the cursor entering and leaving, the wheel scrolls, the
/// key changes (with the modifiers `modifiers`) and the touch events; one
/// event per message, each category in the order of its messages.
pub open spec fn frame_events<P, B, K, T>(input: InputEvents<P, B, K, T>, modifiers: Modifiers) -> Seq<Event<P, B, K, T>> {
    input.cursor@.map_values(|p: P| moved_event::<P, B, K, T>(p))
        + input.mouse_button@.map_values(|b: MouseButtonInput<B>| button_event::<P, B, K, T>(b))
        + repeated(Event::<P, B, K, T>::Mouse(MouseEvent::CursorEntered), input.cursor_entered)
        + repeated(Event::<P, B, K, T>::Mouse(MouseEvent::CursorLeft), input.cursor_left)
        + input.mouse_wheel@.map_values(|d: P| wheel_event::<P, B, K, T>(d))
        + input.keyboard_input@.map_values(|k: KeyboardInput<K>| key_event::<P, B, K, T>(k, modifiers))
        + input.touch_input@.map_values(|t: T| touch_event::<P, B, K, T>(t))
}

fn push_cursor_moves<P, B, K, T>(queue: &mut Vec<Event<P, B, K, T>>, moves: Vec<P>)
    ensures
        final(queue)@ == old(queue)@ + moves@.map_values(|p: P| moved_event::<P, B, K, T>(p)),
{
    let ghost start = queue@;
    let ghost all = moves@;
    for p in it: moves.into_iter()
        invariant
            it.seq() == all,
            queue@ == start + all.take(it.index() as int).map_values(|p: P| moved_event::<P, B, K, T>(p)),
    {
        assert(all.take(it.index() + 1) =~= all.take(it.index() as int).push(p));
        queue.push(Event::Mouse(MouseEvent::CursorMoved { position: p }));
    }
    assert(all.take(all.len() as int) =~= all);
}

fn push_button_changes<P, B, K, T>(queue: &mut Vec<Event<P, B, K, T>>, changes: Vec<MouseButtonInput<B>>)
    ensures
        final(queue)@ == old(queue)@ + changes@.map_values(|b: MouseButtonInput<B>| button_event::<P, B, K, T>(b)),
{
    let ghost start = queue@;
    let ghost all = changes@;
    for change in it: changes.into_iter()
        invariant
            it.seq() == all,
            queue@ == start + all.take(it.index() as int).map_values(|b: MouseButtonInput<B>| button_event::<P, B, K, T>(b)),
    {
        assert(all.take(it.index() + 1) =~= all.take(it.index() as int).push(change));
        let event = match change.state {
            ButtonState::Pressed => Event::Mouse(MouseEvent::ButtonPressed(change.button)),
            ButtonState::Released => Event::Mouse(MouseEvent::ButtonReleased(change.button)),
        };
        queue.push(event);
    }
    assert(all.take(all.len() as int) =~= all);
}

fn push_repeated_cursor_crossings<P, B, K, T>(queue: &mut Vec<Event<P, B, K, T>>, entered: bool, count: usize)
    ensures
        final(queue)@ == old(queue)@ + repeated(
            if entered { Event::<P, B, K, T>::Mouse(MouseEvent::CursorEntered) } else { Event::<P, B, K, T>::Mouse(MouseEvent::CursorLeft) },
            count,
        ),
{
    let ghost start = queue@;
    let ghost event = if entered { Event::<P, B, K, T>::Mouse(MouseEvent::CursorEntered) } else { Event::<P, B, K, T>::Mouse(MouseEvent::CursorLeft) };
    let mut i: usize = 0;
    while i < count
        invariant
            i <= count,
            event == if entered { Event::<P, B, K, T>::Mouse(MouseEvent::CursorEntered) } else { Event::<P, B, K, T>::Mouse(MouseEvent::CursorLeft) },
            queue@ =~= start + repeated(event, i),
        decreases count - i,
    {
        assert(repeated(event, (i + 1) as usize) =~= repeated(event, i).push(event));
        if entered {
            queue.push(Event::Mouse(MouseEvent::CursorEntered));
        } else {
            queue.push(Event::Mouse(MouseEvent::CursorLeft));
        }
        assert(queue@ =~= start + repeated(event, (i + 1) as usize));
        i = i + 1;
    }
}

fn push_wheel_scrolls<P, B, K, T>(queue: &mut Vec<Event<P, B, K, T>>, scrolls: Vec<P>)
    ensures
        final(queue)@ == old(queue)@ + scrolls@.map_values(|d: P| wheel_event::<P, B, K, T>(d)),
{
    let ghost start = queue@;
    let ghost all = scrolls@;
    for d in it: scrolls.into_iter()
        invariant
            it.seq() == all,
            queue@ == start + all.take(it.index() as int).map_values(|d: P| wheel_event::<P, B, K, T>(d)),
    {
        assert(all.take(it.index() + 1) =~= all.take(it.index() as int).push(d));
        queue.push(Event::Mouse(MouseEvent::WheelScrolled { delta: d }));
    }
    assert(all.take(all.len() as int) =~= all);
}

fn push_key_changes<P, B, K, T>(queue: &mut Vec<Event<P, B, K, T>>, keys: Vec<KeyboardInput<K>>, modifiers: Modifiers)
    ensures
        final(queue)@ == old(queue)@ + keys@.map_values(|k: KeyboardInput<K>| key_event::<P, B, K, T>(k, modifiers)),
{
    let ghost start = queue@;
    let ghost all = keys@;
    for key in it: keys.into_iter()
        invariant
            it.seq() == all,
            queue@ == start + all.take(it.index() as int).map_values(|k: KeyboardInput<K>| key_event::<P, B, K, T>(k, modifiers)),
    {
        assert(all.take(it.index() + 1) =~= all.take(it.index() as int).push(key));
        let event = match key.modifier_key {
            Some(_) => KeyboardEvent::ModifiersChanged(modifiers),
            None => {
                if key.state.is_pressed() {
                    KeyboardEvent::KeyPressed { key: key.logical_key, modifiers }
                } else {
                    KeyboardEvent::KeyReleased { key: key.logical_key, modifiers }
                }
            },
        };
        queue.push(Event::Keyboard(event));
    }
    assert(all.take(all.len() as int) =~= all);
}

fn push_touches<P, B, K, T>(queue: &mut Vec<Event<P, B, K, T>>, touches: Vec<T>)
    ensures
        final(queue)@ == old(queue)@ + touches@.map_values(|t: T| touch_event::<P, B, K, T>(t)),
{
    let ghost start = queue@;
    let ghost all = touches@;
    for t in it: touches.into_iter()
        invariant
            it.seq() == all,
            queue@ == start + all.take(it.index() as int).map_values(|t: T| touch_event::<P, B, K, T>(t)),
    {
        assert(all.take(it.index() + 1) =~= all.take(it.index() as int).push(t));
        queue.push(Event::Touch(t));
    }
    assert(all.take(all.len() as int) =~= all);
}

/// Appends to `event_queue` the events of one frame's input, the key
/// events carrying `modifiers`.
pub fn queue_input<P, B, K, T>(
    input: InputEvents<P, B, K, T>,
    modifiers: Modifiers,
    event_queue: &mut IcedEventQueue<Event<P, B, K, T>>,
)
    ensures
        final(event_queue).0@ == old(event_queue).0@ + frame_events(input, modifiers),
        final(event_queue).0@.len() == old(event_queue).0@.len() + message_count(input),
        forall|i: int| 0 <= i < input.cursor@.len() ==> final(event_queue).0@[old(event_queue).0@.len() + i]
            == Event::<P, B, K, T>::Mouse(MouseEvent::CursorMoved { position: #[trigger] input.cursor@[i] }),
        forall|i: int| 0 <= i < input.touch_input@.len() ==> final(event_queue).0@[old(event_queue).0@.len()
            + keyboard_offset(input) + input.keyboard_input@.len() + i]
            == Event::<P, B, K, T>::Touch(#[trigger] input.touch_input@[i]),
{
    proof {
        lemma_frame_events_by_index(input, modifiers);
    }
    let ghost start = event_queue.0@;
    let ghost whole = input;
    let InputEvents { cursor_entered, cursor_left, cursor, mouse_button, mouse_wheel, keyboard_input, touch_input } = input;
    let queue = &mut event_queue.0;
    push_cursor_moves(queue, cursor);
    push_button_changes(queue, mouse_button);
    push_repeated_cursor_crossings(queue, true, cursor_entered);
    push_repeated_cursor_crossings(queue, false, cursor_left);
    push_wheel_scrolls(queue, mouse_wheel);
    push_key_changes(queue, keyboard_input, modifiers);
    push_touches(queue, touch_input);
    assert(queue@ =~= start + frame_events(whole, modifiers));
}

/// The input system: replaces the queued events by those of this frame's
/// input, the key events carrying the modifiers held in `input_map`.
pub fn process_input<P, B, K, T>(
    events: InputEvents<P, B, K, T>,
    event_queue: &mut IcedEventQueue<Event<P, B, K, T>>,
    input_map: &ButtonInput<KeyCode>,
)
    ensures
        final(event_queue).0@ == frame_events(events, Modifiers::of_held(pressed_modifier_keys(*input_map))),
        final(event_queue).0@.len() == message_count(events),
        forall|i: int| 0 <= i < events.cursor@.len() ==> final(event_queue).0@[i]
            == Event::<P, B, K, T>::Mouse(MouseEvent::CursorMoved { position: #[trigger] events.cursor@[i] }),
        forall|i: int| 0 <= i < events.touch_input@.len() ==> final(event_queue).0@[keyboard_offset(events)
            + events.keyboard_input@.len() + i] == Event::<P, B, K, T>::Touch(#[trigger] events.touch_input@[i]),
{
    proof {
        lemma_frame_events_by_index(events, Modifiers::of_held(pressed_modifier_keys(*input_map)));
    }
    event_queue.clear();
    let modifiers = compute_modifiers(input_map);
    queue_input(events, modifiers, event_queue);
}

/// The modifiers that a keyboard event reports, if it is one.
pub open spec fn reported_modifiers<P, B, K, T>(event: Event<P, B, K, T>) -> Option<Modifiers> {
    match event {
        Event::Keyboard(KeyboardEvent::KeyPressed { modifiers, .. }) => Some(modifiers),
        Event::Keyboard(KeyboardEvent::KeyReleased { modifiers, .. }) => Some(modifiers),
        Event::Keyboard(KeyboardEvent::ModifiersChanged(modifiers)) => Some(modifiers),
        _ => None,
    }
}

/// The total number of messages in one frame's input.
pub open spec fn message_count<P, B, K, T>(input: InputEvents<P, B, K, T>) -> int {
    input.cursor@.len() + input.mouse_button@.len() + input.cursor_entered + input.cursor_left
        + input.mouse_wheel@.len() + input.keyboard_input@.len() + input.touch_input@.len()
}

/// Every input message of a frame gives exactly one event: the frame's
/// events are as many as its messages.
pub proof fn lemma_one_event_per_message<P, B, K, T>(input: InputEvents<P, B, K, T>, modifiers: Modifiers)
    ensures
        frame_events(input, modifiers).len() == message_count(input),
{
}

/// Every keyboard event of a frame reports the same modifiers: those held
/// when the frame's input was processed.
pub proof fn lemma_key_events_report_held_modifiers<P, B, K, T>(
    input: InputEvents<P, B, K, T>,
    modifiers: Modifiers,
    i: int,
)
    requires
        0 <= i < frame_events(input, modifiers).len(),
        reported_modifiers(frame_events(input, modifiers)[i]) is Some,
    ensures
        reported_modifiers(frame_events(input, modifiers)[i]) == Some(modifiers),
{
    let mouse = input.cursor@.map_values(|p: P| moved_event::<P, B, K, T>(p))
        + input.mouse_button@.map_values(|b: MouseButtonInput<B>| button_event::<P, B, K, T>(b))
        + repeated(Event::<P, B, K, T>::Mouse(MouseEvent::CursorEntered), input.cursor_entered)
        + repeated(Event::<P, B, K, T>::Mouse(MouseEvent::CursorLeft), input.cursor_left)
        + input.mouse_wheel@.map_values(|d: P| wheel_event::<P, B, K, T>(d));
    let keys = input.keyboard_input@.map_values(|k: KeyboardInput<K>| key_event::<P, B, K, T>(k, modifiers));
    let touches = input.touch_input@.map_values(|t: T| touch_event::<P, B, K, T>(t));
    assert(frame_events(input, modifiers) == mouse + keys + touches);
    if i < mouse.len() {
        assert(forall|j: int| 0 <= j < mouse.len() ==> reported_modifiers(#[trigger] mouse[j]) is None) by {
            assert forall|j: int| 0 <= j < mouse.len() implies reported_modifiers(#[trigger] mouse[j]) is None by {
                let a = input.cursor@.len() as int;
                let b = a + input.mouse_button@.len();
                let c = b + input.cursor_entered;
                let d = c + input.cursor_left;
                if j < a {
                } else if j < b {
                    assert(mouse[j] == button_event::<P, B, K, T>(input.mouse_button@[j - a]));
                } else if j < c {
                } else if j < d {
                } else {
                }
            }
        }
        assert(frame_events(input, modifiers)[i] == mouse[i]);
    } else if i < mouse.len() + keys.len() {
        assert(frame_events(input, modifiers)[i] == keys[i - mouse.len()]);
    } else {
        assert(frame_events(input, modifiers)[i] == touches[i - mouse.len() - keys.len()]);
    }
}

/// The position of the first key event among a frame's events: after the
/// cursor moves, button changes, cursor crossings and wheel scrolls.
pub open spec fn keyboard_offset<P, B, K, T>(input: InputEvents<P, B, K, T>) -> int {
    input.cursor@.len() + input.mouse_button@.len() + input.cursor_entered + input.cursor_left
        + input.mouse_wheel@.len()
}

/// A change of a modifier key, pressed or released, is never a key press or
/// release for the user interface: its event, in its place among the
/// frame's key events, reports the held modifiers. Any other key change is
/// pressed or released as it was, carrying the held modifiers.
pub proof fn lemma_key_change_events<P, B, K, T>(input: InputEvents<P, B, K, T>, modifiers: Modifiers, i: int)
    requires
        0 <= i < input.keyboard_input@.len(),
    ensures
        frame_events(input, modifiers)[keyboard_offset(input) + i] == (match input.keyboard_input@[i].modifier_key {
            Some(_) => Event::<P, B, K, T>::Keyboard(KeyboardEvent::ModifiersChanged(modifiers)),
            None => match input.keyboard_input@[i].state {
                ButtonState::Pressed => Event::Keyboard(KeyboardEvent::KeyPressed { key: input.keyboard_input@[i].logical_key, modifiers }),
                ButtonState::Released => Event::Keyboard(KeyboardEvent::KeyReleased { key: input.keyboard_input@[i].logical_key, modifiers }),
            },
        }),
{
    let mouse = input.cursor@.map_values(|p: P| moved_event::<P, B, K, T>(p))
        + input.mouse_button@.map_values(|b: MouseButtonInput<B>| button_event::<P, B, K, T>(b))
        + repeated(Event::<P, B, K, T>::Mouse(MouseEvent::CursorEntered), input.cursor_entered)
        + repeated(Event::<P, B, K, T>::Mouse(MouseEvent::CursorLeft), input.cursor_left)
        + input.mouse_wheel@.map_values(|d: P| wheel_event::<P, B, K, T>(d));
    let keys = input.keyboard_input@.map_values(|k: KeyboardInput<K>| key_event::<P, B, K, T>(k, modifiers));
    let touches = input.touch_input@.map_values(|t: T| touch_event::<P, B, K, T>(t));
    assert(frame_events(input, modifiers) == mouse + keys + touches);
    assert(mouse.len() == keyboard_offset(input));
    assert(frame_events(input, modifiers)[keyboard_offset(input) + i] == keys[i]);
}

/// Where each message's event stands among a frame's events, and what it
/// is: the frame has one event per message; the i-th cursor move is the
/// i-th event; the button changes follow in their order, then the cursor
/// crossings, then the wheel scrolls in their order; the i-th touch event
/// follows all key events, in its arrival order.
pub proof fn lemma_frame_events_by_index<P, B, K, T>(input: InputEvents<P, B, K, T>, modifiers: Modifiers)
    ensures
        frame_events(input, modifiers).len() == message_count(input),
        forall|i: int| 0 <= i < input.cursor@.len() ==> frame_events(input, modifiers)[i]
            == Event::<P, B, K, T>::Mouse(MouseEvent::CursorMoved { position: #[trigger] input.cursor@[i] }),
        forall|i: int| 0 <= i < input.mouse_button@.len() ==> frame_events(input, modifiers)[input.cursor@.len() + i]
            == (match (#[trigger] input.mouse_button@[i]).state {
                ButtonState::Pressed => Event::<P, B, K, T>::Mouse(MouseEvent::ButtonPressed(input.mouse_button@[i].button)),
                ButtonState::Released => Event::<P, B, K, T>::Mouse(MouseEvent::ButtonReleased(input.mouse_button@[i].button)),
            }),
        forall|i: int| 0 <= i < input.cursor_entered ==> frame_events(input, modifiers)[
            #[trigger] (input.cursor@.len() + input.mouse_button@.len() + i)]
            == Event::<P, B, K, T>::Mouse(MouseEvent::CursorEntered),
        forall|i: int| 0 <= i < input.cursor_left ==> frame_events(input, modifiers)[
            #[trigger] (input.cursor@.len() + input.mouse_button@.len() + input.cursor_entered + i)]
            == Event::<P, B, K, T>::Mouse(MouseEvent::CursorLeft),
        forall|i: int| 0 <= i < input.mouse_wheel@.len() ==> frame_events(input, modifiers)[
            input.cursor@.len() + input.mouse_button@.len() + input.cursor_entered + input.cursor_left + i]
            == Event::<P, B, K, T>::Mouse(MouseEvent::WheelScrolled { delta: #[trigger] input.mouse_wheel@[i] }),
        forall|i: int| 0 <= i < input.touch_input@.len() ==> frame_events(input, modifiers)[
            keyboard_offset(input) + input.keyboard_input@.len() + i]
            == Event::<P, B, K, T>::Touch(#[trigger] input.touch_input@[i]),
{
    let moves = input.cursor@.map_values(|p: P| moved_event::<P, B, K, T>(p));
    let buttons = input.mouse_button@.map_values(|b: MouseButtonInput<B>| button_event::<P, B, K, T>(b));
    let entered = repeated(Event::<P, B, K, T>::Mouse(MouseEvent::CursorEntered), input.cursor_entered);
    let left = repeated(Event::<P, B, K, T>::Mouse(MouseEvent::CursorLeft), input.cursor_left);
    let wheel = input.mouse_wheel@.map_values(|d: P| wheel_event::<P, B, K, T>(d));
    let keys = input.keyboard_input@.map_values(|k: KeyboardInput<K>| key_event::<P, B, K, T>(k, modifiers));
    let touches = input.touch_input@.map_values(|t: T| touch_event::<P, B, K, T>(t));
    let all = frame_events(input, modifiers);
    assert(all == moves + buttons + entered + left + wheel + keys + touches);
    let a = input.cursor@.len() as int;
    let b = a + input.mouse_button@.len();
    let c = b + input.cursor_entered;
    let d = c + input.cursor_left;
    let e = d + input.mouse_wheel@.len();
    let f = e + input.keyboard_input@.len();
    assert forall|i: int| 0 <= i < input.cursor@.len() implies all[i]
        == Event::<P, B, K, T>::Mouse(MouseEvent::CursorMoved { position: #[trigger] input.cursor@[i] }) by {
        assert(all[i] == moves[i]);
    }
    assert forall|i: int| 0 <= i < input.mouse_button@.len() implies all[a + i]
        == (match (#[trigger] input.mouse_button@[i]).state {
            ButtonState::Pressed => Event::<P, B, K, T>::Mouse(MouseEvent::ButtonPressed(input.mouse_button@[i].button)),
            ButtonState::Released => Event::<P, B, K, T>::Mouse(MouseEvent::ButtonReleased(input.mouse_button@[i].button)),
        }) by {
        assert(all[a + i] == buttons[i]);
    }
    assert forall|i: int| 0 <= i < input.cursor_entered implies all[#[trigger] (a + input.mouse_button@.len() + i)]
        == Event::<P, B, K, T>::Mouse(MouseEvent::CursorEntered) by {
        assert(all[b + i] == entered[i]);
    }
    assert forall|i: int| 0 <= i < input.cursor_left implies all[
        #[trigger] (a + input.mouse_button@.len() + input.cursor_entered + i)]
        == Event::<P, B, K, T>::Mouse(MouseEvent::CursorLeft) by {
        assert(all[c + i] == left[i]);
    }
    assert forall|i: int| 0 <= i < input.mouse_wheel@.len() implies all[d + i]
        == Event::<P, B, K, T>::Mouse(MouseEvent::WheelScrolled { delta: #[trigger] input.mouse_wheel@[i] }) by {
        assert(all[d + i] == wheel[i]);
    }
    assert forall|i: int| 0 <= i < input.touch_input@.len() implies all[f + i]
        == Event::<P, B, K, T>::Touch(#[trigger] input.touch_input@[i]) by {
        assert(all[f + i] == touches[i]);
    }
}

} // verus!
