use vstd::prelude::*;

verus! {

/// A key of the keyboard, told apart from the others by its code.
#[derive(Clone, Copy, Debug, PartialEq, Eq, Hash, Structural)]
pub struct Key(pub u32);

/// A button of the mouse, told apart from the others by its code.
#[derive(Clone, Copy, Debug, PartialEq, Eq, Hash, Structural)]
pub struct MouseButton(pub u32);

/// What an input event says about keys and buttons.
#[derive(Clone, Copy, Debug, PartialEq, Eq, Structural)]
pub enum Event {
    /// A key went down.
    KeyPress { key: Key },
    /// A key came up.
    KeyRelease { key: Key },
    /// A mouse button went down.
    MousePress { button: MouseButton },
    /// A mouse button came up.
    MouseRelease { button: MouseButton },
    /// Any event that concerns neither a key nor a button.
    Other,
}

/// A convenience type that combines [`Key`] and [`MouseButton`].
/// Can often be used for specifying controls where only press/release plays a role.
#[derive(Clone, Copy, Debug, PartialEq, Eq, Structural)]
pub enum EventKey {
    Key(Key),
    Mouse(MouseButton),
}

impl EventKey {
    /// Whether `event` is the press of this very key or button.
    pub open spec fn pressed_by(self, event: Event) -> bool {
        match (self, event) {
            (EventKey::Key(own), Event::KeyPress { key }) => own == key,
            (EventKey::Mouse(own), Event::MousePress { button }) => own == button,
            _ => false,
        }
    }

    /// Whether `event` is the release of this very key or button.
    pub open spec fn released_by(self, event: Event) -> bool {
        match (self, event) {
            (EventKey::Key(own), Event::KeyRelease { key }) => own == key,
            (EventKey::Mouse(own), Event::MouseRelease { button }) => own == button,
            _ => false,
        }
    }

    /// Check whether the event corresponds to the press of the key.
    pub fn is_event_press(self, event: &Event) -> (press: bool)
        ensures
            press == self.pressed_by(*event),
    {
        match (self, *event) {
            (EventKey::Key(own), Event::KeyPress { key }) => own == key,
            (EventKey::Mouse(own), Event::MousePress { button }) => own == button,
            _ => false,
        }
    }

    /// Check whether the event corresponds to the release of the key.
    pub fn is_event_release(self, event: &Event) -> (release: bool)
        ensures
            release == self.released_by(*event),
    {
        match (self, *event) {
            (EventKey::Key(own), Event::KeyRelease { key }) => own == key,
            (EventKey::Mouse(own), Event::MouseRelease { button }) => own == button,
            _ => false,
        }
    }
}

impl From<Key> for EventKey {
    fn from(value: Key) -> (key: EventKey) {
        EventKey::Key(value)
    }
}

impl vstd::std_specs::convert::FromSpecImpl<Key> for EventKey {
    open spec fn obeys_from_spec() -> bool {
        true
    }

    open spec fn from_spec(value: Key) -> EventKey {
        EventKey::Key(value)
    }
}

impl From<MouseButton> for EventKey {
    fn from(value: MouseButton) -> (key: EventKey) {
        EventKey::Mouse(value)
    }
}

impl vstd::std_specs::convert::FromSpecImpl<MouseButton> for EventKey {
    open spec fn obeys_from_spec() -> bool {
        true
    }

    open spec fn from_spec(value: MouseButton) -> EventKey {
        EventKey::Mouse(value)
    }
}

/// Check whether the event corresponds to the press of at least one of the keys.
pub fn is_event_press(event: &Event, keys: &[EventKey]) -> (press: bool)
    ensures
        press == exists|i: int| 0 <= i < keys@.len() && (#[trigger] keys@[i]).pressed_by(*event),
{
    let mut i: usize = 0;
    while i < keys.len()
        invariant
            i <= keys@.len(),
            forall|j: int| 0 <= j < i ==> !(#[trigger] keys@[j]).pressed_by(*event),
        decreases keys@.len() - i,
    {
        if keys[i].is_event_press(event) {
            return true;
        }
        i += 1;
    }
    false
}

/// Check whether the event corresponds to the release of at least one of the keys.
pub fn is_event_release(event: &Event, keys: &[EventKey]) -> (release: bool)
    ensures
        release == exists|i: int|
            0 <= i < keys@.len() && (#[trigger] keys@[i]).released_by(*event),
{
    let mut i: usize = 0;
    while i < keys.len()
        invariant
            i <= keys@.len(),
            forall|j: int| 0 <= j < i ==> !(#[trigger] keys@[j]).released_by(*event),
        decreases keys@.len() - i,
    {
        if keys[i].is_event_release(event) {
            return true;
        }
        i += 1;
    }
    false
}

} // verus!
