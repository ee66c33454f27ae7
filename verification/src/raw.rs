//! Events as the kernel's input subsystem writes them, and the conversion
//! between them and the event model.

use vstd::prelude::*;

use crate::button::lemma_button_code_injective;
use crate::button::Button;
use crate::event::Direction;
use crate::event::InputEvent;
use crate::event::KeyKind;
use crate::key::lemma_key_code_injective;
use crate::key::Key;

verus! {

/// Event type of a synchronization pulse.
pub const EV_SYN: u16 = 0x00;

/// Event type of keys and buttons.
pub const EV_KEY: u16 = 0x01;

/// Event type of absolute axes.
pub const EV_ABS: u16 = 0x03;

/// Event type of the auto-repeat settings.
pub const EV_REP: u16 = 0x14;

/// The largest event type.
pub const EV_MAX: u16 = 0x1f;

/// Code of the pulse that ends a report.
pub const SYN_REPORT: u16 = 0;

/// Value of a key event for a release.
pub const KEY_RELEASED: i32 = 0;

/// Value of a key event for a press.
pub const KEY_PRESSED: i32 = 1;

/// An event as the kernel's input subsystem writes it, without its time.
#[derive(Clone, Copy, Debug, PartialEq, Eq, Structural)]
pub struct RawEvent {
    pub type_: u16,
    pub code: u16,
    pub value: i32,
}

impl RawEvent {
    /// Whether the event is a press or a release of a key or button.
    pub open spec fn is_key_edge(self) -> bool {
        self.type_ == EV_KEY && (self.value == KEY_RELEASED || self.value == KEY_PRESSED)
    }
}

impl Direction {
    /// The value of a key event for this direction.
    pub open spec fn value(self) -> i32 {
        match self {
            Direction::Up => KEY_RELEASED,
            Direction::Down => KEY_PRESSED,
        }
    }
}

impl KeyKind {
    /// The code by which the kernel knows the key or button.
    pub open spec fn code(self) -> u16 {
        match self {
            KeyKind::Key(key) => key.code(),
            KeyKind::Button(button) => button.code(),
        }
    }

    /// The key or button that has this code, if there is one.
    pub open spec fn of_code(code: u16) -> Option<KeyKind> {
        if exists|kind: KeyKind| kind.code() == code {
            Some(choose|kind: KeyKind| kind.code() == code)
        } else {
            None
        }
    }

    /// The key or button that has this code, if there is one.
    pub fn from_raw(code: u16) -> (found: Option<KeyKind>)
        ensures
            found == KeyKind::of_code(code),
    {
        match Key::from_raw(code) {
            Some(key) => {
                let kind = KeyKind::Key(key);
                proof {
                    assert(kind.code() == code);
                    lemma_kind_code_injective(kind, KeyKind::of_code(code).unwrap());
                }
                Some(kind)
            },
            None => match Button::from_raw(code) {
                Some(button) => {
                    let kind = KeyKind::Button(button);
                    proof {
                        assert(kind.code() == code);
                        lemma_kind_code_injective(kind, KeyKind::of_code(code).unwrap());
                    }
                    Some(kind)
                },
                None => {
                    assert forall|kind: KeyKind| kind.code() != code by {
                        match kind {
                            KeyKind::Key(k) => {
                                assert(k.code() != code);
                            },
                            KeyKind::Button(b) => {
                                assert(b.code() != code);
                            },
                        }
                    }
                    None
                },
            },
        }
    }

    /// The code by which the kernel knows the key or button.
    pub fn to_raw(&self) -> (code: u16)
        ensures
            code == self.code(),
    {
        match self {
            KeyKind::Key(key) => key.to_raw(),
            KeyKind::Button(button) => button.to_raw(),
        }
    }
}

impl InputEvent {
    /// The event as the kernel writes it.
    pub open spec fn raw(self) -> RawEvent {
        match self {
            InputEvent::Other { type_, code, value } => RawEvent { type_, code, value },
            InputEvent::Key { direction, kind } => RawEvent {
                type_: EV_KEY,
                code: kind.code(),
                value: direction.value(),
            },
        }
    }

    /// What a raw event means: a press or release of a known key or button is
    /// a key event, one of an unknown key or button is nothing, and all else
    /// is carried as it is.
    pub open spec fn of_raw(raw: RawEvent) -> Option<InputEvent> {
        if raw.is_key_edge() {
            match KeyKind::of_code(raw.code) {
                Some(kind) => Some(
                    InputEvent::Key {
                        direction: if raw.value == KEY_RELEASED {
                            Direction::Up
                        } else {
                            Direction::Down
                        },
                        kind,
                    },
                ),
                None => None,
            }
        } else {
            Some(InputEvent::Other { type_: raw.type_, code: raw.code, value: raw.value })
        }
    }

    /// Whether converting the event to a raw one and back gives the event
    /// again: all but a press or release hidden in the `Other` variant.
    pub open spec fn is_canonical(self) -> bool {
        match self {
            InputEvent::Key { .. } => true,
            InputEvent::Other { .. } => !self.raw().is_key_edge(),
        }
    }

    /// The event as the kernel writes it.
    pub fn to_raw(&self) -> (raw: RawEvent)
        ensures
            raw == self.raw(),
    {
        match *self {
            InputEvent::Other { type_, code, value } => RawEvent { type_, code, value },
            InputEvent::Key { direction: Direction::Up, kind } => RawEvent {
                type_: EV_KEY,
                code: kind.to_raw(),
                value: KEY_RELEASED,
            },
            InputEvent::Key { direction: Direction::Down, kind } => RawEvent {
                type_: EV_KEY,
                code: kind.to_raw(),
                value: KEY_PRESSED,
            },
        }
    }

    /// What a raw event means, `None` for a press or release of a key or
    /// button that the model does not know.
    pub fn from_raw(raw: RawEvent) -> (event: Option<InputEvent>)
        ensures
            event == InputEvent::of_raw(raw),
    {
        if raw.type_ == EV_KEY && raw.value == KEY_RELEASED {
            match KeyKind::from_raw(raw.code) {
                Some(kind) => Some(InputEvent::Key { direction: Direction::Up, kind }),
                None => None,
            }
        } else if raw.type_ == EV_KEY && raw.value == KEY_PRESSED {
            match KeyKind::from_raw(raw.code) {
                Some(kind) => Some(InputEvent::Key { direction: Direction::Down, kind }),
                None => None,
            }
        } else {
            Some(InputEvent::Other { type_: raw.type_, code: raw.code, value: raw.value })
        }
    }
}

/// No key shares its code with another key or with a button, and no button
/// with another button.
pub proof fn lemma_kind_code_injective(a: KeyKind, b: KeyKind)
    requires
        a.code() == b.code(),
    ensures
        a == b,
{
    match (a, b) {
        (KeyKind::Key(x), KeyKind::Key(y)) => lemma_key_code_injective(x, y),
        (KeyKind::Button(x), KeyKind::Button(y)) => lemma_button_code_injective(x, y),
        _ => {},
    }
}

/// The code of a key or button finds that key or button again.
pub proof fn lemma_kind_of_code(kind: KeyKind)
    ensures
        KeyKind::of_code(kind.code()) == Some(kind),
{
    lemma_kind_code_injective(kind, KeyKind::of_code(kind.code()).unwrap());
}

/// A raw event that means something is what that meaning is written as.
pub proof fn lemma_raw_of_meaning(raw: RawEvent)
    requires
        InputEvent::of_raw(raw).is_some(),
    ensures
        InputEvent::of_raw(raw).unwrap().raw() == raw,
{
}

/// A canonical event, written raw, means that event.
pub proof fn lemma_meaning_of_raw(event: InputEvent)
    requires
        event.is_canonical(),
    ensures
        InputEvent::of_raw(event.raw()) == Some(event),
{
    match event {
        InputEvent::Key { direction, kind } => lemma_kind_of_code(kind),
        InputEvent::Other { .. } => {},
    }
}

} // verus!
