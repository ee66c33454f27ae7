//! The event model shared by the capturing and the injecting side.

use vstd::prelude::*;

pub use crate::button::Button;
pub use crate::key::Key;

verus! {

/// Whether a key went up or down.
#[derive(Clone, Copy, Debug, PartialEq, Eq, Structural)]
pub enum Direction {
    /// The key is released.
    Up,
    /// The key is pressed.
    Down,
}

/// A key of a keyboard or a button of a pointing device or gamepad.
#[derive(Clone, Copy, Debug, PartialEq, Eq, Structural, Hash)]
pub enum KeyKind {
    Key(Key),
    Button(Button),
}

/// A pointer axis.
#[derive(Clone, Copy, Debug, PartialEq, Eq, Structural)]
pub enum Axis {
    X,
    Y,
}

/// One input event of one device.
#[derive(Clone, Copy, Debug, PartialEq, Eq, Structural)]
pub enum InputEvent {
    Key { direction: Direction, kind: KeyKind },
    Other { type_: u16, code: u16, value: i32 },
}

/// The parameters of an absolute axis.
#[derive(Clone, Copy, Debug, PartialEq, Eq, Structural)]
pub struct AbsInfo {
    pub value: i32,
    pub minimum: i32,
    pub maximum: i32,
    pub fuzz: i32,
    pub flat: i32,
    pub resolution: i32,
}

/// One thing a device can report.
#[derive(Clone, Copy, Debug, PartialEq, Eq, Structural)]
pub enum Capability {
    Other { type_: u16, code: u16 },
    Abs { code: u16, info: AbsInfo },
    Rep { code: u16, value: i32 },
}

/// The descriptor of a device: its identity and what it can report, in the
/// order in which the capabilities have to be enabled.
#[derive(Clone, Debug, PartialEq, Eq)]
pub struct Device {
    pub id: u16,
    pub name: String,
    pub vendor: u16,
    pub product: u16,
    pub bustype: u16,
    pub version: u16,
    pub capabilities: Vec<Capability>,
}

/// What travels from the capturing side to the injecting side.
#[derive(Clone, Debug, PartialEq, Eq)]
pub enum Event {
    Input { device_id: u16, input: InputEvent, syn: bool },
    NewDevice(Device),
    RemoveDevice(u16),
}

} // verus!
