//! The buttons of pointing devices and gamepads.

use vstd::prelude::*;

verus! {

/// A button of a pointing device or a gamepad.
#[derive(Clone, Copy, Debug, PartialEq, Eq, Structural, Hash)]
pub enum Button {
    Left,
    Right,
    Middle,
    Side,
    Extra,
    Forward,
    Back,
    Task,
    Trigger,
    Thumb,
    South,
    East,
    North,
    West,
    TL,
    TR,
    TL2,
    TR2,
    Select,
    Start,
    Mode,
    ThumbL,
    ThumbR,
}

impl Button {
    /// The code by which the kernel knows it.
    pub open spec fn code(self) -> u16 {
        match self {
            Button::Left => 272,
            Button::Right => 273,
            Button::Middle => 274,
            Button::Side => 275,
            Button::Extra => 276,
            Button::Forward => 277,
            Button::Back => 278,
            Button::Task => 279,
            Button::Trigger => 288,
            Button::Thumb => 289,
            Button::South => 304,
            Button::East => 305,
            Button::North => 307,
            Button::West => 308,
            Button::TL => 310,
            Button::TR => 311,
            Button::TL2 => 312,
            Button::TR2 => 313,
            Button::Select => 314,
            Button::Start => 315,
            Button::Mode => 316,
            Button::ThumbL => 317,
            Button::ThumbR => 318,
        }
    }

    /// The code by which the kernel knows it.
    pub fn to_raw(&self) -> (code: u16)
        ensures
            code == self.code(),
    {
        match self {
            Button::Left => 272,
            Button::Right => 273,
            Button::Middle => 274,
            Button::Side => 275,
            Button::Extra => 276,
            Button::Forward => 277,
            Button::Back => 278,
            Button::Task => 279,
            Button::Trigger => 288,
            Button::Thumb => 289,
            Button::South => 304,
            Button::East => 305,
            Button::North => 307,
            Button::West => 308,
            Button::TL => 310,
            Button::TR => 311,
            Button::TL2 => 312,
            Button::TR2 => 313,
            Button::Select => 314,
            Button::Start => 315,
            Button::Mode => 316,
            Button::ThumbL => 317,
            Button::ThumbR => 318,
        }
    }

    /// The one that has this code, if there is one.
    pub fn from_raw(code: u16) -> (found: Option<Button>)
        ensures
            match found {
                Some(k) => k.code() == code,
                None => forall|k: Button| k.code() != code,
            },
    {
        match code {
            272 => Some(Button::Left),
            273 => Some(Button::Right),
            274 => Some(Button::Middle),
            275 => Some(Button::Side),
            276 => Some(Button::Extra),
            277 => Some(Button::Forward),
            278 => Some(Button::Back),
            279 => Some(Button::Task),
            288 => Some(Button::Trigger),
            289 => Some(Button::Thumb),
            304 => Some(Button::South),
            305 => Some(Button::East),
            307 => Some(Button::North),
            308 => Some(Button::West),
            310 => Some(Button::TL),
            311 => Some(Button::TR),
            312 => Some(Button::TL2),
            313 => Some(Button::TR2),
            314 => Some(Button::Select),
            315 => Some(Button::Start),
            316 => Some(Button::Mode),
            317 => Some(Button::ThumbL),
            318 => Some(Button::ThumbR),
            _ => None,
        }
    }
}

/// No two of them share a code.
pub proof fn lemma_button_code_injective(a: Button, b: Button)
    requires
        a.code() == b.code(),
    ensures
        a == b,
{
}

} // verus!
