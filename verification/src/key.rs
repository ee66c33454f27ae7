//! The keys of a keyboard.

use vstd::prelude::*;

verus! {

/// A key of a keyboard.
#[derive(Clone, Copy, Debug, PartialEq, Eq, Structural, Hash)]
pub enum Key {
    Esc,
    N1,
    N2,
    N3,
    N4,
    N5,
    N6,
    N7,
    N8,
    N9,
    N0,
    Minus,
    Equal,
    Backspace,
    Tab,
    Q,
    W,
    E,
    R,
    T,
    Y,
    U,
    I,
    O,
    P,
    LeftBrace,
    RightBrace,
    Enter,
    LeftCtrl,
    A,
    S,
    D,
    F,
    G,
    H,
    J,
    K,
    L,
    Semicolon,
    Apostrophe,
    Grave,
    LeftShift,
    Backslash,
    Z,
    X,
    C,
    V,
    B,
    N,
    M,
    Comma,
    Dot,
    Slash,
    RightShift,
    KpAsterisk,
    LeftAlt,
    Space,
    CapsLock,
    F1,
    F2,
    F3,
    F4,
    F5,
    F6,
    F7,
    F8,
    F9,
    F10,
    NumLock,
    ScrollLock,
    Kp7,
    Kp8,
    Kp9,
    KpMinus,
    Kp4,
    Kp5,
    Kp6,
    KpPlus,
    Kp1,
    Kp2,
    Kp3,
    Kp0,
    KpDot,
    F11,
    F12,
    KpEnter,
    RightCtrl,
    KpSlash,
    SysRq,
    RightAlt,
    Home,
    Up,
    PageUp,
    Left,
    Right,
    End,
    Down,
    PageDown,
    Insert,
    Delete,
    Mute,
    VolumeDown,
    VolumeUp,
    Power,
    KpEqual,
    Pause,
    LeftMeta,
    RightMeta,
    Compose,
    F13,
    F14,
    F15,
    F16,
    F17,
    F18,
    F19,
    F20,
    F21,
    F22,
    F23,
    F24,
}

impl Key {
    /// The code by which the kernel knows it.
    pub open spec fn code(self) -> u16 {
        match self {
            Key::Esc => 1,
            Key::N1 => 2,
            Key::N2 => 3,
            Key::N3 => 4,
            Key::N4 => 5,
            Key::N5 => 6,
            Key::N6 => 7,
            Key::N7 => 8,
            Key::N8 => 9,
            Key::N9 => 10,
            Key::N0 => 11,
            Key::Minus => 12,
            Key::Equal => 13,
            Key::Backspace => 14,
            Key::Tab => 15,
            Key::Q => 16,
            Key::W => 17,
            Key::E => 18,
            Key::R => 19,
            Key::T => 20,
            Key::Y => 21,
            Key::U => 22,
            Key::I => 23,
            Key::O => 24,
            Key::P => 25,
            Key::LeftBrace => 26,
            Key::RightBrace => 27,
            Key::Enter => 28,
            Key::LeftCtrl => 29,
            Key::A => 30,
            Key::S => 31,
            Key::D => 32,
            Key::F => 33,
            Key::G => 34,
            Key::H => 35,
            Key::J => 36,
            Key::K => 37,
            Key::L => 38,
            Key::Semicolon => 39,
            Key::Apostrophe => 40,
            Key::Grave => 41,
            Key::LeftShift => 42,
            Key::Backslash => 43,
            Key::Z => 44,
            Key::X => 45,
            Key::C => 46,
            Key::V => 47,
            Key::B => 48,
            Key::N => 49,
            Key::M => 50,
            Key::Comma => 51,
            Key::Dot => 52,
            Key::Slash => 53,
            Key::RightShift => 54,
            Key::KpAsterisk => 55,
            Key::LeftAlt => 56,
            Key::Space => 57,
            Key::CapsLock => 58,
            Key::F1 => 59,
            Key::F2 => 60,
            Key::F3 => 61,
            Key::F4 => 62,
            Key::F5 => 63,
            Key::F6 => 64,
            Key::F7 => 65,
            Key::F8 => 66,
            Key::F9 => 67,
            Key::F10 => 68,
            Key::NumLock => 69,
            Key::ScrollLock => 70,
            Key::Kp7 => 71,
            Key::Kp8 => 72,
            Key::Kp9 => 73,
            Key::KpMinus => 74,
            Key::Kp4 => 75,
            Key::Kp5 => 76,
            Key::Kp6 => 77,
            Key::KpPlus => 78,
            Key::Kp1 => 79,
            Key::Kp2 => 80,
            Key::Kp3 => 81,
            Key::Kp0 => 82,
            Key::KpDot => 83,
            Key::F11 => 87,
            Key::F12 => 88,
            Key::KpEnter => 96,
            Key::RightCtrl => 97,
            Key::KpSlash => 98,
            Key::SysRq => 99,
            Key::RightAlt => 100,
            Key::Home => 102,
            Key::Up => 103,
            Key::PageUp => 104,
            Key::Left => 105,
            Key::Right => 106,
            Key::End => 107,
            Key::Down => 108,
            Key::PageDown => 109,
            Key::Insert => 110,
            Key::Delete => 111,
            Key::Mute => 113,
            Key::VolumeDown => 114,
            Key::VolumeUp => 115,
            Key::Power => 116,
            Key::KpEqual => 117,
            Key::Pause => 119,
            Key::LeftMeta => 125,
            Key::RightMeta => 126,
            Key::Compose => 127,
            Key::F13 => 183,
            Key::F14 => 184,
            Key::F15 => 185,
            Key::F16 => 186,
            Key::F17 => 187,
            Key::F18 => 188,
            Key::F19 => 189,
            Key::F20 => 190,
            Key::F21 => 191,
            Key::F22 => 192,
            Key::F23 => 193,
            Key::F24 => 194,
        }
    }

    /// The code by which the kernel knows it.
    pub fn to_raw(&self) -> (code: u16)
        ensures
            code == self.code(),
    {
        match self {
            Key::Esc => 1,
            Key::N1 => 2,
            Key::N2 => 3,
            Key::N3 => 4,
            Key::N4 => 5,
            Key::N5 => 6,
            Key::N6 => 7,
            Key::N7 => 8,
            Key::N8 => 9,
            Key::N9 => 10,
            Key::N0 => 11,
            Key::Minus => 12,
            Key::Equal => 13,
            Key::Backspace => 14,
            Key::Tab => 15,
            Key::Q => 16,
            Key::W => 17,
            Key::E => 18,
            Key::R => 19,
            Key::T => 20,
            Key::Y => 21,
            Key::U => 22,
            Key::I => 23,
            Key::O => 24,
            Key::P => 25,
            Key::LeftBrace => 26,
            Key::RightBrace => 27,
            Key::Enter => 28,
            Key::LeftCtrl => 29,
            Key::A => 30,
            Key::S => 31,
            Key::D => 32,
            Key::F => 33,
            Key::G => 34,
            Key::H => 35,
            Key::J => 36,
            Key::K => 37,
            Key::L => 38,
            Key::Semicolon => 39,
            Key::Apostrophe => 40,
            Key::Grave => 41,
            Key::LeftShift => 42,
            Key::Backslash => 43,
            Key::Z => 44,
            Key::X => 45,
            Key::C => 46,
            Key::V => 47,
            Key::B => 48,
            Key::N => 49,
            Key::M => 50,
            Key::Comma => 51,
            Key::Dot => 52,
            Key::Slash => 53,
            Key::RightShift => 54,
            Key::KpAsterisk => 55,
            Key::LeftAlt => 56,
            Key::Space => 57,
            Key::CapsLock => 58,
            Key::F1 => 59,
            Key::F2 => 60,
            Key::F3 => 61,
            Key::F4 => 62,
            Key::F5 => 63,
            Key::F6 => 64,
            Key::F7 => 65,
            Key::F8 => 66,
            Key::F9 => 67,
            Key::F10 => 68,
            Key::NumLock => 69,
            Key::ScrollLock => 70,
            Key::Kp7 => 71,
            Key::Kp8 => 72,
            Key::Kp9 => 73,
            Key::KpMinus => 74,
            Key::Kp4 => 75,
            Key::Kp5 => 76,
            Key::Kp6 => 77,
            Key::KpPlus => 78,
            Key::Kp1 => 79,
            Key::Kp2 => 80,
            Key::Kp3 => 81,
            Key::Kp0 => 82,
            Key::KpDot => 83,
            Key::F11 => 87,
            Key::F12 => 88,
            Key::KpEnter => 96,
            Key::RightCtrl => 97,
            Key::KpSlash => 98,
            Key::SysRq => 99,
            Key::RightAlt => 100,
            Key::Home => 102,
            Key::Up => 103,
            Key::PageUp => 104,
            Key::Left => 105,
            Key::Right => 106,
            Key::End => 107,
            Key::Down => 108,
            Key::PageDown => 109,
            Key::Insert => 110,
            Key::Delete => 111,
            Key::Mute => 113,
            Key::VolumeDown => 114,
            Key::VolumeUp => 115,
            Key::Power => 116,
            Key::KpEqual => 117,
            Key::Pause => 119,
            Key::LeftMeta => 125,
            Key::RightMeta => 126,
            Key::Compose => 127,
            Key::F13 => 183,
            Key::F14 => 184,
            Key::F15 => 185,
            Key::F16 => 186,
            Key::F17 => 187,
            Key::F18 => 188,
            Key::F19 => 189,
            Key::F20 => 190,
            Key::F21 => 191,
            Key::F22 => 192,
            Key::F23 => 193,
            Key::F24 => 194,
        }
    }

    /// The one that has this code, if there is one.
    pub fn from_raw(code: u16) -> (found: Option<Key>)
        ensures
            match found {
                Some(k) => k.code() == code,
                None => forall|k: Key| k.code() != code,
            },
    {
        match code {
            1 => Some(Key::Esc),
            2 => Some(Key::N1),
            3 => Some(Key::N2),
            4 => Some(Key::N3),
            5 => Some(Key::N4),
            6 => Some(Key::N5),
            7 => Some(Key::N6),
            8 => Some(Key::N7),
            9 => Some(Key::N8),
            10 => Some(Key::N9),
            11 => Some(Key::N0),
            12 => Some(Key::Minus),
            13 => Some(Key::Equal),
            14 => Some(Key::Backspace),
            15 => Some(Key::Tab),
            16 => Some(Key::Q),
            17 => Some(Key::W),
            18 => Some(Key::E),
            19 => Some(Key::R),
            20 => Some(Key::T),
            21 => Some(Key::Y),
            22 => Some(Key::U),
            23 => Some(Key::I),
            24 => Some(Key::O),
            25 => Some(Key::P),
            26 => Some(Key::LeftBrace),
            27 => Some(Key::RightBrace),
            28 => Some(Key::Enter),
            29 => Some(Key::LeftCtrl),
            30 => Some(Key::A),
            31 => Some(Key::S),
            32 => Some(Key::D),
            33 => Some(Key::F),
            34 => Some(Key::G),
            35 => Some(Key::H),
            36 => Some(Key::J),
            37 => Some(Key::K),
            38 => Some(Key::L),
            39 => Some(Key::Semicolon),
            40 => Some(Key::Apostrophe),
            41 => Some(Key::Grave),
            42 => Some(Key::LeftShift),
            43 => Some(Key::Backslash),
            44 => Some(Key::Z),
            45 => Some(Key::X),
            46 => Some(Key::C),
            47 => Some(Key::V),
            48 => Some(Key::B),
            49 => Some(Key::N),
            50 => Some(Key::M),
            51 => Some(Key::Comma),
            52 => Some(Key::Dot),
            53 => Some(Key::Slash),
            54 => Some(Key::RightShift),
            55 => Some(Key::KpAsterisk),
            56 => Some(Key::LeftAlt),
            57 => Some(Key::Space),
            58 => Some(Key::CapsLock),
            59 => Some(Key::F1),
            60 => Some(Key::F2),
            61 => Some(Key::F3),
            62 => Some(Key::F4),
            63 => Some(Key::F5),
            64 => Some(Key::F6),
            65 => Some(Key::F7),
            66 => Some(Key::F8),
            67 => Some(Key::F9),
            68 => Some(Key::F10),
            69 => Some(Key::NumLock),
            70 => Some(Key::ScrollLock),
            71 => Some(Key::Kp7),
            72 => Some(Key::Kp8),
            73 => Some(Key::Kp9),
            74 => Some(Key::KpMinus),
            75 => Some(Key::Kp4),
            76 => Some(Key::Kp5),
            77 => Some(Key::Kp6),
            78 => Some(Key::KpPlus),
            79 => Some(Key::Kp1),
            80 => Some(Key::Kp2),
            81 => Some(Key::Kp3),
            82 => Some(Key::Kp0),
            83 => Some(Key::KpDot),
            87 => Some(Key::F11),
            88 => Some(Key::F12),
            96 => Some(Key::KpEnter),
            97 => Some(Key::RightCtrl),
            98 => Some(Key::KpSlash),
            99 => Some(Key::SysRq),
            100 => Some(Key::RightAlt),
            102 => Some(Key::Home),
            103 => Some(Key::Up),
            104 => Some(Key::PageUp),
            105 => Some(Key::Left),
            106 => Some(Key::Right),
            107 => Some(Key::End),
            108 => Some(Key::Down),
            109 => Some(Key::PageDown),
            110 => Some(Key::Insert),
            111 => Some(Key::Delete),
            113 => Some(Key::Mute),
            114 => Some(Key::VolumeDown),
            115 => Some(Key::VolumeUp),
            116 => Some(Key::Power),
            117 => Some(Key::KpEqual),
            119 => Some(Key::Pause),
            125 => Some(Key::LeftMeta),
            126 => Some(Key::RightMeta),
            127 => Some(Key::Compose),
            183 => Some(Key::F13),
            184 => Some(Key::F14),
            185 => Some(Key::F15),
            186 => Some(Key::F16),
            187 => Some(Key::F17),
            188 => Some(Key::F18),
            189 => Some(Key::F19),
            190 => Some(Key::F20),
            191 => Some(Key::F21),
            192 => Some(Key::F22),
            193 => Some(Key::F23),
            194 => Some(Key::F24),
            _ => None,
        }
    }
}

/// No two of them share a code.
pub proof fn lemma_key_code_injective(a: Key, b: Key)
    requires
        a.code() == b.code(),
    ensures
        a == b,
{
}

} // verus!
