use evkvm::button::Button;
use evkvm::event::{Direction, InputEvent, KeyKind};
use evkvm::key::Key;
use evkvm::raw::{RawEvent, EV_KEY, EV_SYN, SYN_REPORT};

#[test]
fn key_codes_are_the_kernels() {
    assert_eq!(Key::Esc.to_raw(), 1);
    assert_eq!(Key::A.to_raw(), 30);
    assert_eq!(Key::LeftAlt.to_raw(), 56);
    assert_eq!(Key::RightAlt.to_raw(), 100);
    assert_eq!(Key::F24.to_raw(), 194);
    assert_eq!(Button::Left.to_raw(), 272);
    assert_eq!(Button::South.to_raw(), 304);
}

#[test]
fn key_from_raw_inverts_to_raw() {
    for code in 0..=u16::MAX {
        if let Some(key) = Key::from_raw(code) {
            assert_eq!(key.to_raw(), code);
        }
        if let Some(button) = Button::from_raw(code) {
            assert_eq!(button.to_raw(), code);
            assert_eq!(Key::from_raw(code), None);
        }
    }
    assert_eq!(Key::from_raw(56), Some(Key::LeftAlt));
    assert_eq!(Key::from_raw(0), None);
    assert_eq!(Button::from_raw(273), Some(Button::Right));
    assert_eq!(Button::from_raw(30), None);
}

#[test]
fn kind_from_raw_tries_keys_then_buttons() {
    assert_eq!(KeyKind::from_raw(30), Some(KeyKind::Key(Key::A)));
    assert_eq!(KeyKind::from_raw(272), Some(KeyKind::Button(Button::Left)));
    assert_eq!(KeyKind::from_raw(0x2ff), None);
    assert_eq!(KeyKind::Key(Key::RightAlt).to_raw(), 100);
    assert_eq!(KeyKind::Button(Button::Middle).to_raw(), 274);
}

#[test]
fn key_event_to_raw() {
    let down = InputEvent::Key { direction: Direction::Down, kind: KeyKind::Key(Key::A) };
    assert_eq!(down.to_raw(), RawEvent { type_: EV_KEY, code: 30, value: 1 });
    let up = InputEvent::Key { direction: Direction::Up, kind: KeyKind::Button(Button::Left) };
    assert_eq!(up.to_raw(), RawEvent { type_: 1, code: 272, value: 0 });
}

#[test]
fn other_event_to_raw_is_carried() {
    let other = InputEvent::Other { type_: 2, code: 8, value: -1 };
    assert_eq!(other.to_raw(), RawEvent { type_: 2, code: 8, value: -1 });
    let syn = InputEvent::Other { type_: EV_SYN, code: SYN_REPORT, value: 0 };
    assert_eq!(syn.to_raw(), RawEvent { type_: 0, code: 0, value: 0 });
}

#[test]
fn from_raw_reads_key_edges() {
    assert_eq!(
        InputEvent::from_raw(RawEvent { type_: 1, code: 56, value: 1 }),
        Some(InputEvent::Key { direction: Direction::Down, kind: KeyKind::Key(Key::LeftAlt) })
    );
    assert_eq!(
        InputEvent::from_raw(RawEvent { type_: 1, code: 56, value: 0 }),
        Some(InputEvent::Key { direction: Direction::Up, kind: KeyKind::Key(Key::LeftAlt) })
    );
}

#[test]
fn from_raw_drops_unknown_key_edges() {
    assert_eq!(InputEvent::from_raw(RawEvent { type_: 1, code: 0x2ff, value: 1 }), None);
    assert_eq!(InputEvent::from_raw(RawEvent { type_: 1, code: 0, value: 0 }), None);
}

#[test]
fn from_raw_carries_the_rest() {
    // A key repeat is no edge.
    assert_eq!(
        InputEvent::from_raw(RawEvent { type_: 1, code: 30, value: 2 }),
        Some(InputEvent::Other { type_: 1, code: 30, value: 2 })
    );
    assert_eq!(
        InputEvent::from_raw(RawEvent { type_: 3, code: 0, value: 512 }),
        Some(InputEvent::Other { type_: 3, code: 0, value: 512 })
    );
}

#[test]
fn raw_round_trip_of_every_meaning() {
    for type_ in [0u16, 1, 2, 3, 4, 0x14] {
        for code in 0..0x300u16 {
            for value in [-1i32, 0, 1, 2] {
                let raw = RawEvent { type_, code, value };
                if let Some(event) = InputEvent::from_raw(raw) {
                    assert_eq!(event.to_raw(), raw);
                }
            }
        }
    }
}
