use evkvm::event::{Device, Direction, Event, InputEvent, KeyKind};
use evkvm::key::Key;
use evkvm::raw::RawEvent;
use evkvm::reader::CaptureError;
use evkvm::server::{Server, Step};
use evkvm::writer::WriterAction;

fn keyboard(id: u16) -> Device {
    Device {
        id,
        name: String::from("keyboard"),
        vendor: 1,
        product: 2,
        bustype: 3,
        version: 4,
        capabilities: Vec::new(),
    }
}

fn key(direction: Direction, key: Key, syn: bool) -> Event {
    Event::Input {
        device_id: 7,
        input: InputEvent::Key { direction, kind: KeyKind::Key(key) },
        syn,
    }
}

fn raw(code: u16, value: i32) -> RawEvent {
    RawEvent { type_: 1, code, value }
}

fn inject(code: u16, value: i32, syn: bool) -> Step {
    Step::Local(WriterAction::Inject { device_id: 7, event: raw(code, value), syn })
}

fn started() -> Server {
    let mut server = Server::new(&[Key::LeftAlt, Key::RightAlt]);
    let steps = server.read(None, Some(Ok(Event::NewDevice(keyboard(7))))).unwrap();
    assert_eq!(steps, vec![Step::Local(WriterAction::Create { device_id: 7, replaces: false })]);
    server
}

#[test]
fn key_of_a_known_device_is_injected_locally() {
    let mut server = started();
    let steps = server.read(None, Some(Ok(key(Direction::Down, Key::A, false)))).unwrap();
    assert_eq!(steps, vec![inject(30, 1, false)]);
    assert_eq!(server.controller.current(), 0);
}

#[test]
fn combo_hands_the_input_to_the_peer() {
    let mut server = started();
    assert_eq!(server.connect(), Some(vec![Event::NewDevice(keyboard(7))]));
    assert_eq!(
        server.route(key(Direction::Down, Key::LeftAlt, false)),
        vec![inject(56, 1, false)]
    );
    let steps = server.route(key(Direction::Down, Key::RightAlt, false));
    assert_eq!(server.controller.current(), 1);
    assert_eq!(
        steps,
        vec![
            inject(56, 0, true),
            Step::Offer { peer: 0, event: key(Direction::Down, Key::LeftAlt, true) },
            inject(100, 0, true),
            Step::Offer { peer: 0, event: key(Direction::Down, Key::RightAlt, true) },
            Step::Deliver { peer: 0, event: key(Direction::Down, Key::RightAlt, false) },
        ]
    );
    assert_eq!(
        server.route(key(Direction::Down, Key::A, false)),
        vec![Step::Deliver { peer: 0, event: key(Direction::Down, Key::A, false) }]
    );
}

#[test]
fn combo_hands_the_input_back() {
    let mut server = started();
    server.connect().unwrap();
    server.route(key(Direction::Down, Key::LeftAlt, false));
    server.route(key(Direction::Down, Key::RightAlt, false));
    server.route(key(Direction::Up, Key::LeftAlt, false));
    server.route(key(Direction::Up, Key::RightAlt, false));
    assert_eq!(server.controller.current(), 1);
    server.route(key(Direction::Down, Key::RightAlt, false));
    let steps = server.route(key(Direction::Down, Key::LeftAlt, false));
    assert_eq!(server.controller.current(), 0);
    assert_eq!(
        steps,
        vec![
            Step::Offer { peer: 0, event: key(Direction::Up, Key::LeftAlt, true) },
            inject(56, 1, true),
            Step::Offer { peer: 0, event: key(Direction::Up, Key::RightAlt, true) },
            inject(100, 1, true),
            inject(56, 1, false),
        ]
    );
}

#[test]
fn peer_that_is_gone_is_dropped_and_the_event_injected() {
    let mut server = started();
    server.connect().unwrap();
    server.connect().unwrap();
    server.route(key(Direction::Down, Key::LeftAlt, false));
    server.route(key(Direction::Down, Key::RightAlt, false));
    let event = key(Direction::Down, Key::A, false);
    assert_eq!(
        server.route(event.clone()),
        vec![Step::Deliver { peer: 0, event: event.clone() }]
    );
    let (gone, action) = server.send_failed(event);
    assert_eq!(gone, Some(0));
    assert_eq!(action, WriterAction::Inject { device_id: 7, event: raw(30, 1), syn: false });
    assert_eq!(server.controller.current(), 0);
    assert_eq!(server.controller.clients(), 1);
}

#[test]
fn new_device_reaches_the_peer_that_has_the_input() {
    let mut server = started();
    server.connect().unwrap();
    server.route(key(Direction::Down, Key::LeftAlt, false));
    server.route(key(Direction::Down, Key::RightAlt, false));
    let steps = server.read(None, Some(Ok(Event::NewDevice(keyboard(9))))).unwrap();
    assert_eq!(steps, vec![Step::Deliver { peer: 0, event: Event::NewDevice(keyboard(9)) }]);
    assert_eq!(server.readers.devices, vec![keyboard(7), keyboard(9)]);
    assert_eq!(
        server.connect(),
        Some(vec![Event::NewDevice(keyboard(7)), Event::NewDevice(keyboard(9))])
    );
}

#[test]
fn failure_of_the_capture_stops_the_server() {
    let mut server = started();
    assert_eq!(server.read(Some(5), None), Err(CaptureError::Watcher(5)));
    assert_eq!(server.read(None, None), Err(CaptureError::AllDevicesClosed));
    assert_eq!(server.read(None, Some(Err(11))), Err(CaptureError::Io(11)));
}

#[test]
fn event_of_an_unknown_device_is_dropped_locally() {
    let mut server = Server::new(&[Key::LeftAlt]);
    assert_eq!(
        server.route(key(Direction::Down, Key::A, false)),
        vec![Step::Local(WriterAction::Nothing)]
    );
    // Without a peer the combo comes back to the local side.
    assert_eq!(
        server.route(key(Direction::Down, Key::LeftAlt, false)),
        vec![
            Step::Local(WriterAction::Nothing),
            Step::Local(WriterAction::Nothing),
            Step::Local(WriterAction::Nothing),
        ]
    );
}
