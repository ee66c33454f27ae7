use evkvm::device::{BUSTYPE, LOCAL_DEVICE_ID};
use evkvm::event::{AbsInfo, Capability, Device, Direction, Event, InputEvent, KeyKind};
use evkvm::key::Key;
use evkvm::manager::EventManager;
use evkvm::raw::RawEvent;
use evkvm::reader::{
    capabilities_of, capability_of, device_id_of, is_event_node, CaptureError, EventReader,
    OpenError, ReaderManager, Reading, Supported, ENODEV, STARTUP_QUIESCENCE_MILLIS,
};
use evkvm::writer::{EnableData, EnableRequest, EventWriter, WriterAction, WriterManager};

fn axis() -> AbsInfo {
    AbsInfo { value: 1, minimum: -2, maximum: 3, fuzz: 4, flat: 5, resolution: 6 }
}

fn keyboard(id: u16) -> Device {
    Device {
        id,
        name: String::from("keyboard"),
        vendor: 0x046d,
        product: 0xc31c,
        bustype: 0x03,
        version: 0x0110,
        capabilities: vec![
            Capability::Other { type_: 0, code: 0 },
            Capability::Other { type_: 1, code: 30 },
            Capability::Abs { code: 1, info: axis() },
            Capability::Rep { code: 0, value: 250 },
        ],
    }
}

fn press(device_id: u16, syn: bool) -> Event {
    Event::Input {
        device_id,
        input: InputEvent::Key { direction: Direction::Down, kind: KeyKind::Key(Key::A) },
        syn,
    }
}

#[test]
fn marks_of_synthetic_devices() {
    assert_eq!(BUSTYPE, 6);
    assert_eq!(LOCAL_DEVICE_ID, u16::MAX);
    assert_eq!(STARTUP_QUIESCENCE_MILLIS, 500);
}

#[test]
fn device_id_is_the_numeric_suffix() {
    assert_eq!(device_id_of(b"event42"), 42);
    assert_eq!(device_id_of(b"event0"), 0);
    assert_eq!(device_id_of(b"event007"), 7);
    assert_eq!(device_id_of(b"event65535"), 65535);
}

#[test]
fn device_id_defaults_to_zero() {
    assert_eq!(device_id_of(b"event"), 0);
    assert_eq!(device_id_of(b"eventx"), 0);
    assert_eq!(device_id_of(b"event4x"), 0);
    assert_eq!(device_id_of(b"event-1"), 0);
    assert_eq!(device_id_of(b"event65536"), 0);
    assert_eq!(device_id_of(b"event99999999999999999999"), 0);
    assert_eq!(device_id_of(b"ev"), 0);
    assert_eq!(device_id_of(b""), 0);
}

#[test]
fn only_event_files_are_opened() {
    assert!(is_event_node(b"event0", false));
    assert!(is_event_node(b"event", false));
    assert!(is_event_node(b"eventual", false));
    assert!(!is_event_node(b"event0", true));
    assert!(!is_event_node(b"mouse0", false));
    assert!(!is_event_node(b"even", false));
    assert!(!is_event_node(b"", false));
    assert!(!is_event_node(b"Event0", false));
    assert!(!is_event_node(b"by-id", true));
}

#[test]
fn capabilities_follow_the_supported_pairs() {
    let supported = [
        Supported { type_: 0, code: 0, info: None, value: 0 },
        Supported { type_: 1, code: 30, info: None, value: 1 },
        Supported { type_: 3, code: 1, info: Some(axis()), value: 9 },
        Supported { type_: 5, code: 0, info: None, value: 0 },
        Supported { type_: 0x14, code: 0, info: None, value: 250 },
    ];
    assert_eq!(
        capabilities_of(&supported),
        vec![
            Capability::Other { type_: 0, code: 0 },
            Capability::Other { type_: 1, code: 30 },
            Capability::Abs { code: 1, info: axis() },
            Capability::Other { type_: 5, code: 0 },
            Capability::Rep { code: 0, value: 250 },
        ]
    );
    assert_eq!(capability_of(&supported[2]), Capability::Abs { code: 1, info: axis() });
    assert_eq!(capabilities_of(&[]), Vec::new());
}

#[test]
fn reader_takes_the_identity_of_the_device() {
    let supported = [Supported { type_: 1, code: 30, info: None, value: 0 }];
    let reader =
        EventReader::new(b"event7", String::from("kbd"), 1, 2, 3, 4, &supported).unwrap();
    assert_eq!(
        reader.device,
        Device {
            id: 7,
            name: String::from("kbd"),
            vendor: 1,
            product: 2,
            bustype: 3,
            version: 4,
            capabilities: vec![Capability::Other { type_: 1, code: 30 }],
        }
    );
}

#[test]
fn reader_announces_its_device() {
    let reader = EventReader::new(b"event7", String::from("kbd"), 1, 2, 3, 4, &[]).unwrap();
    assert_eq!(reader.announce(), Event::NewDevice(reader.device.duplicate()));
    assert_eq!(OpenError::AlreadyOpened.fatal(), None);
    assert_eq!(OpenError::Io(13).fatal(), Some(13));
}

#[test]
fn reader_refuses_the_virtual_bus() {
    let refused = EventReader::new(b"event7", String::from("kbd"), 1, 2, BUSTYPE, 4, &[]);
    assert_eq!(refused.err(), Some(OpenError::AlreadyOpened));
}

#[test]
fn device_of_a_writer_is_refused_by_the_reader() {
    let writer = EventWriter::new(keyboard(7));
    let device = writer.device();
    let opened = EventReader::new(
        b"event31",
        device.name.clone(),
        device.vendor,
        device.product,
        device.bustype,
        device.version,
        &[],
    );
    assert_eq!(opened.err(), Some(OpenError::AlreadyOpened));
}

#[test]
fn reading_of_a_device() {
    let reader = EventReader::new(b"event7", String::from("kbd"), 1, 2, 3, 4, &[]).unwrap();
    assert_eq!(
        reader.read(Ok(RawEvent { type_: 1, code: 30, value: 1 })),
        Reading::Input {
            device_id: 7,
            input: InputEvent::Key { direction: Direction::Down, kind: KeyKind::Key(Key::A) },
            syn: false,
        }
    );
    assert_eq!(reader.read(Ok(RawEvent { type_: 1, code: 0x2ff, value: 1 })), Reading::Ignored);
    assert_eq!(reader.read(Err(ENODEV)), Reading::Removed { device_id: 7 });
    assert_eq!(reader.read(Err(5)), Reading::Failed { errno: 5 });
    assert_eq!(ENODEV, 19);
    assert_eq!(ENODEV, libc::ENODEV);
}

#[test]
fn writer_forces_the_virtual_bus() {
    let writer = EventWriter::new(keyboard(7));
    let mut expected = keyboard(7);
    expected.bustype = BUSTYPE;
    assert_eq!(writer.device(), &expected);
}

#[test]
fn writer_enables_capabilities_in_order() {
    let writer = EventWriter::new(keyboard(7));
    assert_eq!(
        writer.setup(),
        vec![
            EnableRequest { type_: 0, code: 0, data: EnableData::Nothing },
            EnableRequest { type_: 1, code: 30, data: EnableData::Nothing },
            EnableRequest { type_: 3, code: 1, data: EnableData::Abs(axis()) },
            EnableRequest { type_: 0x14, code: 0, data: EnableData::Rep(250) },
        ]
    );
}

#[test]
fn descriptor_of_a_reader_is_enabled_pair_by_pair() {
    let supported = [
        Supported { type_: 1, code: 30, info: None, value: 0 },
        Supported { type_: 1, code: 56, info: None, value: 0 },
        Supported { type_: 3, code: 0, info: Some(axis()), value: 0 },
        Supported { type_: 0x14, code: 1, info: None, value: 33 },
    ];
    let reader = EventReader::new(b"event2", String::from("kbd"), 1, 2, 3, 4, &supported).unwrap();
    let requests = EventWriter::new(reader.device).setup();
    assert_eq!(requests.len(), supported.len());
    for (request, pair) in requests.iter().zip(supported.iter()) {
        assert_eq!((request.type_, request.code), (pair.type_, pair.code));
    }
}

#[test]
fn writer_manager_injects_into_known_devices() {
    let mut manager = WriterManager::new();
    assert_eq!(
        manager.write(Event::NewDevice(keyboard(7))),
        WriterAction::Create { device_id: 7, replaces: false }
    );
    assert_eq!(manager.writers.len(), 1);
    assert_eq!(manager.writers[&7].device().bustype, BUSTYPE);
    assert_eq!(
        manager.write(press(7, false)),
        WriterAction::Inject {
            device_id: 7,
            event: RawEvent { type_: 1, code: 30, value: 1 },
            syn: false
        }
    );
    assert_eq!(
        manager.write(press(7, true)),
        WriterAction::Inject {
            device_id: 7,
            event: RawEvent { type_: 1, code: 30, value: 1 },
            syn: true
        }
    );
    assert_eq!(WriterManager::sync_event(), RawEvent { type_: 0, code: 0, value: 0 });
}

#[test]
fn writer_manager_drops_events_of_unknown_devices() {
    let mut manager = WriterManager::new();
    assert_eq!(manager.write(press(7, false)), WriterAction::Nothing);
    assert_eq!(manager.write(Event::RemoveDevice(7)), WriterAction::Nothing);
    assert!(manager.writers.is_empty());
}

#[test]
fn writer_manager_destroys_removed_devices() {
    let mut manager = WriterManager::new();
    manager.write(Event::NewDevice(keyboard(7)));
    manager.write(Event::NewDevice(keyboard(8)));
    assert_eq!(
        manager.write(Event::NewDevice(keyboard(7))),
        WriterAction::Create { device_id: 7, replaces: true }
    );
    assert_eq!(manager.writers.len(), 2);
    assert_eq!(manager.write(Event::RemoveDevice(7)), WriterAction::Destroy { device_id: 7 });
    assert_eq!(manager.write(press(7, false)), WriterAction::Nothing);
    assert!(manager.writers.contains_key(&8));
    assert_eq!(manager.writers.len(), 1);
}

#[test]
fn reader_manager_keeps_the_table() {
    let mut manager = ReaderManager::new();
    assert_eq!(
        manager.read(None, Some(Ok(Event::NewDevice(keyboard(7))))),
        Ok(Event::NewDevice(keyboard(7)))
    );
    assert_eq!(manager.read(None, Some(Ok(press(7, false)))), Ok(press(7, false)));
    manager.read(None, Some(Ok(Event::NewDevice(keyboard(9))))).unwrap();
    assert_eq!(manager.devices, vec![keyboard(7), keyboard(9)]);
    let mut renamed = keyboard(7);
    renamed.name = String::from("other");
    manager.read(None, Some(Ok(Event::NewDevice(renamed.clone())))).unwrap();
    assert_eq!(manager.devices, vec![keyboard(9), renamed.clone()]);
    assert_eq!(manager.read(None, Some(Ok(Event::RemoveDevice(9)))), Ok(Event::RemoveDevice(9)));
    assert_eq!(manager.devices, vec![renamed]);
    manager.read(None, Some(Ok(Event::RemoveDevice(1)))).unwrap();
    assert_eq!(manager.devices.len(), 1);
}

#[test]
fn reader_manager_reports_failures() {
    let mut manager = ReaderManager::new();
    manager.read(None, Some(Ok(Event::NewDevice(keyboard(7))))).unwrap();
    assert_eq!(manager.read(None, None), Err(CaptureError::AllDevicesClosed));
    assert_eq!(manager.read(None, Some(Err(5))), Err(CaptureError::Io(5)));
    assert_eq!(
        manager.read(Some(24), Some(Ok(Event::RemoveDevice(7)))),
        Err(CaptureError::Watcher(24))
    );
    assert_eq!(manager.read(Some(24), None), Err(CaptureError::Watcher(24)));
    assert_eq!(manager.devices, vec![keyboard(7)]);
}

#[test]
fn new_peer_is_told_of_every_open_device() {
    let mut manager = ReaderManager::new();
    assert_eq!(manager.snapshot(), Vec::new());
    manager.read(None, Some(Ok(Event::NewDevice(keyboard(7))))).unwrap();
    manager.read(None, Some(Ok(Event::NewDevice(keyboard(3))))).unwrap();
    assert_eq!(
        manager.snapshot(),
        vec![Event::NewDevice(keyboard(7)), Event::NewDevice(keyboard(3))]
    );
    // A device that is plugged in later is in the next snapshot.
    manager.read(None, Some(Ok(Event::NewDevice(keyboard(11))))).unwrap();
    assert_eq!(manager.snapshot().len(), 3);
}

#[test]
fn duplicate_is_equal() {
    assert_eq!(keyboard(5).duplicate(), keyboard(5));
}

#[test]
fn event_manager_mirrors_its_devices() {
    let mut manager = EventManager::new();
    assert_eq!(manager.local_device_id, LOCAL_DEVICE_ID);
    let (read, action) = manager.read(None, Some(Ok(Event::NewDevice(keyboard(7)))));
    assert_eq!(read, Ok(Event::NewDevice(keyboard(7))));
    assert_eq!(action, WriterAction::Create { device_id: 7, replaces: false });
    assert_eq!(manager.readers.devices, vec![keyboard(7)]);
    assert_eq!(manager.writers.writers[&7].device().bustype, BUSTYPE);

    let (read, action) = manager.read(None, Some(Ok(press(7, false))));
    assert_eq!(read, Ok(press(7, false)));
    assert_eq!(action, WriterAction::Nothing);
    assert_eq!(
        manager.write(press(7, true)),
        WriterAction::Inject {
            device_id: 7,
            event: RawEvent { type_: 1, code: 30, value: 1 },
            syn: true
        }
    );

    let (read, action) = manager.read(None, Some(Ok(Event::RemoveDevice(7))));
    assert_eq!(read, Ok(Event::RemoveDevice(7)));
    assert_eq!(action, WriterAction::Destroy { device_id: 7 });
    assert!(manager.readers.devices.is_empty());
    assert!(manager.writers.writers.is_empty());

    let (read, action) = manager.read(Some(2), None);
    assert_eq!(read, Err(CaptureError::Watcher(2)));
    assert_eq!(action, WriterAction::Nothing);
}
