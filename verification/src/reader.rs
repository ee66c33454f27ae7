//! The capturing side: which device nodes are opened, what a device's
//! descriptor is made of, what becomes of what is read from it, and the
//! table of the devices that are open.

use vstd::prelude::*;

use crate::device::DeviceView;
use crate::device::BUSTYPE;
use crate::event::AbsInfo;
use crate::event::Capability;
use crate::event::Device;
use crate::event::Event;
use crate::event::InputEvent;
use crate::raw::RawEvent;
use crate::raw::EV_ABS;
use crate::raw::EV_REP;
use crate::writer::EventWriter;

verus! {

/// The error number with which a read ends once the device is gone.
pub const ENODEV: i32 = 19;

/// Milliseconds to wait before the first device is opened, so that the
/// release of the key that started the program is not captured.
pub const STARTUP_QUIESCENCE_MILLIS: u64 = 500;

/// Octets of the prefix of an event node's name.
pub const PREFIX_LEN: usize = 5;

/// Why a device was not opened.
#[derive(Clone, Copy, Debug, PartialEq, Eq, Structural)]
pub enum OpenError {
    /// The device is one that the injecting side created.
    AlreadyOpened,
    /// The system refused, with this error number.
    Io(i32),
}

impl OpenError {
    /// The error number with which scanning for devices fails. A device
    /// that the injecting side created is passed over without failure.
    pub fn fatal(&self) -> (errno: Option<i32>)
        ensures
            errno == match *self {
                OpenError::AlreadyOpened => None::<i32>,
                OpenError::Io(errno) => Some(errno),
            },
    {
        match *self {
            OpenError::AlreadyOpened => None,
            OpenError::Io(errno) => Some(errno),
        }
    }
}

/// Why the capturing side has no event to give.
#[derive(Clone, Copy, Debug, PartialEq, Eq, Structural)]
pub enum CaptureError {
    /// Watching the device directory failed, with this error number.
    Watcher(i32),
    /// Every reader is gone.
    AllDevicesClosed,
    /// Reading a device failed, with this error number.
    Io(i32),
}

/// One (type, code) pair that a device supports, with what the device says
/// of it: the axis parameters where it is an absolute axis, and its
/// current value.
#[derive(Clone, Copy, Debug, PartialEq, Eq, Structural)]
pub struct Supported {
    pub type_: u16,
    pub code: u16,
    pub info: Option<AbsInfo>,
    pub value: i32,
}

/// What became of one read from a device.
#[derive(Clone, Copy, Debug, PartialEq, Eq, Structural)]
pub enum Reading {
    /// Nothing to pass on; read again.
    Ignored,
    /// An input event of the device; pass it on and read again. A reader
    /// asks for no pulse after it: `syn` is not set.
    Input { device_id: u16, input: InputEvent, syn: bool },
    /// The device is gone; say so and stop reading.
    Removed { device_id: u16 },
    /// The read failed with this error number; pass that on and stop.
    Failed { errno: i32 },
}

/// The name of an event node begins with `event`.
pub open spec fn has_event_prefix(file_name: Seq<u8>) -> bool {
    file_name.len() >= 5 && file_name.subrange(0, 5) == seq![101u8, 118u8, 101u8, 110u8, 116u8]
}

/// Whether an octet is a decimal digit.
pub open spec fn is_digit(octet: u8) -> bool {
    48 <= octet <= 57
}

/// The number that the digits write in decimal, `None` where one of them is
/// no digit. No digits write zero.
pub open spec fn decimal(digits: Seq<u8>) -> Option<nat>
    decreases digits.len(),
{
    if digits.len() == 0 {
        Some(0)
    } else if !is_digit(digits.last()) {
        None
    } else {
        match decimal(digits.drop_last()) {
            Some(value) => Some(10 * value + (digits.last() - 48) as nat),
            None => None,
        }
    }
}

/// The id of the device behind a node: the number after the prefix of the
/// node's name, zero where that is no number or none that fits.
pub open spec fn device_id(file_name: Seq<u8>) -> u16 {
    if file_name.len() <= 5 {
        0
    } else {
        match decimal(file_name.skip(5)) {
            Some(value) => if value <= u16::MAX {
                value as u16
            } else {
                0
            },
            None => 0,
        }
    }
}

/// The capability that a supported pair stands for.
pub open spec fn capability_for(pair: Supported) -> Capability {
    if pair.type_ == EV_ABS {
        Capability::Abs { code: pair.code, info: pair.info.unwrap() }
    } else if pair.type_ == EV_REP {
        Capability::Rep { code: pair.code, value: pair.value }
    } else {
        Capability::Other { type_: pair.type_, code: pair.code }
    }
}

/// Whether a device on that bus is opened: every one but those that the
/// injecting side created.
pub open spec fn opens(bustype: u16) -> bool {
    bustype != BUSTYPE
}

/// Whether the pairs stand in increasing order, by type and then by code.
pub open spec fn pairs_increase(pairs: Seq<(u16, u16)>) -> bool {
    forall|i: int, j: int|
        0 <= i < j < pairs.len() ==> pairs[i].0 < pairs[j].0 || (pairs[i].0 == pairs[j].0
            && pairs[i].1 < pairs[j].1)
}

/// The pairs under which the capabilities for `supported` are enabled, in
/// the order in which a writer asks for them.
pub open spec fn enabled_pairs(supported: Seq<Supported>) -> Seq<(u16, u16)> {
    supported.map_values(|pair: Supported| capability_for(pair)).map_values(
        |capability: Capability| (capability.request().type_, capability.request().code),
    )
}

/// Whether a directory entry is a device to open: a file whose name begins
/// with `event`.
pub fn is_event_node(file_name: &[u8], is_dir: bool) -> (eligible: bool)
    ensures
        eligible == (!is_dir && has_event_prefix(file_name@)),
{
    if is_dir || file_name.len() < PREFIX_LEN {
        return false;
    }
    let eligible = file_name[0] == 101 && file_name[1] == 118 && file_name[2] == 101
        && file_name[3] == 110 && file_name[4] == 116;
    proof {
        let prefix = file_name@.subrange(0, 5);
        let word = seq![101u8, 118u8, 101u8, 110u8, 116u8];
        if eligible {
            assert(prefix =~= word);
        } else {
            assert(prefix[0] == file_name@[0]);
            assert(prefix[1] == file_name@[1]);
            assert(prefix[2] == file_name@[2]);
            assert(prefix[3] == file_name@[3]);
            assert(prefix[4] == file_name@[4]);
        }
    }
    eligible
}

/// The id of the device behind the node of that name.
pub fn device_id_of(file_name: &[u8]) -> (id: u16)
    ensures
        id == device_id(file_name@),
{
    if file_name.len() <= PREFIX_LEN {
        return 0;
    }
    let ghost digits = file_name@.skip(5);
    let mut value: u32 = 0;
    let mut at: usize = PREFIX_LEN;
    while at < file_name.len()
        invariant
            PREFIX_LEN <= at <= file_name.len(),
            digits == file_name@.skip(5),
            decimal(digits.subrange(0, at - 5)) == Some(value as nat),
            value <= u16::MAX,
        decreases file_name.len() - at,
    {
        let octet: u8 = file_name[at];
        proof {
            assert(digits.subrange(0, at - 5 + 1).drop_last() =~= digits.subrange(0, at - 5));
            assert(digits.subrange(0, at - 5 + 1).last() == octet);
            lemma_decimal_extends(digits, at - 5 + 1);
        }
        if octet < 48 || octet > 57 {
            return 0;
        }
        let next: u32 = value * 10 + (octet - 48) as u32;
        if next > u16::MAX as u32 {
            return 0;
        }
        value = next;
        at += 1;
    }
    assert(digits.subrange(0, at - 5) =~= digits);
    value as u16
}

/// A device on its node: the descriptor that was read from it.
#[derive(Debug)]
pub struct EventReader {
    pub device: Device,
}

impl EventReader {
    /// The reader of the device behind the node `file_name`, from what the
    /// device says of itself. A device on the virtual bus is refused,
    /// whatever else it says. The capabilities are the supported pairs, in
    /// their order.
    pub fn new(
        file_name: &[u8],
        name: String,
        vendor: u16,
        product: u16,
        bustype: u16,
        version: u16,
        supported: &[Supported],
    ) -> (opened: Result<Self, OpenError>)
        requires
            forall|i: int|
                0 <= i < supported@.len() && supported@[i].type_ == EV_ABS
                    ==> supported@[i].info.is_some(),
        ensures
            opened.is_ok() == opens(bustype),
            match opened {
                Ok(reader) => reader.device@ == (DeviceView {
                    id: device_id(file_name@),
                    name: name@,
                    vendor,
                    product,
                    bustype,
                    version,
                    capabilities: supported@.map_values(|pair: Supported| capability_for(pair)),
                }),
                Err(error) => error == OpenError::AlreadyOpened,
            },
    {
        if bustype == BUSTYPE {
            return Err(OpenError::AlreadyOpened);
        }
        let id: u16 = device_id_of(file_name);
        let capabilities = capabilities_of(supported);
        Ok(
            EventReader {
                device: Device { id, name, vendor, product, bustype, version, capabilities },
            },
        )
    }

    /// What the manager is told first of the device: that it is new.
    pub fn announce(&self) -> (event: Event)
        ensures
            event matches Event::NewDevice(device) && device@ == self.device@,
    {
        Event::NewDevice(self.device.duplicate())
    }

    /// What becomes of one read from the device. A raw event with a meaning
    /// is an input event of this device; one without is ignored. The error
    /// that says that the device is gone removes the device; any other
    /// error is passed on.
    pub fn read(&self, read: Result<RawEvent, i32>) -> (reading: Reading)
        ensures
            reading == match read {
                Ok(raw) => match InputEvent::of_raw(raw) {
                    Some(input) => Reading::Input { device_id: self.device.id, input, syn: false },
                    None => Reading::Ignored,
                },
                Err(errno) => if errno == ENODEV {
                    Reading::Removed { device_id: self.device.id }
                } else {
                    Reading::Failed { errno }
                },
            },
    {
        match read {
            Ok(raw) => match InputEvent::from_raw(raw) {
                Some(input) => Reading::Input { device_id: self.device.id, input, syn: false },
                None => Reading::Ignored,
            },
            Err(errno) => if errno == ENODEV {
                Reading::Removed { device_id: self.device.id }
            } else {
                Reading::Failed { errno }
            },
        }
    }
}

/// The capability that a supported pair stands for.
pub fn capability_of(pair: &Supported) -> (capability: Capability)
    requires
        pair.type_ == EV_ABS ==> pair.info.is_some(),
    ensures
        capability == capability_for(*pair),
{
    if pair.type_ == EV_ABS {
        Capability::Abs { code: pair.code, info: pair.info.unwrap() }
    } else if pair.type_ == EV_REP {
        Capability::Rep { code: pair.code, value: pair.value }
    } else {
        Capability::Other { type_: pair.type_, code: pair.code }
    }
}

/// The capabilities that the supported pairs stand for, in their order.
pub fn capabilities_of(supported: &[Supported]) -> (capabilities: Vec<Capability>)
    requires
        forall|i: int|
            0 <= i < supported@.len() && supported@[i].type_ == EV_ABS
                ==> supported@[i].info.is_some(),
    ensures
        capabilities@ == supported@.map_values(|pair: Supported| capability_for(pair)),
{
    let mut capabilities: Vec<Capability> = Vec::new();
    let mut i: usize = 0;
    while i < supported.len()
        invariant
            i <= supported.len(),
            forall|i: int|
                0 <= i < supported@.len() && supported@[i].type_ == EV_ABS
                    ==> supported@[i].info.is_some(),
            capabilities@ == supported@.subrange(0, i as int).map_values(
                |pair: Supported| capability_for(pair),
            ),
        decreases supported.len() - i,
    {
        capabilities.push(capability_of(&supported[i]));
        assert(supported@.subrange(0, i as int + 1).map_values(
            |pair: Supported| capability_for(pair),
        ) =~= supported@.subrange(0, i as int).map_values(
            |pair: Supported| capability_for(pair),
        ).push(capability_for(supported@[i as int])));
        i += 1;
    }
    assert(supported@.subrange(0, i as int) =~= supported@);
    capabilities
}

/// The devices that are open, in the order in which they were opened.
#[derive(Debug)]
pub struct ReaderManager {
    pub devices: Vec<Device>,
}

/// The descriptors without the one of that id.
pub open spec fn without(devices: Seq<DeviceView>, id: u16) -> Seq<DeviceView>
    decreases devices.len(),
{
    if devices.len() == 0 {
        Seq::empty()
    } else if devices.last().id == id {
        without(devices.drop_last(), id)
    } else {
        without(devices.drop_last(), id).push(devices.last())
    }
}

/// Whether no two descriptors share an id.
pub open spec fn distinct_ids(devices: Seq<DeviceView>) -> bool {
    forall|i: int, j: int| 0 <= i < j < devices.len() ==> devices[i].id != devices[j].id
}

impl ReaderManager {
    /// The descriptors of the open devices, in the order in which they were
    /// opened.
    pub open spec fn known(&self) -> Seq<DeviceView> {
        self.devices@.map_values(|device: Device| device@)
    }

    /// The invariant: no two open devices share an id.
    pub open spec fn wf(&self) -> bool {
        distinct_ids(self.known())
    }

    /// What the table holds once `event` has been seen: a new device comes
    /// last, in place of any that had its id, and a removed one leaves.
    pub open spec fn known_after(&self, event: Event) -> Seq<DeviceView> {
        match event {
            Event::NewDevice(device) => without(self.known(), device.id).push(device@),
            Event::RemoveDevice(device_id) => without(self.known(), device_id),
            Event::Input { .. } => self.known(),
        }
    }

    /// What `read` makes of what it is given: the manager after it and what
    /// it hands on.
    pub open spec fn reads(
        &self,
        watcher: Option<i32>,
        received: Option<Result<Event, i32>>,
        after: ReaderManager,
        read: Result<Event, CaptureError>,
    ) -> bool {
        match (watcher, received) {
            (Some(errno), _) => read == Err::<Event, CaptureError>(CaptureError::Watcher(errno))
                && after.known() == self.known(),
            (None, None) => read == Err::<Event, CaptureError>(CaptureError::AllDevicesClosed)
                && after.known() == self.known(),
            (None, Some(Err(errno))) => read == Err::<Event, CaptureError>(
                CaptureError::Io(errno),
            ) && after.known() == self.known(),
            (None, Some(Ok(event))) => read == Ok::<Event, CaptureError>(event)
                && after.known() == self.known_after(event),
        }
    }

    /// Whether the events tell of every open device, and of nothing else:
    /// one new device for each, in the order of the table.
    pub open spec fn announces(&self, events: Seq<Event>) -> bool {
        &&& events.len() == self.known().len()
        &&& forall|i: int|
            0 <= i < events.len() ==> (#[trigger] events[i] matches Event::NewDevice(device)
                && device@ == self.known()[i])
    }

    /// A manager with no device open.
    pub fn new() -> (manager: Self)
        ensures
            manager.wf(),
            manager.known() == Seq::<DeviceView>::empty(),
    {
        let manager = ReaderManager { devices: Vec::new() };
        assert(manager.known() =~= Seq::<DeviceView>::empty());
        manager
    }

    /// Takes what the readers and the watcher of the device directory have
    /// to give, and hands on the event or the reason why there is none. A
    /// failure of the watcher goes before everything else. The table is
    /// brought up to date before the event is handed on.
    pub fn read(&mut self, watcher: Option<i32>, received: Option<Result<Event, i32>>) -> (read:
        Result<Event, CaptureError>)
        requires
            old(self).wf(),
        ensures
            final(self).wf(),
            old(self).reads(watcher, received, *final(self), read),
    {
        if let Some(errno) = watcher {
            return Err(CaptureError::Watcher(errno));
        }
        match received {
            None => Err(CaptureError::AllDevicesClosed),
            Some(Err(errno)) => Err(CaptureError::Io(errno)),
            Some(Ok(event)) => {
                match &event {
                    Event::NewDevice(device) => {
                        self.forget(device.id);
                        let ghost before = self.known();
                        self.devices.push(device.duplicate());
                        proof {
                            assert(self.known() =~= before.push(device@));
                            lemma_without_absent(old(self).known(), device.id);
                        }
                    },
                    Event::RemoveDevice(device_id) => {
                        self.forget(*device_id);
                    },
                    Event::Input { .. } => {},
                }
                Ok(event)
            },
        }
    }

    /// Takes the device of that id out of the table.
    fn forget(&mut self, id: u16)
        requires
            old(self).wf(),
        ensures
            final(self).wf(),
            final(self).known() == without(old(self).known(), id),
    {
        let ghost start = self.known();
        let mut at: usize = 0;
        while at < self.devices.len()
            invariant
                at <= self.devices.len(),
                self.known() == start,
                start == old(self).known(),
                distinct_ids(start),
                forall|j: int| 0 <= j < at ==> self.known()[j].id != id,
            decreases self.devices.len() - at,
        {
            if self.devices[at].id == id {
                let ghost before = self.known();
                self.devices.remove(at);
                proof {
                    assert(self.known() =~= before.remove(at as int));
                    lemma_without_one(before, id, at as int);
                }
                return ;
            }
            at += 1;
        }
        proof {
            lemma_without_none(self.known(), id);
        }
    }

    /// What a peer that has just connected is to be told first: one new
    /// device for each open device, in the order of the table.
    pub fn snapshot(&self) -> (events: Vec<Event>)
        ensures
            self.announces(events@),
    {
        let mut events: Vec<Event> = Vec::new();
        let mut i: usize = 0;
        while i < self.devices.len()
            invariant
                i <= self.devices.len(),
                events@.len() == i,
                forall|j: int|
                    0 <= j < i ==> (#[trigger] events@[j] matches Event::NewDevice(device)
                        && device@ == self.known()[j]),
            decreases self.devices.len() - i,
        {
            events.push(Event::NewDevice(self.devices[i].duplicate()));
            i += 1;
        }
        events
    }
}

/// Once a number has left the range of ids, or an octet is no digit, no
/// further octet brings a number back into the range.
proof fn lemma_decimal_extends(digits: Seq<u8>, upto: int)
    requires
        0 <= upto <= digits.len(),
    ensures
        match decimal(digits.subrange(0, upto)) {
            None => decimal(digits).is_none(),
            Some(value) => match decimal(digits) {
                Some(whole) => value <= whole,
                None => true,
            },
        },
    decreases digits.len() - upto,
{
    if upto == digits.len() {
        assert(digits.subrange(0, upto) =~= digits);
    } else {
        assert(digits.subrange(0, upto + 1).drop_last() =~= digits.subrange(0, upto));
        lemma_decimal_extends(digits, upto + 1);
    }
}

/// Where no descriptor has the id, taking it out changes nothing.
proof fn lemma_without_none(devices: Seq<DeviceView>, id: u16)
    requires
        forall|j: int| 0 <= j < devices.len() ==> devices[j].id != id,
    ensures
        without(devices, id) == devices,
    decreases devices.len(),
{
    if devices.len() > 0 {
        lemma_without_none(devices.drop_last(), id);
        assert(devices.drop_last().push(devices.last()) =~= devices);
    }
}

/// Where ids are distinct, taking an id out takes out the one descriptor
/// that has it.
proof fn lemma_without_one(devices: Seq<DeviceView>, id: u16, at: int)
    requires
        distinct_ids(devices),
        0 <= at < devices.len(),
        devices[at].id == id,
    ensures
        without(devices, id) == devices.remove(at),
        distinct_ids(devices.remove(at)),
    decreases devices.len(),
{
    let init = devices.drop_last();
    if at == devices.len() - 1 {
        lemma_without_none(init, id);
        assert(devices.remove(at) =~= init);
    } else {
        lemma_without_one(init, id, at);
        assert(init.remove(at).push(devices.last()) =~= devices.remove(at));
    }
    let rest = devices.remove(at);
    assert forall|i: int, j: int| 0 <= i < j < rest.len() implies rest[i].id != rest[j].id by {
        let a = if i < at { i } else { i + 1 };
        let b = if j < at { j } else { j + 1 };
        assert(rest[i] == devices[a]);
        assert(rest[j] == devices[b]);
    }
}

/// What is left once an id was taken out holds no descriptor of that id.
proof fn lemma_without_absent(devices: Seq<DeviceView>, id: u16)
    ensures
        forall|j: int| 0 <= j < without(devices, id).len() ==> without(devices, id)[j].id != id,
    decreases devices.len(),
{
    if devices.len() > 0 {
        let init = without(devices.drop_last(), id);
        lemma_without_absent(devices.drop_last(), id);
        assert forall|j: int| 0 <= j < without(devices, id).len() implies without(devices, id)[j].id
            != id by {
            if j < init.len() {
                assert(without(devices, id)[j] == init[j]);
            }
        }
    }
}

/// A capability is enabled under the type and the code of its pair.
pub proof fn lemma_capability_keeps_pair(pair: Supported)
    ensures
        capability_for(pair).request().type_ == pair.type_,
        capability_for(pair).request().code == pair.code,
{
}

/// What a reader found is what a writer enables: one request for each
/// supported pair, under that pair and in the order of the pairs, so that
/// pairs that were found in increasing order are enabled in increasing
/// order.
pub proof fn lemma_capabilities_round_trip(supported: Seq<Supported>)
    ensures
        enabled_pairs(supported) == supported.map_values(
            |pair: Supported| (pair.type_, pair.code),
        ),
        pairs_increase(supported.map_values(|pair: Supported| (pair.type_, pair.code)))
            ==> pairs_increase(enabled_pairs(supported)),
{
    assert(enabled_pairs(supported) =~= supported.map_values(
        |pair: Supported| (pair.type_, pair.code),
    ));
}

/// A virtual device is never opened by the capturing side: the bus that a
/// writer puts its device on is the one that a reader refuses.
pub proof fn lemma_loop_closed(writer: EventWriter)
    requires
        writer.wf(),
    ensures
        !opens(writer.descriptor().bustype),
{
}

} // verus!
