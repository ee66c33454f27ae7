//! The injecting side: the virtual devices that stand for the devices of
//! the capturing side, and what is written to them.

use std::collections::HashMap;
use vstd::prelude::*;

use crate::device::DeviceView;
use crate::device::BUSTYPE;
use crate::event::AbsInfo;
use crate::event::Capability;
use crate::event::Device;
use crate::event::Event;
use crate::event::InputEvent;
use crate::raw::RawEvent;
use crate::raw::EV_ABS;
use crate::raw::EV_REP;
use crate::raw::EV_SYN;
use crate::raw::SYN_REPORT;

verus! {

/// What goes with the request to enable one capability.
#[derive(Clone, Copy, Debug, PartialEq, Eq, Structural)]
pub enum EnableData {
    Nothing,
    Abs(AbsInfo),
    Rep(i32),
}

/// The request to enable one capability of a virtual device.
#[derive(Clone, Copy, Debug, PartialEq, Eq, Structural)]
pub struct EnableRequest {
    pub type_: u16,
    pub code: u16,
    pub data: EnableData,
}

/// The pulse that ends a report.
pub open spec fn sync_pulse() -> RawEvent {
    RawEvent { type_: EV_SYN, code: SYN_REPORT, value: 0 }
}

impl Capability {
    /// The request that enables the capability.
    pub open spec fn request(self) -> EnableRequest {
        match self {
            Capability::Abs { code, info } => EnableRequest {
                type_: EV_ABS,
                code,
                data: EnableData::Abs(info),
            },
            Capability::Rep { code, value } => EnableRequest {
                type_: EV_REP,
                code,
                data: EnableData::Rep(value),
            },
            Capability::Other { type_, code } => EnableRequest {
                type_,
                code,
                data: EnableData::Nothing,
            },
        }
    }

    /// The request that enables the capability.
    pub fn enable_request(&self) -> (request: EnableRequest)
        ensures
            request == self.request(),
    {
        match *self {
            Capability::Abs { code, info } => EnableRequest {
                type_: EV_ABS,
                code,
                data: EnableData::Abs(info),
            },
            Capability::Rep { code, value } => EnableRequest {
                type_: EV_REP,
                code,
                data: EnableData::Rep(value),
            },
            Capability::Other { type_, code } => EnableRequest {
                type_,
                code,
                data: EnableData::Nothing,
            },
        }
    }
}

/// A virtual device: the descriptor that it is created from, which is on
/// the virtual bus whatever bus the device of the capturing side is on.
#[derive(Debug)]
pub struct EventWriter {
    device: Device,
}

impl EventWriter {
    /// The descriptor of the virtual device.
    pub closed spec fn descriptor(&self) -> DeviceView {
        self.device@
    }

    /// The invariant: the device is on the virtual bus.
    pub open spec fn wf(&self) -> bool {
        self.descriptor().bustype == BUSTYPE
    }

    /// The virtual device for a device of the capturing side.
    pub fn new(device: Device) -> (writer: Self)
        ensures
            writer.wf(),
            writer.descriptor() == device@.on_virtual_bus(),
    {
        let mut device = device;
        device.bustype = BUSTYPE;
        EventWriter { device }
    }

    /// The descriptor of the virtual device.
    pub fn device(&self) -> (device: &Device)
        ensures
            device@ == self.descriptor(),
    {
        &self.device
    }

    /// The requests that enable the capabilities, one for each, in the order
    /// of the descriptor. The device exists once every one was granted.
    pub fn setup(&self) -> (requests: Vec<EnableRequest>)
        ensures
            requests@ == self.descriptor().capabilities.map_values(|c: Capability| c.request()),
    {
        let mut requests: Vec<EnableRequest> = Vec::new();
        let mut i: usize = 0;
        while i < self.device.capabilities.len()
            invariant
                i <= self.device.capabilities.len(),
                requests@ == self.device.capabilities@.subrange(0, i as int).map_values(
                    |c: Capability| c.request(),
                ),
            decreases self.device.capabilities.len() - i,
        {
            requests.push(self.device.capabilities[i].enable_request());
            assert(self.device.capabilities@.subrange(0, i as int + 1).map_values(
                |c: Capability| c.request(),
            ) =~= self.device.capabilities@.subrange(0, i as int).map_values(
                |c: Capability| c.request(),
            ).push(self.device.capabilities@[i as int].request()));
            i += 1;
        }
        assert(self.device.capabilities@.subrange(0, i as int) =~= self.device.capabilities@);
        requests
    }

    /// What is written to the virtual device for one event.
    pub fn write(&self, event: InputEvent) -> (raw: RawEvent)
        ensures
            raw == event.raw(),
    {
        event.to_raw()
    }
}

/// What the caller has to do for one event.
#[derive(Clone, Copy, Debug, PartialEq, Eq, Structural)]
pub enum WriterAction {
    /// Nothing: the event names a device that does not exist here.
    Nothing,
    /// Write `event` to the virtual device `device_id`, and after it the
    /// pulse that ends a report if `syn` is set.
    Inject { device_id: u16, event: RawEvent, syn: bool },
    /// Create the virtual device `device_id` from its writer; if `replaces`
    /// is set, destroy the one that had the id before.
    Create { device_id: u16, replaces: bool },
    /// Destroy the virtual device `device_id`.
    Destroy { device_id: u16 },
}

/// The virtual devices of one session, by the id that the capturing side
/// gave to the device.
pub struct WriterManager {
    pub writers: HashMap<u16, EventWriter>,
}

impl WriterManager {
    /// The invariant: every virtual device is on the virtual bus.
    pub open spec fn wf(&self) -> bool {
        forall|id: u16| #[trigger] self.writers@.contains_key(id) ==> self.writers@[id].wf()
    }

    /// What `write` makes of `event`: the manager after it and what the
    /// caller has to do.
    pub open spec fn written(
        &self,
        event: Event,
        after: WriterManager,
        action: WriterAction,
    ) -> bool {
        match event {
            Event::Input { device_id, input, syn } => {
                &&& after.writers@ == self.writers@
                &&& action == if self.writers@.contains_key(device_id) {
                    WriterAction::Inject { device_id, event: input.raw(), syn }
                } else {
                    WriterAction::Nothing
                }
            },
            Event::NewDevice(device) => {
                &&& after.writers@.dom() == self.writers@.dom().insert(device.id)
                &&& after.writers@[device.id].descriptor() == device@.on_virtual_bus()
                &&& forall|id: u16|
                    id != device.id && self.writers@.contains_key(id)
                        ==> after.writers@[id] == self.writers@[id]
                &&& action == WriterAction::Create {
                    device_id: device.id,
                    replaces: self.writers@.contains_key(device.id),
                }
            },
            Event::RemoveDevice(device_id) => {
                &&& after.writers@ == self.writers@.remove(device_id)
                &&& action == if self.writers@.contains_key(device_id) {
                    WriterAction::Destroy { device_id }
                } else {
                    WriterAction::Nothing
                }
            },
        }
    }

    /// A manager without devices.
    pub fn new() -> (manager: Self)
        ensures
            manager.wf(),
            manager.writers@ == Map::<u16, EventWriter>::empty(),
    {
        WriterManager { writers: HashMap::new() }
    }

    /// The pulse that ends a report.
    pub fn sync_event() -> (raw: RawEvent)
        ensures
            raw == sync_pulse(),
    {
        RawEvent { type_: EV_SYN, code: SYN_REPORT, value: 0 }
    }

    /// Takes one event of the capturing side. A new device gets its writer,
    /// a removed device loses it, and an input event is to be written to the
    /// device that it names; one that names no device here is dropped.
    pub fn write(&mut self, event: Event) -> (action: WriterAction)
        requires
            old(self).wf(),
        ensures
            final(self).wf(),
            old(self).written(event, *final(self), action),
    {
        match event {
            Event::Input { device_id, input, syn } => {
                match self.writers.get(&device_id) {
                    Some(writer) => WriterAction::Inject {
                        device_id,
                        event: writer.write(input),
                        syn,
                    },
                    None => WriterAction::Nothing,
                }
            },
            Event::NewDevice(device) => {
                let id: u16 = device.id;
                let replaces = self.writers.contains_key(&id);
                let writer = EventWriter::new(device);
                self.writers.insert(id, writer);
                WriterAction::Create { device_id: id, replaces }
            },
            Event::RemoveDevice(device_id) => {
                let known = self.writers.contains_key(&device_id);
                self.writers.remove(&device_id);
                if known {
                    WriterAction::Destroy { device_id }
                } else {
                    WriterAction::Nothing
                }
            },
        }
    }
}

} // verus!
