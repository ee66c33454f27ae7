//! Device descriptors as values: their view, their copy, and the marks of
//! the devices that this library creates.

use vstd::prelude::*;

use crate::event::Capability;
use crate::event::Device;

verus! {

/// The bus of every device that the injecting side creates. The capturing
/// side opens no device on this bus.
pub const BUSTYPE: u16 = 0x06;

/// The id of a purely synthetic device.
pub const LOCAL_DEVICE_ID: u16 = 0xFFFF;

/// A device descriptor as a mathematical value.
pub struct DeviceView {
    pub id: u16,
    pub name: Seq<char>,
    pub vendor: u16,
    pub product: u16,
    pub bustype: u16,
    pub version: u16,
    pub capabilities: Seq<Capability>,
}

impl View for Device {
    type V = DeviceView;

    open spec fn view(&self) -> DeviceView {
        DeviceView {
            id: self.id,
            name: self.name@,
            vendor: self.vendor,
            product: self.product,
            bustype: self.bustype,
            version: self.version,
            capabilities: self.capabilities@,
        }
    }
}

impl DeviceView {
    /// The descriptor with which the device is created again on the
    /// injecting side: the same but for the bus.
    pub open spec fn on_virtual_bus(self) -> DeviceView {
        DeviceView { bustype: BUSTYPE, ..self }
    }
}

impl Device {
    /// A copy of the descriptor.
    pub fn duplicate(&self) -> (copy: Device)
        ensures
            copy@ == self@,
    {
        let mut capabilities: Vec<Capability> = Vec::new();
        let mut i: usize = 0;
        while i < self.capabilities.len()
            invariant
                i <= self.capabilities.len(),
                capabilities@ == self.capabilities@.subrange(0, i as int),
            decreases self.capabilities.len() - i,
        {
            capabilities.push(self.capabilities[i]);
            assert(self.capabilities@.subrange(0, i as int + 1) =~= self.capabilities@.subrange(
                0,
                i as int,
            ).push(self.capabilities@[i as int]));
            i += 1;
        }
        assert(self.capabilities@.subrange(0, i as int) =~= self.capabilities@);
        Device {
            id: self.id,
            name: self.name.clone(),
            vendor: self.vendor,
            product: self.product,
            bustype: self.bustype,
            version: self.version,
            capabilities,
        }
    }
}

} // verus!
