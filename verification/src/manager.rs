//! Both sides in one: a host that mirrors its own devices as virtual ones.

use vstd::prelude::*;

use crate::device::LOCAL_DEVICE_ID;
use crate::event::Event;
use crate::reader::CaptureError;
use crate::reader::ReaderManager;
use crate::writer::WriterAction;
use crate::writer::WriterManager;

verus! {

/// The open devices of a host and the virtual devices that stand for them.
pub struct EventManager {
    pub local_device_id: u16,
    pub readers: ReaderManager,
    pub writers: WriterManager,
}

impl EventManager {
    /// The invariant: those of the two tables.
    pub open spec fn wf(&self) -> bool {
        self.readers.wf() && self.writers.wf()
    }

    /// A manager with no device open and no virtual device.
    pub fn new() -> (manager: Self)
        ensures
            manager.wf(),
            manager.local_device_id == LOCAL_DEVICE_ID,
            manager.readers.known().len() == 0,
            manager.writers.writers@.len() == 0,
    {
        EventManager {
            local_device_id: LOCAL_DEVICE_ID,
            readers: ReaderManager::new(),
            writers: WriterManager::new(),
        }
    }

    /// Takes what the readers and the watcher have to give, as the reader
    /// manager does. A device that is new gets its virtual device, and one
    /// that is removed loses it: the second result says what the caller has
    /// to do for that.
    pub fn read(&mut self, watcher: Option<i32>, received: Option<Result<Event, i32>>) -> (read: (
        Result<Event, CaptureError>,
        WriterAction,
    ))
        requires
            old(self).wf(),
        ensures
            final(self).wf(),
            final(self).local_device_id == old(self).local_device_id,
            old(self).readers.reads(watcher, received, final(self).readers, read.0),
            match read.0 {
                Ok(Event::Input { .. }) | Err(_) => read.1 == WriterAction::Nothing
                    && final(self).writers.writers@ == old(self).writers.writers@,
                Ok(event) => old(self).writers.written(event, final(self).writers, read.1),
            },
    {
        let read = self.readers.read(watcher, received);
        let action = match &read {
            Ok(Event::NewDevice(device)) => self.writers.write(
                Event::NewDevice(device.duplicate()),
            ),
            Ok(Event::RemoveDevice(device_id)) => self.writers.write(
                Event::RemoveDevice(*device_id),
            ),
            _ => WriterAction::Nothing,
        };
        (read, action)
    }

    /// Takes one event for the virtual devices, as the writer manager does.
    pub fn write(&mut self, event: Event) -> (action: WriterAction)
        requires
            old(self).wf(),
        ensures
            final(self).wf(),
            final(self).local_device_id == old(self).local_device_id,
            final(self).readers == old(self).readers,
            old(self).writers.written(event, final(self).writers, action),
    {
        self.writers.write(event)
    }
}

} // verus!
