//! The capturing host as a whole: its open devices, its switch and its own
//! virtual devices, and for each thing that happens the steps to take.
//!
//! The caller keeps the connections to the peers, in the order in which
//! they connected, and takes the steps in their order.

use vstd::prelude::*;

use crate::event::Event;
use crate::key::Key;
use crate::reader::CaptureError;
use crate::reader::ReaderManager;
use crate::switch::lemma_transition_targets;
use crate::switch::Dispatch;
use crate::switch::SwitchController;
use crate::writer::WriterAction;
use crate::writer::WriterManager;

verus! {

/// One thing for the caller to do.
#[derive(Clone, Debug, PartialEq, Eq)]
pub enum Step {
    /// Do this on the local virtual devices. A failure is fatal.
    Local(WriterAction),
    /// Send the event to the peer at this place in the list of peers. A
    /// failure is ignored.
    Offer { peer: usize, event: Event },
    /// Send the event to the peer at this place in the list of peers. After
    /// a failure, hand the event to `send_failed`.
    Deliver { peer: usize, event: Event },
}

/// The event that a dispatch carries.
pub open spec fn event_of(sent: Dispatch) -> Event {
    Event::Input { device_id: sent.device_id, input: sent.input, syn: sent.syn }
}

/// The step that brings one event of a transition to its target, on a host
/// with virtual devices for the ids in `local`.
pub open spec fn step_for(local: Set<u16>, sent: Dispatch) -> Step {
    if sent.target == 0 {
        Step::Local(
            if local.contains(sent.device_id) {
                WriterAction::Inject {
                    device_id: sent.device_id,
                    event: sent.input.raw(),
                    syn: sent.syn,
                }
            } else {
                WriterAction::Nothing
            },
        )
    } else {
        Step::Offer { peer: (sent.target - 1) as usize, event: event_of(sent) }
    }
}

/// Whether a step names a peer only where there are that many.
pub open spec fn in_reach(step: Step, peers: usize) -> bool {
    match step {
        Step::Local(_) => true,
        Step::Offer { peer, .. } => peer < peers,
        Step::Deliver { peer, .. } => peer < peers,
    }
}

/// The capturing host.
pub struct Server {
    pub readers: ReaderManager,
    pub controller: SwitchController,
    pub writers: WriterManager,
}

impl Server {
    /// The invariant: those of the three parts.
    pub open spec fn wf(&self) -> bool {
        self.readers.wf() && self.controller.wf() && self.writers.wf()
    }

    /// What `route` makes of `event`: the switch and the virtual devices
    /// after it, and the steps. The events of a transition come first, then
    /// the event itself, which goes to the target that has the input after
    /// the switch has seen it.
    pub open spec fn routes(&self, event: Event, after: Server, steps: Seq<Step>) -> bool {
        let synthetic = self.controller.synthetic_for(event);
        let local = self.writers.writers@.dom();
        &&& after.controller.combo() == self.controller.combo()
        &&& after.controller.peers() == self.controller.peers()
        &&& after.controller.held() == self.controller.held_after(event)
        &&& after.controller.target() == self.controller.target_after(event)
        &&& steps.len() == synthetic.len() + 1
        &&& forall|i: int|
            0 <= i < synthetic.len() ==> #[trigger] steps[i] == step_for(local, synthetic[i])
        &&& if after.controller.target() == 0 {
            steps.last() matches Step::Local(action) && self.writers.written(
                event,
                after.writers,
                action,
            )
        } else {
            steps.last() == (Step::Deliver {
                peer: (after.controller.target() - 1) as usize,
                event,
            }) && after.writers.writers@ == self.writers.writers@
        }
        &&& forall|i: int|
            0 <= i < steps.len() ==> in_reach(#[trigger] steps[i], after.controller.peers())
    }

    /// A host with that combo, no device open, no peer connected and the
    /// input on its own side.
    pub fn new(switch_keys: &[Key]) -> (server: Self)
        ensures
            server.wf(),
            server.readers.known().len() == 0,
            server.writers.writers@.len() == 0,
            server.controller.target() == 0,
            server.controller.peers() == 0,
            forall|key: Key|
                server.controller.combo().contains(key) <==> switch_keys@.contains(key),
            forall|i: int|
                0 <= i < server.controller.held().len() ==> !server.controller.held()[i],
    {
        Server {
            readers: ReaderManager::new(),
            controller: SwitchController::new(switch_keys),
            writers: WriterManager::new(),
        }
    }

    /// A peer connected. It is told of every open device before anything
    /// else, and becomes the last target. Returns `None`, with nothing
    /// changed, where no further peer can be counted.
    pub fn connect(&mut self) -> (told: Option<Vec<Event>>)
        requires
            old(self).wf(),
        ensures
            final(self).wf(),
            final(self).readers == old(self).readers,
            final(self).writers == old(self).writers,
            final(self).controller.combo() == old(self).controller.combo(),
            final(self).controller.held() == old(self).controller.held(),
            final(self).controller.target() == old(self).controller.target(),
            match told {
                Some(events) => {
                    &&& old(self).controller.peers() + 1 < usize::MAX
                    &&& final(self).controller.peers() == old(self).controller.peers() + 1
                    &&& old(self).readers.announces(events@)
                },
                None => {
                    &&& old(self).controller.peers() + 1 >= usize::MAX
                    &&& final(self).controller.peers() == old(self).controller.peers()
                },
            },
    {
        if self.controller.add_client() {
            Some(self.readers.snapshot())
        } else {
            None
        }
    }

    /// Takes what the readers and the watcher have to give, as the reader
    /// manager does, and routes the event that came of it.
    pub fn read(&mut self, watcher: Option<i32>, received: Option<Result<Event, i32>>) -> (read:
        Result<Vec<Step>, CaptureError>)
        requires
            old(self).wf(),
        ensures
            final(self).wf(),
            match read {
                Ok(steps) => {
                    &&& watcher.is_none()
                    &&& received matches Some(Ok(event)) && old(self).readers.reads(
                        watcher,
                        received,
                        final(self).readers,
                        Ok(event),
                    ) && old(self).routes(event, *final(self), steps@)
                },
                Err(error) => {
                    &&& old(self).readers.reads(
                        watcher,
                        received,
                        final(self).readers,
                        Err(error),
                    )
                    &&& final(self).controller == old(self).controller
                    &&& final(self).writers == old(self).writers
                },
            },
    {
        match self.readers.read(watcher, received) {
            Ok(event) => Ok(self.dispatch(event)),
            Err(error) => Err(error),
        }
    }

    /// Routes one event of the capturing side.
    pub fn route(&mut self, event: Event) -> (steps: Vec<Step>)
        requires
            old(self).wf(),
        ensures
            final(self).wf(),
            final(self).readers == old(self).readers,
            old(self).routes(event, *final(self), steps@),
    {
        self.dispatch(event)
    }

    fn dispatch(&mut self, event: Event) -> (steps: Vec<Step>)
        requires
            old(self).readers.wf(),
            old(self).controller.wf(),
            old(self).writers.wf(),
        ensures
            final(self).wf(),
            final(self).readers == old(self).readers,
            old(self).routes(event, *final(self), steps@),
    {
        let ghost synthetic = self.controller.synthetic_for(event);
        let ghost local = self.writers.writers@.dom();
        let ghost from = self.controller.target();
        let routing = self.controller.route(&event);
        let peers: usize = self.controller.clients();
        proof {
            lemma_transition_targets(
                self.controller.combo(),
                crate::switch::source_of(event),
                from,
                routing.target,
            );
        }
        let mut steps: Vec<Step> = Vec::new();
        let mut i: usize = 0;
        while i < routing.synthetic.len()
            invariant
                i <= routing.synthetic.len(),
                routing.synthetic@ == synthetic,
                self.readers == old(self).readers,
                self.readers.wf(),
                self.controller.wf(),
                self.controller.peers() == peers,
                self.controller.target() == routing.target,
                self.controller.combo() == old(self).controller.combo(),
                self.controller.held() == old(self).controller.held_after(event),
                self.controller.target() == old(self).controller.target_after(event),
                self.writers.wf(),
                self.writers.writers@ == old(self).writers.writers@,
                local == old(self).writers.writers@.dom(),
                from <= peers,
                forall|j: int|
                    0 <= j < synthetic.len() ==> (#[trigger] synthetic[j]).target == from
                        || synthetic[j].target == routing.target,
                steps@.len() == i,
                forall|j: int| 0 <= j < i ==> #[trigger] steps@[j] == step_for(local, synthetic[j]),
                forall|j: int| 0 <= j < i ==> in_reach(#[trigger] steps@[j], peers),
            decreases routing.synthetic.len() - i,
        {
            let sent = routing.synthetic[i];
            let carried = Event::Input {
                device_id: sent.device_id,
                input: sent.input,
                syn: sent.syn,
            };
            if sent.target == 0 {
                let action = self.writers.write(carried);
                steps.push(Step::Local(action));
            } else {
                steps.push(Step::Offer { peer: sent.target - 1, event: carried });
            }
            i += 1;
        }
        if routing.target == 0 {
            let action = self.writers.write(event);
            steps.push(Step::Local(action));
        } else {
            steps.push(Step::Deliver { peer: routing.target - 1, event });
        }
        steps
    }

    /// The event could not be delivered to the peer that has the input.
    /// The peer leaves the list, the input falls back to the local side,
    /// and the event goes to the local virtual devices. Returns the place
    /// of the peer to drop, if the input was with a peer, and what to do on
    /// the local virtual devices.
    pub fn send_failed(&mut self, event: Event) -> (fallback: (Option<usize>, WriterAction))
        requires
            old(self).wf(),
        ensures
            final(self).wf(),
            final(self).readers == old(self).readers,
            final(self).controller.combo() == old(self).controller.combo(),
            final(self).controller.held() == old(self).controller.held(),
            final(self).controller.target() == 0,
            match fallback.0 {
                Some(place) => {
                    &&& old(self).controller.target() > 0
                    &&& place == old(self).controller.target() - 1
                    &&& final(self).controller.peers() == old(self).controller.peers() - 1
                },
                None => {
                    &&& old(self).controller.target() == 0
                    &&& final(self).controller.peers() == old(self).controller.peers()
                },
            },
            old(self).writers.written(event, final(self).writers, fallback.1),
    {
        let removed = self.controller.send_failed();
        let action = self.writers.write(event);
        (removed, action)
    }
}

} // verus!
