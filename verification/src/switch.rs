//! The switch controller: which side receives the input, and what has to be
//! sent when the combo hands it to the next one.
//!
//! Target 0 is the local side; target `i > 0` is the `i`-th connected peer.

use vstd::arithmetic::div_mod::lemma_add_mod_noop_right;
use vstd::arithmetic::div_mod::lemma_mod_add_multiples_vanish;
use vstd::arithmetic::div_mod::lemma_mod_bound;
use vstd::arithmetic::div_mod::lemma_small_mod;
use vstd::prelude::*;

use crate::event::Direction;
use crate::event::Event;
use crate::event::InputEvent;
use crate::event::KeyKind;
use crate::key::lemma_key_code_injective;
use crate::key::Key;

verus! {

/// One event that is to be delivered to one target.
#[derive(Clone, Copy, Debug, PartialEq, Eq, Structural)]
pub struct Dispatch {
    pub target: usize,
    pub device_id: u16,
    pub input: InputEvent,
    pub syn: bool,
}

/// What the controller decided for one event of the capturing side: the
/// events to deliver first, in order, and the target of the event itself.
#[derive(Debug)]
pub struct Routing {
    pub synthetic: Vec<Dispatch>,
    pub target: usize,
}

/// The release of `key` that tells `target` that the combo key is no longer held.
pub open spec fn release_on(target: usize, device_id: u16, key: Key) -> Dispatch {
    Dispatch {
        target,
        device_id,
        input: InputEvent::Key { direction: Direction::Up, kind: KeyKind::Key(key) },
        syn: true,
    }
}

/// The press of `key` that tells `target` that the combo key is held.
pub open spec fn press_on(target: usize, device_id: u16, key: Key) -> Dispatch {
    Dispatch {
        target,
        device_id,
        input: InputEvent::Key { direction: Direction::Down, kind: KeyKind::Key(key) },
        syn: true,
    }
}

/// The events that hand the input over: for each combo key in turn, its
/// release on the old target and then its press on the new one.
pub open spec fn transition(keys: Seq<Key>, device_id: u16, from: usize, to: usize) -> Seq<
    Dispatch,
>
    decreases keys.len(),
{
    if keys.len() == 0 {
        Seq::empty()
    } else {
        transition(keys.drop_last(), device_id, from, to).push(
            release_on(from, device_id, keys.last()),
        ).push(press_on(to, device_id, keys.last()))
    }
}

/// The target after `current` when `clients` peers are connected.
pub open spec fn rotate(current: int, clients: int) -> int {
    (current + 1) % (clients + 1)
}

/// The target reached from `current` by `times` rotations.
pub open spec fn rotate_times(current: int, clients: int, times: nat) -> int
    decreases times,
{
    if times == 0 {
        current
    } else {
        rotate(rotate_times(current, clients, (times - 1) as nat), clients)
    }
}

/// Whether the keys stand in the order of their codes, none twice.
pub open spec fn strictly_increasing(keys: Seq<Key>) -> bool {
    forall|i: int, j: int| 0 <= i < j < keys.len() ==> keys[i].code() < keys[j].code()
}

/// Whether every key is held.
pub open spec fn all_held(held: Seq<bool>) -> bool {
    forall|i: int| 0 <= i < held.len() ==> held[i]
}

/// What an event changes in the combo: the place of the key and whether it
/// is now held. Only keys of a keyboard that belong to the combo count.
pub open spec fn combo_edge(keys: Seq<Key>, event: Event) -> Option<(int, bool)> {
    match event {
        Event::Input {
            device_id,
            input: InputEvent::Key { direction, kind: KeyKind::Key(key) },
            syn,
        } => if keys.contains(key) {
            Some((keys.index_of(key), direction == Direction::Down))
        } else {
            None
        },
        _ => None,
    }
}

/// The device that an input event came from.
pub open spec fn source_of(event: Event) -> u16 {
    match event {
        Event::Input { device_id, .. } => device_id,
        Event::NewDevice(device) => device.id,
        Event::RemoveDevice(device_id) => device_id,
    }
}

/// The switch as a value: for each combo key whether it is held, and the
/// target that has the input.
pub struct SwitchState {
    pub held: Seq<bool>,
    pub target: int,
}

/// The switch after one event, with `peers` peers connected.
pub open spec fn step(keys: Seq<Key>, peers: int, state: SwitchState, event: Event) -> SwitchState {
    match combo_edge(keys, event) {
        Some((at, down)) => {
            let held = state.held.update(at, down);
            SwitchState {
                held,
                target: if all_held(held) {
                    rotate(state.target, peers)
                } else {
                    state.target
                },
            }
        },
        None => state,
    }
}

/// The switch after a run of events.
pub open spec fn run(
    keys: Seq<Key>,
    peers: int,
    state: SwitchState,
    events: Seq<Event>,
) -> SwitchState
    decreases events.len(),
{
    if events.len() == 0 {
        state
    } else {
        step(keys, peers, run(keys, peers, state, events.drop_last()), events.last())
    }
}

/// A press or a release of a key as a device reports it.
pub open spec fn key_event(device_id: u16, direction: Direction, key: Key) -> Event {
    Event::Input {
        device_id,
        input: InputEvent::Key { direction, kind: KeyKind::Key(key) },
        syn: false,
    }
}

/// One hold of the combo: every combo key is pressed, then every combo key
/// is released.
pub open spec fn hold(keys: Seq<Key>, device_id: u16) -> Seq<Event> {
    keys.map_values(|key: Key| key_event(device_id, Direction::Down, key)) + keys.map_values(
        |key: Key| key_event(device_id, Direction::Up, key),
    )
}

/// A number of holds of the combo, one after the other.
pub open spec fn holds(keys: Seq<Key>, device_id: u16, times: nat) -> Seq<Event>
    decreases times,
{
    if times == 0 {
        Seq::empty()
    } else {
        holds(keys, device_id, (times - 1) as nat) + hold(keys, device_id)
    }
}

/// The switch with no combo key held and the input on `target`.
pub open spec fn idle(keys: Seq<Key>, target: int) -> SwitchState {
    SwitchState { held: Seq::new(keys.len(), |i: int| false), target }
}

/// How far `target` is ahead in presses of `key` over releases of it.
pub open spec fn held_balance(sent: Seq<Dispatch>, target: usize, key: Key) -> int
    decreases sent.len(),
{
    if sent.len() == 0 {
        0
    } else {
        held_balance(sent.drop_last(), target, key) + weight(sent.last(), target, key)
    }
}

/// What one delivery adds to the balance of `key` on `target`.
pub open spec fn weight(sent: Dispatch, target: usize, key: Key) -> int {
    if sent.target != target {
        0
    } else if sent.input == (InputEvent::Key {
        direction: Direction::Down,
        kind: KeyKind::Key(key),
    }) {
        1
    } else if sent.input == (InputEvent::Key {
        direction: Direction::Up,
        kind: KeyKind::Key(key),
    }) {
        -1
    } else {
        0
    }
}

/// The state of the switch: the combo, which of its keys are held, how many
/// peers are connected and which target has the input.
#[derive(Debug)]
pub struct SwitchController {
    keys: Vec<Key>,
    states: Vec<bool>,
    clients: usize,
    current: usize,
}

impl SwitchController {
    /// The combo keys, in the order in which a transition names them.
    pub closed spec fn combo(&self) -> Seq<Key> {
        self.keys@
    }

    /// For each combo key, whether it is held.
    pub closed spec fn held(&self) -> Seq<bool> {
        self.states@
    }

    /// The number of connected peers.
    pub closed spec fn peers(&self) -> usize {
        self.clients
    }

    /// The target that has the input.
    pub closed spec fn target(&self) -> usize {
        self.current
    }

    /// The invariant: the target is the local side or a connected peer, and
    /// the combo is ordered by code.
    pub open spec fn wf(&self) -> bool {
        &&& self.held().len() == self.combo().len()
        &&& strictly_increasing(self.combo())
        &&& self.target() <= self.peers()
        &&& self.peers() < usize::MAX
    }

    /// Which keys are held once `event` has been seen.
    pub open spec fn held_after(&self, event: Event) -> Seq<bool> {
        match combo_edge(self.combo(), event) {
            Some((at, down)) => self.held().update(at, down),
            None => self.held(),
        }
    }

    /// Whether `event` completes the combo: it is an event of a combo key,
    /// and with it every combo key is held.
    pub open spec fn switches_on(&self, event: Event) -> bool {
        combo_edge(self.combo(), event).is_some() && all_held(self.held_after(event))
    }

    /// The target that has the input once `event` has been seen.
    pub open spec fn target_after(&self, event: Event) -> usize {
        if self.switches_on(event) {
            rotate(self.target() as int, self.peers() as int) as usize
        } else {
            self.target()
        }
    }

    /// The switch as a value.
    pub open spec fn state(&self) -> SwitchState {
        SwitchState { held: self.held(), target: self.target() as int }
    }

    /// What is to be delivered before `event` itself: the transition from
    /// the old target to the new one where the event completes the combo,
    /// and nothing otherwise.
    pub open spec fn synthetic_for(&self, event: Event) -> Seq<Dispatch> {
        if self.switches_on(event) {
            transition(self.combo(), source_of(event), self.target(), self.target_after(event))
        } else {
            Seq::empty()
        }
    }

    /// A controller for the given combo, with no peer connected, no key held
    /// and the input on the local side.
    pub fn new(switch_keys: &[Key]) -> (controller: Self)
        ensures
            controller.wf(),
            controller.target() == 0,
            controller.peers() == 0,
            forall|key: Key| controller.combo().contains(key) <==> switch_keys@.contains(key),
            forall|i: int| 0 <= i < controller.held().len() ==> !controller.held()[i],
    {
        let mut keys: Vec<Key> = Vec::new();
        let mut n: usize = 0;
        while n < switch_keys.len()
            invariant
                n <= switch_keys.len(),
                strictly_increasing(keys@),
                forall|key: Key|
                    keys@.contains(key) <==> switch_keys@.subrange(0, n as int).contains(key),
            decreases switch_keys.len() - n,
        {
            let key = switch_keys[n];
            let code: u16 = key.to_raw();
            let mut at: usize = 0;
            while at < keys.len() && keys[at].to_raw() < code
                invariant
                    at <= keys.len(),
                    n < switch_keys.len(),
                    key == switch_keys@[n as int],
                    code == key.code(),
                    strictly_increasing(keys@),
                    forall|k: Key|
                        keys@.contains(k) <==> switch_keys@.subrange(0, n as int).contains(k),
                    forall|j: int| 0 <= j < at ==> keys[j].code() < code,
                decreases keys.len() - at,
            {
                at += 1;
            }
            let ghost before = keys@;
            let ghost seen = switch_keys@.subrange(0, n as int);
            let ghost seen_next = switch_keys@.subrange(0, n as int + 1);
            assert(seen_next =~= seen.push(key));
            if at == keys.len() || keys[at].to_raw() != code {
                keys.insert(at, key);
                proof {
                    lemma_insert_keeps_order(before, at as int, key);
                    assert forall|k: Key| keys@.contains(k) <==> seen_next.contains(k) by {
                        lemma_push_contains(seen, key, k);
                        lemma_insert_contains(before, at as int, key, k);
                    }
                }
            } else {
                proof {
                    lemma_key_code_injective(before[at as int], key);
                    assert(before.contains(key));
                    assert forall|k: Key| keys@.contains(k) <==> seen_next.contains(k) by {
                        lemma_push_contains(seen, key, k);
                    }
                }
            }
            n += 1;
        }
        assert(switch_keys@.subrange(0, n as int) =~= switch_keys@);
        let mut states: Vec<bool> = Vec::new();
        let mut i: usize = 0;
        while i < keys.len()
            invariant
                i <= keys.len(),
                states@.len() == i,
                forall|j: int| 0 <= j < i ==> !states@[j],
            decreases keys.len() - i,
        {
            states.push(false);
            i += 1;
        }
        SwitchController { keys, states, clients: 0, current: 0 }
    }

    /// The target that has the input: 0 for the local side, `i` for the
    /// `i`-th connected peer.
    pub fn current(&self) -> (current: usize)
        ensures
            current == self.target(),
    {
        self.current
    }

    /// The number of connected peers.
    pub fn clients(&self) -> (clients: usize)
        ensures
            clients == self.peers(),
    {
        self.clients
    }

    /// The combo keys, in the order in which a transition names them.
    pub fn switch_keys(&self) -> (keys: &Vec<Key>)
        ensures
            keys@ == self.combo(),
    {
        &self.keys
    }

    /// Whether `key` belongs to the combo and is held.
    pub fn is_held(&self, key: Key) -> (held: bool)
        requires
            self.wf(),
        ensures
            held == (self.combo().contains(key) && self.held()[self.combo().index_of(key)]),
    {
        match self.position(key) {
            Some(at) => self.states[at],
            None => false,
        }
    }

    /// The place of `key` in the combo.
    fn position(&self, key: Key) -> (place: Option<usize>)
        requires
            self.wf(),
        ensures
            match place {
                Some(at) => self.combo().contains(key) && at == self.combo().index_of(key),
                None => !self.combo().contains(key),
            },
    {
        let mut at: usize = 0;
        while at < self.keys.len()
            invariant
                self.wf(),
                at <= self.keys.len(),
                forall|j: int| 0 <= j < at ==> self.keys@[j] != key,
            decreases self.keys.len() - at,
        {
            if self.keys[at] == key {
                proof {
                    lemma_place_in_order(self.keys@, at as int);
                }
                return Some(at);
            }
            at += 1;
        }
        None
    }

    /// Whether every combo key is held.
    fn combo_complete(&self) -> (complete: bool)
        ensures
            complete == all_held(self.held()),
    {
        let mut i: usize = 0;
        while i < self.states.len()
            invariant
                i <= self.states.len(),
                forall|j: int| 0 <= j < i ==> self.states@[j],
            decreases self.states.len() - i,
        {
            if !self.states[i] {
                return false;
            }
            i += 1;
        }
        true
    }

    /// A peer connected: it becomes the last target. Returns `false`, with
    /// nothing changed, where no further peer can be counted.
    pub fn add_client(&mut self) -> (added: bool)
        requires
            old(self).wf(),
        ensures
            final(self).wf(),
            final(self).combo() == old(self).combo(),
            final(self).held() == old(self).held(),
            final(self).target() == old(self).target(),
            added == (old(self).peers() + 1 < usize::MAX),
            added ==> final(self).peers() == old(self).peers() + 1,
            !added ==> final(self).peers() == old(self).peers(),
    {
        if self.clients < usize::MAX - 1 {
            self.clients = self.clients + 1;
            true
        } else {
            false
        }
    }

    /// The event could not be sent to the peer that has the input: the peer
    /// leaves the list and the input falls back to the local side. Returns
    /// the place of that peer in the list of peers, `None` where the local
    /// side had the input and nothing changes.
    pub fn send_failed(&mut self) -> (removed: Option<usize>)
        requires
            old(self).wf(),
        ensures
            final(self).wf(),
            final(self).combo() == old(self).combo(),
            final(self).held() == old(self).held(),
            final(self).target() == 0,
            match removed {
                Some(place) => old(self).target() > 0 && place == old(self).target() - 1
                    && final(self).peers() == old(self).peers() - 1,
                None => old(self).target() == 0 && final(self).peers() == old(self).peers(),
            },
    {
        if self.current == 0 {
            None
        } else {
            let place: usize = self.current - 1;
            self.clients = self.clients - 1;
            self.current = 0;
            Some(place)
        }
    }

    /// Takes one event of the capturing side. An event of a combo key sets
    /// whether that key is held; where that completes the combo, the input
    /// moves to the next target and the transition events are to be
    /// delivered first. The event itself then goes to the target that has
    /// the input.
    pub fn route(&mut self, event: &Event) -> (routing: Routing)
        requires
            old(self).wf(),
        ensures
            final(self).wf(),
            final(self).combo() == old(self).combo(),
            final(self).peers() == old(self).peers(),
            final(self).held() == old(self).held_after(*event),
            final(self).target() == old(self).target_after(*event),
            final(self).state() == step(
                old(self).combo(),
                old(self).peers() as int,
                old(self).state(),
                *event,
            ),
            routing.target == final(self).target(),
            routing.synthetic@ == old(self).synthetic_for(*event),
    {
        let mut synthetic: Vec<Dispatch> = Vec::new();
        if let Event::Input {
            device_id,
            input: InputEvent::Key { direction, kind: KeyKind::Key(key) },
            syn: _,
        } = event {
            if let Some(at) = self.position(*key) {
                let down = *direction == Direction::Down;
                self.states.set(at, down);
                if self.combo_complete() {
                    let next: usize = (self.current + 1) % (self.clients + 1);
                    let mut i: usize = 0;
                    while i < self.keys.len()
                        invariant
                            i <= self.keys.len(),
                            synthetic@ == transition(
                                self.keys@.subrange(0, i as int),
                                *device_id,
                                self.current,
                                next,
                            ),
                        decreases self.keys.len() - i,
                    {
                        let combo_key = self.keys[i];
                        synthetic.push(
                            Dispatch {
                                target: self.current,
                                device_id: *device_id,
                                input: InputEvent::Key {
                                    direction: Direction::Up,
                                    kind: KeyKind::Key(combo_key),
                                },
                                syn: true,
                            },
                        );
                        synthetic.push(
                            Dispatch {
                                target: next,
                                device_id: *device_id,
                                input: InputEvent::Key {
                                    direction: Direction::Down,
                                    kind: KeyKind::Key(combo_key),
                                },
                                syn: true,
                            },
                        );
                        proof {
                            assert(self.keys@.subrange(0, i as int + 1).drop_last()
                                =~= self.keys@.subrange(0, i as int));
                        }
                        i += 1;
                    }
                    assert(self.keys@.subrange(0, i as int) =~= self.keys@);
                    self.current = next;
                }
            }
        }
        Routing { synthetic, target: self.current }
    }
}

/// Any number of rotations leaves the input on the local side or on a
/// connected peer, at the place that many steps further round the ring.
pub proof fn lemma_rotate_times(current: int, clients: int, times: nat)
    requires
        0 <= current <= clients,
    ensures
        rotate_times(current, clients, times) == (current + times) % (clients + 1),
        0 <= rotate_times(current, clients, times) <= clients,
    decreases times,
{
    let ring = clients + 1;
    if times == 0 {
        lemma_small_mod(current as nat, ring as nat);
    } else {
        lemma_rotate_times(current, clients, (times - 1) as nat);
        lemma_add_mod_noop_right(1, current + times - 1, ring);
        lemma_mod_bound(current + times, ring);
    }
}

/// With `clients` peers connected, completing the combo `clients + 1` times
/// brings the input back to where it was.
pub proof fn lemma_rotation_returns(current: int, clients: int)
    requires
        0 <= current <= clients,
    ensures
        rotate_times(current, clients, (clients + 1) as nat) == current,
{
    let ring = clients + 1;
    lemma_rotate_times(current, clients, ring as nat);
    lemma_mod_add_multiples_vanish(current, ring);
    lemma_small_mod(current as nat, ring as nat);
}

/// A run of events and then another is the run of both.
pub proof fn lemma_run_adds(
    keys: Seq<Key>,
    peers: int,
    state: SwitchState,
    first: Seq<Event>,
    then: Seq<Event>,
)
    ensures
        run(keys, peers, state, first + then) == run(
            keys,
            peers,
            run(keys, peers, state, first),
            then,
        ),
    decreases then.len(),
{
    if then.len() == 0 {
        assert(first + then =~= first);
    } else {
        assert((first + then).drop_last() =~= first + then.drop_last());
        lemma_run_adds(keys, peers, state, first, then.drop_last());
    }
}

/// While the combo keys go down one after the other, the input stays where
/// it is until the last one is down, and then it moves on by one.
proof fn lemma_run_presses(keys: Seq<Key>, peers: int, target: int, device_id: u16, upto: int)
    requires
        strictly_increasing(keys),
        0 <= upto <= keys.len(),
    ensures
        run(
            keys,
            peers,
            idle(keys, target),
            keys.map_values(|key: Key| key_event(device_id, Direction::Down, key)).subrange(
                0,
                upto,
            ),
        ) == (SwitchState {
            held: Seq::new(keys.len(), |i: int| i < upto),
            target: if upto == keys.len() && upto > 0 {
                rotate(target, peers)
            } else {
                target
            },
        }),
    decreases upto,
{
    let presses = keys.map_values(|key: Key| key_event(device_id, Direction::Down, key));
    let events = presses.subrange(0, upto);
    if upto == 0 {
        assert(idle(keys, target).held =~= Seq::new(keys.len(), |i: int| i < 0));
    } else {
        lemma_run_presses(keys, peers, target, device_id, upto - 1);
        assert(events.drop_last() =~= presses.subrange(0, upto - 1));
        assert(events.last() == key_event(device_id, Direction::Down, keys[upto - 1]));
        lemma_place_in_order(keys, upto - 1);
        let before = Seq::new(keys.len(), |i: int| i < upto - 1);
        let after = Seq::new(keys.len(), |i: int| i < upto);
        assert(before.update(upto - 1, true) =~= after);
        if upto < keys.len() {
            assert(!after[keys.len() - 1]);
        }
    }
}

/// While the combo keys go up one after the other, the input stays where
/// it is.
proof fn lemma_run_releases(keys: Seq<Key>, peers: int, target: int, device_id: u16, upto: int)
    requires
        strictly_increasing(keys),
        0 <= upto <= keys.len(),
    ensures
        run(
            keys,
            peers,
            SwitchState { held: Seq::new(keys.len(), |i: int| true), target },
            keys.map_values(|key: Key| key_event(device_id, Direction::Up, key)).subrange(0, upto),
        ) == (SwitchState { held: Seq::new(keys.len(), |i: int| i >= upto), target }),
    decreases upto,
{
    let releases = keys.map_values(|key: Key| key_event(device_id, Direction::Up, key));
    let events = releases.subrange(0, upto);
    if upto == 0 {
        assert(Seq::new(keys.len(), |i: int| true) =~= Seq::new(keys.len(), |i: int| i >= 0));
    } else {
        lemma_run_releases(keys, peers, target, device_id, upto - 1);
        assert(events.drop_last() =~= releases.subrange(0, upto - 1));
        assert(events.last() == key_event(device_id, Direction::Up, keys[upto - 1]));
        lemma_place_in_order(keys, upto - 1);
        let before = Seq::new(keys.len(), |i: int| i >= upto - 1);
        let after = Seq::new(keys.len(), |i: int| i >= upto);
        assert(before.update(upto - 1, false) =~= after);
        assert(!after[0]);
    }
}

/// One hold of the combo moves the input on by one target and leaves no
/// combo key held.
pub proof fn lemma_hold_rotates(keys: Seq<Key>, peers: int, target: int, device_id: u16)
    requires
        strictly_increasing(keys),
        keys.len() > 0,
    ensures
        run(keys, peers, idle(keys, target), hold(keys, device_id)) == idle(
            keys,
            rotate(target, peers),
        ),
{
    let presses = keys.map_values(|key: Key| key_event(device_id, Direction::Down, key));
    let releases = keys.map_values(|key: Key| key_event(device_id, Direction::Up, key));
    let n = keys.len() as int;
    lemma_run_presses(keys, peers, target, device_id, n);
    assert(presses.subrange(0, n) =~= presses);
    assert(Seq::new(keys.len(), |i: int| i < n) =~= Seq::new(keys.len(), |i: int| true));
    lemma_run_releases(keys, peers, rotate(target, peers), device_id, n);
    assert(releases.subrange(0, n) =~= releases);
    assert(Seq::new(keys.len(), |i: int| i >= n) =~= idle(keys, rotate(target, peers)).held);
    lemma_run_adds(keys, peers, idle(keys, target), presses, releases);
}

/// Any number of holds of the combo moves the input on by that many
/// targets and leaves no combo key held.
pub proof fn lemma_holds_rotate(
    keys: Seq<Key>,
    peers: int,
    target: int,
    device_id: u16,
    times: nat,
)
    requires
        strictly_increasing(keys),
        keys.len() > 0,
    ensures
        run(keys, peers, idle(keys, target), holds(keys, device_id, times)) == idle(
            keys,
            rotate_times(target, peers, times),
        ),
    decreases times,
{
    if times > 0 {
        let before = holds(keys, device_id, (times - 1) as nat);
        lemma_holds_rotate(keys, peers, target, device_id, (times - 1) as nat);
        lemma_run_adds(keys, peers, idle(keys, target), before, hold(keys, device_id));
        lemma_hold_rotates(keys, peers, rotate_times(target, peers, (times - 1) as nat), device_id);
    }
}

/// With `peers` peers connected, `peers + 1` holds of the combo, each
/// released before the next, bring the input back to the target that had
/// it, with no combo key held.
pub proof fn lemma_combo_cycle(keys: Seq<Key>, peers: int, target: int, device_id: u16)
    requires
        strictly_increasing(keys),
        keys.len() > 0,
        0 <= target <= peers,
    ensures
        run(keys, peers, idle(keys, target), holds(keys, device_id, (peers + 1) as nat)) == idle(
            keys,
            target,
        ),
{
    lemma_holds_rotate(keys, peers, target, device_id, (peers + 1) as nat);
    lemma_rotation_returns(target, peers);
}

/// A transition delivers to the old and to the new target only.
pub proof fn lemma_transition_targets(keys: Seq<Key>, device_id: u16, from: usize, to: usize)
    ensures
        transition(keys, device_id, from, to).len() == 2 * keys.len(),
        forall|i: int|
            0 <= i < transition(keys, device_id, from, to).len() ==> {
                let sent = #[trigger] transition(keys, device_id, from, to)[i];
                (sent.target == from || sent.target == to) && sent.device_id == device_id
                    && sent.syn
            },
    decreases keys.len(),
{
    if keys.len() > 0 {
        lemma_transition_targets(keys.drop_last(), device_id, from, to);
    }
}

/// What is delivered in two runs adds up.
pub proof fn lemma_balance_adds(first: Seq<Dispatch>, then: Seq<Dispatch>, target: usize, key: Key)
    ensures
        held_balance(first + then, target, key) == held_balance(first, target, key)
            + held_balance(then, target, key),
    decreases then.len(),
{
    if then.len() == 0 {
        assert(first + then =~= first);
    } else {
        assert((first + then).drop_last() =~= first + then.drop_last());
        lemma_balance_adds(first, then.drop_last(), target, key);
    }
}

/// What a transition does to the balance of one key on one target: a combo
/// key is released once on the old target and pressed once on the new one,
/// and nothing else is touched.
pub proof fn lemma_transition_balance(
    keys: Seq<Key>,
    device_id: u16,
    from: usize,
    to: usize,
    target: usize,
    key: Key,
)
    requires
        strictly_increasing(keys),
    ensures
        held_balance(transition(keys, device_id, from, to), target, key) == if keys.contains(key) {
            (if target == to {
                1int
            } else {
                0int
            }) - (if target == from {
                1int
            } else {
                0int
            })
        } else {
            0int
        },
    decreases keys.len(),
{
    if keys.len() > 0 {
        let init = keys.drop_last();
        let last = keys.last();
        let sent = transition(keys, device_id, from, to);
        let before = transition(init, device_id, from, to);
        let release = release_on(from, device_id, last);
        let press = press_on(to, device_id, last);
        let mid = before.push(release);
        assert(strictly_increasing(init));
        lemma_transition_balance(init, device_id, from, to, target, key);
        assert(sent.drop_last() =~= mid);
        assert(mid.drop_last() =~= before);
        assert(held_balance(mid, target, key) == held_balance(before, target, key) + weight(
            release,
            target,
            key,
        ));
        assert(held_balance(sent, target, key) == held_balance(mid, target, key) + weight(
            press,
            target,
            key,
        ));
        assert(keys =~= init.push(last));
        lemma_push_contains(init, last, key);
        if init.contains(key) {
            let i = choose|i: int| 0 <= i < init.len() && init[i] == key;
            assert(keys[i].code() < keys[keys.len() - 1].code());
        }
    } else {
        assert(!keys.contains(key));
    }
}

/// No combo key stays held across a switch: where the input moves from one
/// target to another, the old target has had one release more than presses
/// of every combo key, and the new target one press more than releases.
pub proof fn lemma_no_stuck_key(keys: Seq<Key>, device_id: u16, from: usize, to: usize, key: Key)
    requires
        strictly_increasing(keys),
        keys.contains(key),
        from != to,
    ensures
        held_balance(transition(keys, device_id, from, to), from, key) == -1,
        held_balance(transition(keys, device_id, from, to), to, key) == 1,
{
    lemma_transition_balance(keys, device_id, from, to, from, key);
    lemma_transition_balance(keys, device_id, from, to, to, key);
}


/// In an ordered combo a key stands at one place only.
proof fn lemma_place_in_order(keys: Seq<Key>, at: int)
    requires
        strictly_increasing(keys),
        0 <= at < keys.len(),
    ensures
        keys.contains(keys[at]),
        keys.index_of(keys[at]) == at,
{
    let found = keys.index_of(keys[at]);
    assert(keys.contains(keys[at]));
    if found < at {
        assert(keys[found].code() < keys[at].code());
    } else if at < found {
        assert(keys[at].code() < keys[found].code());
    }
}

/// A key put between the smaller and the larger ones keeps the order.
proof fn lemma_insert_keeps_order(keys: Seq<Key>, at: int, key: Key)
    requires
        strictly_increasing(keys),
        0 <= at <= keys.len(),
        forall|j: int| 0 <= j < at ==> keys[j].code() < key.code(),
        at < keys.len() ==> key.code() < keys[at].code(),
    ensures
        strictly_increasing(keys.insert(at, key)),
{
    let after = keys.insert(at, key);
    assert forall|i: int, j: int| 0 <= i < j < after.len() implies after[i].code()
        < after[j].code() by {
        if j < at {
        } else if j == at {
        } else if i < at {
            assert(after[j] == keys[j - 1]);
            if at < j - 1 {
                assert(keys[at].code() < keys[j - 1].code());
            }
        } else if i == at {
            assert(after[j] == keys[j - 1]);
            if at < j - 1 {
                assert(keys[at].code() < keys[j - 1].code());
            }
        } else {
            assert(after[i] == keys[i - 1]);
            assert(after[j] == keys[j - 1]);
        }
    }
}

/// After an insertion the sequence holds what it held and the new key.
proof fn lemma_insert_contains(keys: Seq<Key>, at: int, key: Key, k: Key)
    requires
        0 <= at <= keys.len(),
    ensures
        keys.insert(at, key).contains(k) <==> (keys.contains(k) || k == key),
{
    let after = keys.insert(at, key);
    if after.contains(k) {
        let i = choose|i: int| 0 <= i < after.len() && after[i] == k;
        if i < at {
            assert(keys[i] == k);
        } else if i > at {
            assert(keys[i - 1] == k);
        }
    }
    if keys.contains(k) {
        let i = choose|i: int| 0 <= i < keys.len() && keys[i] == k;
        if i < at {
            assert(after[i] == k);
        } else {
            assert(after[i + 1] == k);
        }
    }
    if k == key {
        assert(after[at] == k);
    }
}

/// After a push the sequence holds what it held and the new key.
proof fn lemma_push_contains(keys: Seq<Key>, key: Key, k: Key)
    ensures
        keys.push(key).contains(k) <==> (keys.contains(k) || k == key),
{
    let after = keys.push(key);
    if after.contains(k) {
        let i = choose|i: int| 0 <= i < after.len() && after[i] == k;
        if i < keys.len() {
            assert(keys[i] == k);
        }
    }
    if keys.contains(k) {
        let i = choose|i: int| 0 <= i < keys.len() && keys[i] == k;
        assert(after[i] == k);
    }
    if k == key {
        assert(after[keys.len() as int] == k);
    }
}

} // verus!
