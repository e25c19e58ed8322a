//! The session pool of one device: a bounded set of sessions, each of them
//! connecting, in use, under probe or idle, and the transitions between
//! these states. The pool decides; whoever drives it connects, probes and
//! closes the transports that the decisions name.

use vstd::prelude::*;
use crate::modbus_manager::{Modbus, ModbusManager};
use crate::outcome::Failure;

verus! {

/// Where a session of the pool stands.
#[derive(Clone, Copy, PartialEq, Eq, Structural, Debug)]
pub enum SessionState {
    /// A slot is reserved and the transport is being opened.
    Connecting,
    /// Leased: one caller operates the session.
    InUse,
    /// Handed back alive; the liveness probe is under way.
    Probing,
    /// Healthy and free to be leased.
    Idle,
}

/// One session of the pool.
#[derive(Clone, Copy, PartialEq, Eq, Structural, Debug)]
pub struct Slot {
    pub id: u64,
    pub state: SessionState,
}

/// What a checkout does when every slot is taken.
#[derive(Clone, Copy, PartialEq, Eq, Structural, Debug)]
pub enum WaitPolicy {
    /// Fail at once.
    FailFast,
    /// Wait for a free slot, this many milliseconds at most.
    Wait(u64),
}

/// What a checkout decided.
#[derive(Clone, Copy, PartialEq, Eq, Structural, Debug)]
pub enum Checkout {
    /// This idle session is now leased to the caller.
    Lease(u64),
    /// A slot is reserved under this id: connect, then report how it went.
    Create(u64),
    /// Every slot is taken: wait up to this many milliseconds, then ask again.
    Wait(u64),
    /// Every slot is taken and the wait is over.
    Exhausted,
}

/// What is to happen to a session that was handed back.
#[derive(Clone, Copy, PartialEq, Eq, Structural, Debug)]
pub enum HandBack {
    /// Probe it, then report the probe.
    Probe,
    /// It left the pool: close its transport.
    Destroy,
}

/// Something that happens to a pool.
pub enum PoolEvent {
    /// A checkout by a caller who has waited this long already.
    Checkout(u64),
    /// The connect for this reserved slot ended, well or not.
    Connected(u64, bool),
    /// This session came back, reported alive or not.
    HandBack(u64, bool),
    /// The probe of this session ended; it passed or it did not.
    Probed(u64, bool),
}

/// The pool as a value: its bound, its policy, the ids it has issued and its
/// sessions from the oldest to the youngest.
pub struct PoolState {
    pub max_size: nat,
    pub policy: WaitPolicy,
    pub next_id: nat,
    pub slots: Seq<Slot>,
}

/// The number of sessions among `slots` that are in `state`.
pub open spec fn count_in(slots: Seq<Slot>, state: SessionState) -> nat
    decreases slots.len(),
{
    if slots.len() == 0 {
        0
    } else {
        count_in(slots.drop_last(), state) + if slots.last().state == state {
            1nat
        } else {
            0nat
        }
    }
}

impl PoolState {
    /// The pool that has issued no session yet.
    pub open spec fn empty(max_size: nat, policy: WaitPolicy) -> PoolState {
        PoolState { max_size, policy, next_id: 0, slots: Seq::empty() }
    }

    /// The pool holds no more sessions than its bound, and its sessions
    /// carry ids that were issued, in rising order.
    pub open spec fn wf(self) -> bool {
        &&& self.slots.len() <= self.max_size
        &&& self.next_id <= u64::MAX
        &&& forall|i: int| 0 <= i < self.slots.len() ==> (#[trigger] self.slots[i]).id < self.next_id
        &&& forall|i: int, j: int|
            0 <= i < j < self.slots.len() ==> (#[trigger] self.slots[i]).id < (
            #[trigger] self.slots[j]).id
    }

    /// The session at `i` is the one called `id`.
    pub open spec fn holds(self, id: u64, i: int) -> bool {
        0 <= i < self.slots.len() && self.slots[i].id == id
    }

    /// Where the session called `id` sits, if the pool has it.
    pub open spec fn position(self, id: u64) -> Option<int> {
        if exists|i: int| self.holds(id, i) {
            Some(choose|i: int| self.holds(id, i))
        } else {
            None
        }
    }

    /// The state of the session called `id`; none when the pool has no such
    /// session, because it never had or because the session was destroyed.
    pub open spec fn state_of(self, id: u64) -> Option<SessionState> {
        match self.position(id) {
            Some(i) => Some(self.slots[i].state),
            None => None,
        }
    }

    /// The session at `i` is idle and no older one is.
    pub open spec fn is_first_idle(self, i: int) -> bool {
        &&& 0 <= i < self.slots.len()
        &&& self.slots[i].state == SessionState::Idle
        &&& forall|j: int| 0 <= j < i ==> (#[trigger] self.slots[j]).state != SessionState::Idle
    }

    /// Where the oldest idle session sits, if one is idle.
    pub open spec fn first_idle(self) -> Option<int> {
        if exists|i: int| self.is_first_idle(i) {
            Some(choose|i: int| self.is_first_idle(i))
        } else {
            None
        }
    }

    /// The number of sessions in `state`.
    pub open spec fn count(self, state: SessionState) -> nat {
        count_in(self.slots, state)
    }

    /// No session can be added: the bound is reached or the ids are used up.
    pub open spec fn saturated(self) -> bool {
        self.slots.len() >= self.max_size || self.next_id >= u64::MAX
    }

    /// The id was issued once and the pool no longer has the session.
    pub open spec fn gone(self, id: u64) -> bool {
        id < self.next_id && self.position(id) is None
    }

    /// The pool with the session at `i` moved to `state`.
    pub open spec fn with_state(self, i: int, state: SessionState) -> PoolState {
        PoolState { slots: self.slots.update(i, Slot { id: self.slots[i].id, state }), ..self }
    }

    /// The pool without the session at `i`.
    pub open spec fn without(self, i: int) -> PoolState {
        PoolState { slots: self.slots.remove(i), ..self }
    }

    /// A checkout: the oldest idle session is leased; where none is idle and
    /// the pool is not saturated, a slot is reserved under a fresh id; else
    /// the caller waits for what is left of the policy's limit, or fails.
    pub open spec fn checkout(self, waited_ms: u64) -> (Checkout, PoolState) {
        match self.first_idle() {
            Some(i) => (Checkout::Lease(self.slots[i].id), self.with_state(i, SessionState::InUse)),
            None => if !self.saturated() {
                (
                    Checkout::Create(self.next_id as u64),
                    PoolState {
                        next_id: self.next_id + 1,
                        slots: self.slots.push(
                            Slot { id: self.next_id as u64, state: SessionState::Connecting },
                        ),
                        ..self
                    },
                )
            } else {
                match self.policy {
                    WaitPolicy::Wait(limit) => if waited_ms < limit {
                        (Checkout::Wait((limit - waited_ms) as u64), self)
                    } else {
                        (Checkout::Exhausted, self)
                    },
                    WaitPolicy::FailFast => (Checkout::Exhausted, self),
                }
            },
        }
    }

    /// The end of a connect: the session is in use when it connected, and
    /// its slot is free again when it did not. Nothing happens for an id
    /// that is not connecting.
    pub open spec fn connected(self, id: u64, ok: bool) -> (Option<Result<(), Failure>>, PoolState) {
        match self.position(id) {
            Some(i) => if self.slots[i].state == SessionState::Connecting {
                if ok {
                    (Some(Ok(())), self.with_state(i, SessionState::InUse))
                } else {
                    (Some(Err(Failure::ConnectFailure)), self.without(i))
                }
            } else {
                (None, self)
            },
            None => (None, self),
        }
    }

    /// A hand-back: a session reported alive goes under probe, one reported
    /// dead leaves the pool. Nothing happens for an id that is not in use.
    pub open spec fn hand_back(self, id: u64, alive: bool) -> (Option<HandBack>, PoolState) {
        match self.position(id) {
            Some(i) => if self.slots[i].state == SessionState::InUse {
                if alive {
                    (Some(HandBack::Probe), self.with_state(i, SessionState::Probing))
                } else {
                    (Some(HandBack::Destroy), self.without(i))
                }
            } else {
                (None, self)
            },
            None => (None, self),
        }
    }

    /// The end of a probe: the session is idle when the probe passed, and
    /// leaves the pool when it did not. Nothing happens for an id that is
    /// not under probe.
    pub open spec fn probed(self, id: u64, alive: bool) -> (Option<Result<(), Failure>>, PoolState) {
        match self.position(id) {
            Some(i) => if self.slots[i].state == SessionState::Probing {
                if alive {
                    (Some(Ok(())), self.with_state(i, SessionState::Idle))
                } else {
                    (Some(Err(Failure::HealthCheckFailure)), self.without(i))
                }
            } else {
                (None, self)
            },
            None => (None, self),
        }
    }

    /// The pool after `event`.
    pub open spec fn after(self, event: PoolEvent) -> PoolState {
        match event {
            PoolEvent::Checkout(waited_ms) => self.checkout(waited_ms).1,
            PoolEvent::Connected(id, ok) => self.connected(id, ok).1,
            PoolEvent::HandBack(id, alive) => self.hand_back(id, alive).1,
            PoolEvent::Probed(id, alive) => self.probed(id, alive).1,
        }
    }

    /// The pool after `events`, one after the other.
    pub open spec fn run(self, events: Seq<PoolEvent>) -> PoolState
        decreases events.len(),
    {
        if events.len() == 0 {
            self
        } else {
            self.run(events.drop_last()).after(events.last())
        }
    }

    /// The session that `event` puts into a caller's hands: the one a
    /// checkout leases or reserves.
    pub open spec fn handed_out(self, event: PoolEvent) -> Option<u64> {
        match event {
            PoolEvent::Checkout(waited_ms) => match self.checkout(waited_ms).0 {
                Checkout::Lease(id) => Some(id),
                Checkout::Create(id) => Some(id),
                _ => None,
            },
            _ => None,
        }
    }

    /// In a well-formed pool a session sits where its id is found.
    pub proof fn lemma_position(self, id: u64, i: int)
        requires
            self.wf(),
            self.holds(id, i),
        ensures
            self.position(id) == Some(i),
            self.state_of(id) == Some(self.slots[i].state),
    {
        let c = choose|c: int| self.holds(id, c);
        if c < i {
            assert(self.slots[c].id < self.slots[i].id);
        } else if i < c {
            assert(self.slots[i].id < self.slots[c].id);
        }
    }

    /// The oldest idle session is the only one that is idle with no older
    /// idle one.
    pub proof fn lemma_first_idle(self, i: int)
        requires
            self.is_first_idle(i),
        ensures
            self.first_idle() == Some(i),
    {
        let c = choose|c: int| self.is_first_idle(c);
        if c < i {
            assert(self.slots[c].state != SessionState::Idle);
        } else if i < c {
            assert(self.slots[i].state != SessionState::Idle);
        }
    }

    /// Moving a session to another state keeps the pool well-formed and
    /// keeps every id where it was.
    pub proof fn lemma_with_state(self, i: int, state: SessionState)
        requires
            self.wf(),
            0 <= i < self.slots.len(),
        ensures
            self.with_state(i, state).wf(),
            forall|id: u64| self.with_state(i, state).position(id) == self.position(id),
    {
        let next = self.with_state(i, state);
        assert forall|id: u64| next.position(id) == self.position(id) by {
            assert forall|k: int| next.holds(id, k) == self.holds(id, k) by {}
            if exists|k: int| self.holds(id, k) {
                let k = choose|k: int| self.holds(id, k);
                assert(next.holds(id, k));
                self.lemma_position(id, k);
                next.lemma_position(id, k);
            } else {
                if exists|k: int| next.holds(id, k) {
                    let k = choose|k: int| next.holds(id, k);
                    assert(self.holds(id, k));
                }
            }
        }
    }

    /// Taking a session out keeps the pool well-formed, removes that id and
    /// moves no other.
    pub proof fn lemma_without(self, i: int)
        requires
            self.wf(),
            0 <= i < self.slots.len(),
        ensures
            self.without(i).wf(),
            self.without(i).position(self.slots[i].id) is None,
            forall|id: u64|
                self.position(id) is None ==> (#[trigger] self.without(i).position(id)) is None,
    {
        let next = self.without(i);
        assert forall|k: int| 0 <= k < next.slots.len() implies next.slots[k] == self.slots[if k
            < i {
            k
        } else {
            k + 1
        }] by {}
        let removed = self.slots[i].id;
        if exists|k: int| next.holds(removed, k) {
            let k = choose|k: int| next.holds(removed, k);
            let source = if k < i {
                k
            } else {
                k + 1
            };
            assert(self.slots[source].id == removed);
            if source < i {
                assert(self.slots[source].id < self.slots[i].id);
            } else {
                assert(self.slots[i].id < self.slots[source].id);
            }
        }
        assert forall|id: u64| self.position(id) is None implies (#[trigger] next.position(
            id,
        )) is None by {
            if exists|k: int| next.holds(id, k) {
                let k = choose|k: int| next.holds(id, k);
                let source = if k < i {
                    k
                } else {
                    k + 1
                };
                assert(self.holds(id, source));
            }
        }
    }

    /// Every event keeps a well-formed pool well-formed.
    pub proof fn lemma_after_wf(self, event: PoolEvent)
        requires
            self.wf(),
        ensures
            self.after(event).wf(),
    {
        match event {
            PoolEvent::Checkout(waited_ms) => {
                match self.first_idle() {
                    Some(i) => {
                        self.lemma_with_state(i, SessionState::InUse);
                    },
                    None => {},
                }
            },
            PoolEvent::Connected(id, ok) => {
                match self.position(id) {
                    Some(i) => {
                        self.lemma_with_state(i, SessionState::InUse);
                        self.lemma_without(i);
                    },
                    None => {},
                }
            },
            PoolEvent::HandBack(id, alive) => {
                match self.position(id) {
                    Some(i) => {
                        self.lemma_with_state(i, SessionState::Probing);
                        self.lemma_without(i);
                    },
                    None => {},
                }
            },
            PoolEvent::Probed(id, alive) => {
                match self.position(id) {
                    Some(i) => {
                        self.lemma_with_state(i, SessionState::Idle);
                        self.lemma_without(i);
                    },
                    None => {},
                }
            },
        }
    }

    /// What a checkout hands out was free: a leased session was idle and is
    /// now in use, a reserved slot carries an id that no session of the pool
    /// has had and is now connecting. So no session that a caller holds is
    /// handed to a second one.
    pub proof fn lemma_checkout_is_exclusive(self, waited_ms: u64)
        requires
            self.wf(),
        ensures
            match self.checkout(waited_ms).0 {
                Checkout::Lease(id) => self.state_of(id) == Some(SessionState::Idle)
                    && self.checkout(waited_ms).1.state_of(id) == Some(SessionState::InUse),
                Checkout::Create(id) => self.state_of(id) is None && id == self.next_id
                    && self.checkout(waited_ms).1.state_of(id) == Some(SessionState::Connecting),
                Checkout::Wait(millis) => self.policy matches WaitPolicy::Wait(limit) && waited_ms
                    + millis == limit && self.checkout(waited_ms).1 == self,
                Checkout::Exhausted => self.checkout(waited_ms).1 == self,
            },
            self.first_idle() is None && !self.saturated() ==> self.checkout(waited_ms).0 is Create,
            self.first_idle() is None && self.saturated() ==> self.checkout(waited_ms).0 is Wait
                || self.checkout(waited_ms).0 is Exhausted,
    {
        let next = self.checkout(waited_ms).1;
        self.lemma_after_wf(PoolEvent::Checkout(waited_ms));
        match self.first_idle() {
            Some(i) => {
                self.lemma_position(self.slots[i].id, i);
                next.lemma_position(self.slots[i].id, i);
            },
            None => {
                if !self.saturated() {
                    let id = self.next_id as u64;
                    if exists|k: int| self.holds(id, k) {
                        let k = choose|k: int| self.holds(id, k);
                        assert(self.slots[k].id < self.next_id);
                    }
                    next.lemma_position(id, self.slots.len() as int);
                }
            },
        }
    }

    /// A session that is handed back is no longer in use: it is under probe
    /// when it was reported alive, and gone from the pool when it was not.
    pub proof fn lemma_hand_back_releases(self, id: u64, alive: bool)
        requires
            self.wf(),
        ensures
            self.hand_back(id, alive).0 is Some <==> self.state_of(id) == Some(SessionState::InUse),
            self.hand_back(id, alive).0 is Some ==> self.hand_back(id, alive).1.state_of(id) == if alive {
                Some(SessionState::Probing)
            } else {
                None
            },
    {
        match self.position(id) {
            Some(i) => {
                self.lemma_with_state(i, SessionState::Probing);
                self.lemma_without(i);
                self.with_state(i, SessionState::Probing).lemma_position(id, i);
            },
            None => {},
        }
    }

    /// A session that was probed is idle when the probe passed, and gone from
    /// the pool when it did not.
    pub proof fn lemma_probed_settles(self, id: u64, alive: bool)
        requires
            self.wf(),
        ensures
            self.probed(id, alive).0 is Some <==> self.state_of(id) == Some(SessionState::Probing),
            self.probed(id, alive).0 is Some ==> self.probed(id, alive).1.state_of(id) == if alive {
                Some(SessionState::Idle)
            } else {
                None
            },
    {
        match self.position(id) {
            Some(i) => {
                self.lemma_with_state(i, SessionState::Idle);
                self.lemma_without(i);
                self.with_state(i, SessionState::Idle).lemma_position(id, i);
            },
            None => {},
        }
    }

    /// A connect that ended leaves the session in use when it connected, and
    /// leaves no session and a free slot when it did not.
    pub proof fn lemma_connected_settles(self, id: u64, ok: bool)
        requires
            self.wf(),
        ensures
            self.connected(id, ok).0 is Some <==> self.state_of(id) == Some(
                SessionState::Connecting,
            ),
            self.connected(id, ok).0 is Some ==> self.connected(id, ok).1.state_of(id) == if ok {
                Some(SessionState::InUse)
            } else {
                None
            },
            self.connected(id, ok).0 is Some && !ok ==> self.connected(id, ok).1.slots.len()
                == self.slots.len() - 1,
    {
        match self.position(id) {
            Some(i) => {
                self.lemma_with_state(i, SessionState::InUse);
                self.lemma_without(i);
                self.with_state(i, SessionState::InUse).lemma_position(id, i);
            },
            None => {},
        }
    }

    /// A well-formed pool stays well-formed whatever happens to it.
    pub proof fn lemma_run_wf(self, events: Seq<PoolEvent>)
        requires
            self.wf(),
        ensures
            self.run(events).wf(),
        decreases events.len(),
    {
        if events.len() > 0 {
            self.lemma_run_wf(events.drop_last());
            self.run(events.drop_last()).lemma_after_wf(events.last());
        }
    }

    /// The sessions of the four states together are the sessions of the pool.
    pub proof fn lemma_counts(self)
        ensures
            self.count(SessionState::Connecting) + self.count(SessionState::InUse) + self.count(
                SessionState::Probing,
            ) + self.count(SessionState::Idle) == self.slots.len(),
        decreases self.slots.len(),
    {
        if self.slots.len() > 0 {
            PoolState { slots: self.slots.drop_last(), ..self }.lemma_counts();
        }
    }

    /// In a well-formed pool the sessions that are leased or idle, and with
    /// them those that are connecting or under probe, are no more than
    /// `max_size`.
    pub proof fn lemma_sessions_bounded(self)
        requires
            self.wf(),
        ensures
            self.count(SessionState::InUse) + self.count(SessionState::Idle) <= self.max_size,
            self.count(SessionState::Connecting) + self.count(SessionState::InUse) + self.count(
                SessionState::Probing,
            ) + self.count(SessionState::Idle) <= self.max_size,
    {
        self.lemma_counts();
    }

    /// From a well-formed pool, whatever happens, the sessions that are
    /// leased or idle never exceed `max_size`.
    pub proof fn lemma_never_over_max_size(self, events: Seq<PoolEvent>)
        requires
            self.wf(),
        ensures
            self.run(events).max_size == self.max_size,
            self.run(events).count(SessionState::InUse) + self.run(events).count(
                SessionState::Idle,
            ) <= self.max_size,
        decreases events.len(),
    {
        self.lemma_run_wf(events);
        self.run(events).lemma_sessions_bounded();
        if events.len() > 0 {
            self.lemma_never_over_max_size(events.drop_last());
        }
    }

    /// A session that is reported dead when it is handed back, or that fails
    /// its probe, is gone from the pool.
    pub proof fn lemma_unhealthy_is_gone(self, id: u64)
        requires
            self.wf(),
        ensures
            self.state_of(id) == Some(SessionState::InUse) ==> self.hand_back(id, false).1.gone(id),
            self.state_of(id) == Some(SessionState::Probing) ==> self.probed(id, false).1.gone(id),
    {
        match self.position(id) {
            Some(i) => {
                self.lemma_without(i);
            },
            None => {},
        }
    }

    /// A session that is gone stays gone through every event, and no event
    /// hands it out.
    pub proof fn lemma_gone_stays_gone(self, id: u64, event: PoolEvent)
        requires
            self.wf(),
            self.gone(id),
        ensures
            self.after(event).gone(id),
            self.handed_out(event) != Some(id),
    {
        self.lemma_after_wf(event);
        match event {
            PoolEvent::Checkout(waited_ms) => {
                match self.first_idle() {
                    Some(i) => {
                        self.lemma_with_state(i, SessionState::InUse);
                        assert(self.holds(self.slots[i].id, i));
                    },
                    None => {
                        if !self.saturated() {
                            let next = self.after(event);
                            if exists|k: int| next.holds(id, k) {
                                let k = choose|k: int| next.holds(id, k);
                                if k < self.slots.len() {
                                    assert(self.holds(id, k));
                                }
                            }
                        }
                    },
                }
            },
            PoolEvent::Connected(other, ok) => {
                match self.position(other) {
                    Some(i) => {
                        self.lemma_with_state(i, SessionState::InUse);
                        self.lemma_without(i);
                    },
                    None => {},
                }
            },
            PoolEvent::HandBack(other, alive) => {
                match self.position(other) {
                    Some(i) => {
                        self.lemma_with_state(i, SessionState::Probing);
                        self.lemma_without(i);
                    },
                    None => {},
                }
            },
            PoolEvent::Probed(other, alive) => {
                match self.position(other) {
                    Some(i) => {
                        self.lemma_with_state(i, SessionState::Idle);
                        self.lemma_without(i);
                    },
                    None => {},
                }
            },
        }
    }

    /// A session that is gone is handed out by none of `events`, and is
    /// still gone after all of them.
    pub proof fn lemma_gone_for_good(self, id: u64, events: Seq<PoolEvent>)
        requires
            self.wf(),
            self.gone(id),
        ensures
            self.run(events).gone(id),
            forall|k: int|
                0 <= k < events.len() ==> self.run(events.take(k)).handed_out(
                    #[trigger] events[k],
                ) != Some(id),
        decreases events.len(),
    {
        if events.len() > 0 {
            let before = events.drop_last();
            self.lemma_gone_for_good(id, before);
            self.lemma_run_wf(before);
            self.run(before).lemma_gone_stays_gone(id, events.last());
            assert forall|k: int| 0 <= k < events.len() implies self.run(
                events.take(k),
            ).handed_out(#[trigger] events[k]) != Some(id) by {
                if k < before.len() {
                    assert(events.take(k) == before.take(k));
                    assert(events[k] == before[k]);
                } else {
                    assert(events.take(k) == before);
                }
            }
        }
    }

    /// A session once reported unhealthy, at its hand-back or by its probe,
    /// is never handed out by a later checkout.
    pub proof fn lemma_unhealthy_never_handed_out(
        self,
        id: u64,
        events: Seq<PoolEvent>,
        k: int,
    )
        requires
            self.wf(),
            0 <= k < events.len(),
        ensures
            self.state_of(id) == Some(SessionState::InUse) ==> self.hand_back(id, false).1.run(
                events.take(k),
            ).handed_out(events[k]) != Some(id),
            self.state_of(id) == Some(SessionState::Probing) ==> self.probed(id, false).1.run(
                events.take(k),
            ).handed_out(events[k]) != Some(id),
    {
        self.lemma_unhealthy_is_gone(id);
        if self.state_of(id) == Some(SessionState::InUse) {
            let next = self.hand_back(id, false).1;
            self.lemma_after_wf(PoolEvent::HandBack(id, false));
            next.lemma_gone_for_good(id, events);
        }
        if self.state_of(id) == Some(SessionState::Probing) {
            let next = self.probed(id, false).1;
            self.lemma_after_wf(PoolEvent::Probed(id, false));
            next.lemma_gone_for_good(id, events);
        }
    }
}

/// The sum of `waits`.
pub open spec fn total(waits: Seq<nat>) -> nat
    decreases waits.len(),
{
    if waits.len() == 0 {
        0
    } else {
        total(waits.drop_last()) + waits.last()
    }
}

/// A caller who is told to wait time and again under a policy with `limit`,
/// who at each checkout reports no less than it has waited so far, and who
/// each time waits no longer than it is told, waits no longer than `limit`
/// in all.
pub proof fn lemma_waits_within_limit(
    limit: u64,
    pools: Seq<PoolState>,
    reported: Seq<u64>,
    waits: Seq<nat>,
)
    requires
        pools.len() == waits.len(),
        reported.len() == waits.len(),
        forall|j: int|
            0 <= j < waits.len() ==> {
                &&& (#[trigger] pools[j]).policy == WaitPolicy::Wait(limit)
                &&& reported[j] >= total(waits.take(j))
                &&& pools[j].checkout(reported[j]).0 is Wait
                &&& waits[j] <= pools[j].checkout(reported[j]).0->Wait_0
            },
    ensures
        total(waits) <= limit,
{
    if waits.len() > 0 {
        let j = waits.len() - 1;
        assert(pools[j].policy == WaitPolicy::Wait(limit));
        assert(waits.take(j) == waits.drop_last());
    }
}

/// The pool of one device.
pub struct ConnectionPool {
    manager: ModbusManager,
    max_size: usize,
    policy: WaitPolicy,
    next_id: u64,
    slots: Vec<Slot>,
}

impl View for ConnectionPool {
    type V = PoolState;

    closed spec fn view(&self) -> PoolState {
        PoolState {
            max_size: self.max_size as nat,
            policy: self.policy,
            next_id: self.next_id as nat,
            slots: self.slots@,
        }
    }
}

impl ConnectionPool {
    /// The endpoint that the sessions of this pool are opened to.
    pub closed spec fn endpoint(&self) -> ModbusManager {
        self.manager
    }

    /// The pool is well-formed as a value and its bound fits the machine.
    pub open spec fn wf(&self) -> bool {
        self@.wf() && self@.max_size <= usize::MAX
    }

    /// An empty pool for the sessions of one endpoint.
    pub fn new(manager: ModbusManager, max_size: usize, policy: WaitPolicy) -> (pool: Self)
        ensures
            pool.wf(),
            pool.endpoint() == manager,
            pool@ == PoolState::empty(max_size as nat, policy),
    {
        ConnectionPool { manager, max_size, policy, next_id: 0, slots: Vec::new() }
    }

    /// The endpoint that the sessions of this pool are opened to.
    pub fn manager(&self) -> (manager: &ModbusManager)
        ensures
            *manager == self.endpoint(),
    {
        &self.manager
    }

    /// The most sessions that this pool holds at a time.
    pub fn max_size(&self) -> (n: usize)
        ensures
            n == self@.max_size,
    {
        self.max_size
    }

    /// The number of sessions that the pool holds, whatever their state.
    pub fn size(&self) -> (n: usize)
        ensures
            n == self@.slots.len(),
    {
        self.slots.len()
    }

    /// The number of sessions that are in `state`.
    pub fn count(&self, state: SessionState) -> (n: usize)
        ensures
            n == self@.count(state),
    {
        let mut n: usize = 0;
        let mut i: usize = 0;
        while i < self.slots.len()
            invariant
                i <= self.slots.len(),
                n <= i,
                n == count_in(self.slots@.take(i as int), state),
            decreases self.slots.len() - i,
        {
            proof {
                assert(self.slots@.take(i + 1).drop_last() == self.slots@.take(i as int));
            }
            if self.slots[i].state == state {
                n = n + 1;
            }
            i = i + 1;
        }
        proof {
            assert(self.slots@.take(i as int) == self.slots@);
        }
        n
    }

    /// The state of the session called `id`, if the pool has it.
    pub fn state(&self, id: u64) -> (state: Option<SessionState>)
        requires
            self.wf(),
        ensures
            state == self@.state_of(id),
    {
        match self.find(id) {
            Some(i) => Some(self.slots[i].state),
            None => None,
        }
    }

    fn find(&self, id: u64) -> (found: Option<usize>)
        requires
            self.wf(),
        ensures
            match found {
                Some(i) => self@.position(id) == Some(i as int) && i < self.slots.len(),
                None => self@.position(id) is None,
            },
    {
        let mut i: usize = 0;
        while i < self.slots.len()
            invariant
                self.wf(),
                i <= self.slots.len(),
                forall|k: int| 0 <= k < i ==> !self@.holds(id, k),
            decreases self.slots.len() - i,
        {
            if self.slots[i].id == id {
                proof {
                    self@.lemma_position(id, i as int);
                }
                return Some(i);
            }
            i = i + 1;
        }
        None
    }

    fn find_idle(&self) -> (found: Option<usize>)
        ensures
            match found {
                Some(i) => self@.first_idle() == Some(i as int) && i < self.slots.len(),
                None => self@.first_idle() is None,
            },
    {
        let mut i: usize = 0;
        while i < self.slots.len()
            invariant
                i <= self.slots.len(),
                forall|k: int| 0 <= k < i ==> (#[trigger] self.slots@[k]).state != SessionState::Idle,
            decreases self.slots.len() - i,
        {
            if self.slots[i].state == SessionState::Idle {
                proof {
                    self@.lemma_first_idle(i as int);
                }
                return Some(i);
            }
            i = i + 1;
        }
        proof {
            if exists|k: int| self@.is_first_idle(k) {
                let k = choose|k: int| self@.is_first_idle(k);
                assert(self.slots@[k].state == SessionState::Idle);
            }
        }
        None
    }

    /// Takes the session at `i` out of the pool for good and tells the
    /// connector so.
    fn discard(&mut self, i: usize)
        requires
            i < old(self).slots.len(),
        ensures
            final(self)@ == old(self)@.without(i as int),
            final(self).endpoint() == old(self).endpoint(),
    {
        self.slots.remove(i);
        let mut gone = Modbus { addr: self.manager.addr.clone(), slave: self.manager.slave, status: false };
        self.manager.detach(&mut gone);
    }

    /// Asks for a session on behalf of a caller who has waited `waited_ms`
    /// already. The oldest idle session is leased if there is one; else a
    /// slot is reserved for a new session if the pool is not saturated; else
    /// the caller is told to wait, or that the pool is exhausted.
    pub fn checkout(&mut self, waited_ms: u64) -> (decision: Checkout)
        requires
            old(self).wf(),
        ensures
            final(self).wf(),
            final(self).endpoint() == old(self).endpoint(),
            (decision, final(self)@) == old(self)@.checkout(waited_ms),
    {
        proof {
            self@.lemma_after_wf(PoolEvent::Checkout(waited_ms));
        }
        match self.find_idle() {
            Some(i) => {
                let id = self.slots[i].id;
                self.slots[i].state = SessionState::InUse;
                Checkout::Lease(id)
            },
            None => {
                if self.slots.len() < self.max_size && self.next_id < u64::MAX {
                    let id = self.next_id;
                    self.slots.push(Slot { id, state: SessionState::Connecting });
                    self.next_id = id + 1;
                    Checkout::Create(id)
                } else {
                    match self.policy {
                        WaitPolicy::Wait(limit) => {
                            if waited_ms < limit {
                                Checkout::Wait(limit - waited_ms)
                            } else {
                                Checkout::Exhausted
                            }
                        },
                        WaitPolicy::FailFast => Checkout::Exhausted,
                    }
                }
            },
        }
    }

    /// Reports the end of the connect for the slot reserved under `id`. The
    /// session is in use when `ok`; else the slot is free again and the
    /// failure is returned. None, and no change, when `id` is not connecting.
    pub fn connected(&mut self, id: u64, ok: bool) -> (report: Option<Result<(), Failure>>)
        requires
            old(self).wf(),
        ensures
            final(self).wf(),
            final(self).endpoint() == old(self).endpoint(),
            (report, final(self)@) == old(self)@.connected(id, ok),
    {
        proof {
            self@.lemma_after_wf(PoolEvent::Connected(id, ok));
        }
        match self.find(id) {
            Some(i) => {
                if self.slots[i].state == SessionState::Connecting {
                    if ok {
                        self.slots[i].state = SessionState::InUse;
                        Some(Ok(()))
                    } else {
                        self.discard(i);
                        Some(Err(Failure::ConnectFailure))
                    }
                } else {
                    None
                }
            },
            None => None,
        }
    }

    /// Takes back the session leased under `id`. Whether it may be kept is
    /// the connector's word on its liveness flag: a live session goes under
    /// probe, a dead one leaves the pool and its transport is to be closed.
    /// None, and no change, when `id` is not in use.
    pub fn hand_back(&mut self, id: u64, session: &Modbus) -> (action: Option<HandBack>)
        requires
            old(self).wf(),
        ensures
            final(self).wf(),
            final(self).endpoint() == old(self).endpoint(),
            (action, final(self)@) == old(self)@.hand_back(id, session.status),
    {
        proof {
            self@.lemma_after_wf(PoolEvent::HandBack(id, session.status));
        }
        match self.find(id) {
            Some(i) => {
                if self.slots[i].state == SessionState::InUse {
                    match self.manager.recycle(session) {
                        Ok(()) => {
                            self.slots[i].state = SessionState::Probing;
                            Some(HandBack::Probe)
                        },
                        Err(_) => {
                            self.discard(i);
                            Some(HandBack::Destroy)
                        },
                    }
                } else {
                    None
                }
            },
            None => None,
        }
    }

    /// Reports the end of the probe of the session called `id`. The session
    /// is idle when it is `alive`; else it leaves the pool, its transport is
    /// to be closed and the failure is returned. None, and no change, when
    /// `id` is not under probe.
    pub fn probed(&mut self, id: u64, alive: bool) -> (report: Option<Result<(), Failure>>)
        requires
            old(self).wf(),
        ensures
            final(self).wf(),
            final(self).endpoint() == old(self).endpoint(),
            (report, final(self)@) == old(self)@.probed(id, alive),
    {
        proof {
            self@.lemma_after_wf(PoolEvent::Probed(id, alive));
        }
        match self.find(id) {
            Some(i) => {
                if self.slots[i].state == SessionState::Probing {
                    if alive {
                        self.slots[i].state = SessionState::Idle;
                        Some(Ok(()))
                    } else {
                        self.discard(i);
                        Some(Err(Failure::HealthCheckFailure))
                    }
                } else {
                    None
                }
            },
            None => None,
        }
    }
}

} // verus!
