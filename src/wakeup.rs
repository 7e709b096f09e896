use vstd::prelude::*;

verus! {

/// Where the single consumer stands in its wait for capacity.
#[derive(Clone, Copy, Debug, PartialEq, Eq, Structural)]
pub enum WaitPhase {
    /// Running: about to read the counter.
    Running,
    /// It read the counter and found no room; it has not taken the slot yet.
    Checked,
    /// It holds the slot and has stored its waker there.
    Registered,
    /// It let go of the slot with its waker stored and is suspended.
    Parked,
}

/// One atomic step of the tasks that share a backpressure pair.
#[derive(Clone, Copy, Debug, PartialEq, Eq, Structural)]
pub enum WaitEvent {
    /// A token is created: the count goes up by one. Nothing is woken.
    Create,
    /// A token is dropped: the count goes down by one, and where the count
    /// before equalled the limit, a wake-up is owed.
    Release,
    /// The limit is replaced; a raise owes a wake-up.
    SetLimit(usize),
    /// A task that owes a wake-up tries the slot: where the slot is free and
    /// holds a waker, the waker is taken and the consumer runs again; where
    /// the consumer holds the slot, the attempt is given up.
    TryWake,
    /// The consumer reads the counter.
    Check,
    /// The consumer takes the slot and stores its waker.
    Register,
    /// Holding the slot, the consumer reads the counter again: it takes its
    /// waker back and runs where there is room, and suspends where there is
    /// none.
    Recheck,
}

/// The state that the tasks of a backpressure pair share: the counter, the
/// waiter slot, the consumer's phase and the wake-ups still owed by tasks
/// that have not tried the slot yet.
pub ghost struct WaitState {
    pub active: nat,
    pub limit: nat,
    pub waker_stored: bool,
    pub phase: WaitPhase,
    pub owed_wakes: nat,
}

impl WaitState {
    /// A fresh pair: no token, the consumer running, nothing owed.
    pub open spec fn init(limit: nat) -> WaitState {
        WaitState { active: 0, limit, waker_stored: false, phase: WaitPhase::Running, owed_wakes: 0 }
    }

    /// The consumer holds the slot only while it is registered.
    pub open spec fn slot_busy(self) -> bool {
        self.phase == WaitPhase::Registered
    }

    /// Whether a step can be taken: a release needs a live token, an attempt
    /// to wake needs a wake-up owed, and each step of the consumer follows
    /// the one before.
    pub open spec fn enabled(self, e: WaitEvent) -> bool {
        match e {
            WaitEvent::Create => true,
            WaitEvent::Release => self.active > 0,
            WaitEvent::SetLimit(_) => true,
            WaitEvent::TryWake => self.owed_wakes > 0,
            WaitEvent::Check => self.phase == WaitPhase::Running,
            WaitEvent::Register => self.phase == WaitPhase::Checked,
            WaitEvent::Recheck => self.phase == WaitPhase::Registered,
        }
    }

    /// The state after a step.
    pub open spec fn step(self, e: WaitEvent) -> WaitState {
        match e {
            WaitEvent::Create => WaitState { active: self.active + 1, ..self },
            WaitEvent::Release => WaitState {
                active: (self.active - 1) as nat,
                owed_wakes: if self.active == self.limit {
                    self.owed_wakes + 1
                } else {
                    self.owed_wakes
                },
                ..self
            },
            WaitEvent::SetLimit(n) => WaitState {
                limit: n as nat,
                owed_wakes: if self.limit < n {
                    self.owed_wakes + 1
                } else {
                    self.owed_wakes
                },
                ..self
            },
            WaitEvent::TryWake => if !self.slot_busy() && self.waker_stored {
                WaitState {
                    owed_wakes: (self.owed_wakes - 1) as nat,
                    waker_stored: false,
                    phase: WaitPhase::Running,
                    ..self
                }
            } else {
                WaitState { owed_wakes: (self.owed_wakes - 1) as nat, ..self }
            },
            WaitEvent::Check => if self.active < self.limit {
                self
            } else {
                WaitState { phase: WaitPhase::Checked, ..self }
            },
            WaitEvent::Register => WaitState {
                waker_stored: true,
                phase: WaitPhase::Registered,
                ..self
            },
            WaitEvent::Recheck => if self.active < self.limit {
                WaitState { waker_stored: false, phase: WaitPhase::Running, ..self }
            } else {
                WaitState { phase: WaitPhase::Parked, ..self }
            },
        }
    }

    /// The state after a run of enabled steps; a step that is not enabled
    /// is skipped.
    pub open spec fn run(self, events: Seq<WaitEvent>) -> WaitState
        decreases events.len(),
    {
        if events.len() == 0 {
            self
        } else {
            let prev = self.run(events.drop_last());
            if prev.enabled(events.last()) {
                prev.step(events.last())
            } else {
                prev
            }
        }
    }

    /// No lost wake-up: a suspended consumer has its waker in the slot, and
    /// wherever there is room some task still owes it a wake-up. A waker is
    /// stored only while the consumer is registered or suspended.
    pub open spec fn inv(self) -> bool {
        &&& (self.phase == WaitPhase::Parked ==> self.waker_stored && (self.active < self.limit
            ==> self.owed_wakes > 0))
        &&& (self.phase == WaitPhase::Registered ==> self.waker_stored)
        &&& (self.phase == WaitPhase::Running || self.phase == WaitPhase::Checked
            ==> !self.waker_stored)
    }
}

/// Every step of the shared protocol keeps the consumer from being left
/// suspended with room and no wake-up on its way.
pub proof fn lemma_step_keeps_inv(s: WaitState, e: WaitEvent)
    requires
        s.inv(),
        s.enabled(e),
    ensures
        s.step(e).inv(),
{
}

/// From a fresh pair, every run of steps, in any interleaving, keeps the
/// invariant.
pub proof fn lemma_run_keeps_inv(limit: nat, events: Seq<WaitEvent>)
    ensures
        WaitState::init(limit).run(events).inv(),
    decreases events.len(),
{
    if events.len() > 0 {
        lemma_run_keeps_inv(limit, events.drop_last());
        let prev = WaitState::init(limit).run(events.drop_last());
        if prev.enabled(events.last()) {
            lemma_step_keeps_inv(prev, events.last());
        }
    }
}

/// A consumer suspended while there is room is owed a wake-up, and the
/// next attempt to wake it succeeds: the slot is free and holds its waker.
pub proof fn lemma_parked_with_room_is_woken(s: WaitState)
    requires
        s.inv(),
        s.phase == WaitPhase::Parked,
        s.active < s.limit,
    ensures
        s.enabled(WaitEvent::TryWake),
        s.step(WaitEvent::TryWake).phase == WaitPhase::Running,
{
}

/// Raising the limit over a suspended consumer owes it a wake-up, which then
/// reaches it with no token released.
pub proof fn lemma_raise_wakes_suspended(s: WaitState, new_limit: usize)
    requires
        s.inv(),
        s.phase == WaitPhase::Parked,
        s.limit < new_limit,
    ensures
        s.step(WaitEvent::SetLimit(new_limit)).owed_wakes > 0,
        s.step(WaitEvent::SetLimit(new_limit)).step(WaitEvent::TryWake).phase
            == WaitPhase::Running,
{
}

/// A token created and then released, with no other step in between,
/// leaves the count and the limit as they were. Where the count after the
/// creation equalled the limit, the release owes one wake-up, which
/// reaches a suspended consumer at the next attempt; otherwise the slot is
/// left as it was and nothing more is owed.
pub proof fn lemma_token_round_trip_slot(s: WaitState)
    requires
        s.inv(),
    ensures
        ({
            let t = s.step(WaitEvent::Create).step(WaitEvent::Release);
            &&& t.active == s.active
            &&& t.limit == s.limit
            &&& t.inv()
            &&& t.phase == s.phase
            &&& t.waker_stored == s.waker_stored
            &&& (s.active + 1 == s.limit ==> t.owed_wakes == s.owed_wakes + 1)
            &&& (s.active + 1 != s.limit ==> t.owed_wakes == s.owed_wakes)
            &&& (s.active + 1 == s.limit && s.phase == WaitPhase::Parked ==> t.step(
                WaitEvent::TryWake,
            ).phase == WaitPhase::Running && !t.step(WaitEvent::TryWake).waker_stored)
        }),
{
    lemma_step_keeps_inv(s, WaitEvent::Create);
    lemma_step_keeps_inv(s.step(WaitEvent::Create), WaitEvent::Release);
}

} // verus!
