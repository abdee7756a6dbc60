use crate::level::Level;
use std::time::UNIX_EPOCH;
use vstd::prelude::*;

verus! {

/// Minimum time, in milliseconds, between two accepted changes of the lock.
pub const DEBOUNCE_MS: u64 = 250;

/// The state of the lock actuator's output pin.
#[derive(Clone, Copy, Debug, PartialEq, Eq, Structural)]
pub enum LockState {
    Locked,
    Unlocked,
}

/// The lock was changed less than `DEBOUNCE_MS` ago.
#[derive(Clone, Copy, Debug, PartialEq, Eq, Structural)]
pub struct LockBusy {}

impl LockBusy {
    /// The message that describes this error.
    pub fn message(&self) -> (r: String)
        ensures
            r@ == "Lock is busy"@,
    {
        proof {
            reveal_strlit("Lock is busy");
        }
        "Lock is busy".to_owned()
    }
}

/// Why a change of the lock did not happen.
#[derive(Debug, PartialEq, Eq)]
pub enum LockError<E> {
    /// The debounce interval had not elapsed: nothing was written.
    Busy(LockBusy),
    /// Writing the output pin failed with this error.
    Io(E),
}

/// What a read of the output pin means: Low is Locked, High is Unlocked.
pub open spec fn lock_state_of(level: Level) -> LockState {
    match level {
        Level::Low => LockState::Locked,
        Level::High => LockState::Unlocked,
    }
}

/// The level that is written to put the lock in `state`.
pub open spec fn level_for(state: LockState) -> Level {
    match state {
        LockState::Locked => Level::Low,
        LockState::Unlocked => Level::High,
    }
}

/// The other lock state.
pub open spec fn flipped(state: LockState) -> LockState {
    match state {
        LockState::Locked => LockState::Unlocked,
        LockState::Unlocked => LockState::Locked,
    }
}

/// A change at `now` comes too soon after the change at `last_change`.
pub open spec fn is_busy(last_change: u64, now: u64) -> bool {
    now < last_change + DEBOUNCE_MS
}

impl LockState {
    /// The level that is written to put the lock in this state.
    pub fn level(self) -> (r: Level)
        ensures
            r == level_for(self),
    {
        match self {
            LockState::Locked => Level::Low,
            LockState::Unlocked => Level::High,
        }
    }

    /// The other lock state.
    pub fn toggled(self) -> (r: LockState)
        ensures
            r == flipped(self),
    {
        match self {
            LockState::Locked => LockState::Unlocked,
            LockState::Unlocked => LockState::Locked,
        }
    }
}

/// Reading the lock's pin and writing a lock state are inverse maps: Low
/// reads as Locked and High as Unlocked, each level reads as the state whose
/// level it is, and each state's level reads back as that state.
pub proof fn lemma_lock_levels(level: Level, state: LockState)
    ensures
        lock_state_of(Level::Low) == LockState::Locked,
        lock_state_of(Level::High) == LockState::Unlocked,
        level_for(lock_state_of(level)) == level,
        lock_state_of(level_for(state)) == state,
{
}

/// Once a change at `t1` has been accepted and recorded, a change at `t2`
/// is refused when it comes less than `DEBOUNCE_MS` after `t1`, and is
/// accepted otherwise; the recorded time of the last change then only
/// moves forward.
pub proof fn lemma_debounce(before: Lock, after: Lock, t1: u64, t2: u64)
    requires
        before.accepts(t1),
        after.last_change_spec() == t1,
    ensures
        t2 < t1 + DEBOUNCE_MS ==> !after.accepts(t2),
        t2 >= t1 + DEBOUNCE_MS ==> after.accepts(t2),
        before.last_change_spec() < t1,
        after.accepts(t2) ==> t1 < t2,
{
}

/// A lock that has not been driven yet accepts its first change at any
/// time at least `DEBOUNCE_MS` after the epoch, and the level that forces
/// it to Locked reads back as Locked.
pub proof fn lemma_construction(now: u64)
    requires
        now >= DEBOUNCE_MS,
    ensures
        Lock::unforced_spec().accepts(now),
        lock_state_of(level_for(LockState::Locked)) == LockState::Locked,
{
}

/// A toggle writes the level of the other state: reading the pin after a
/// successful toggle gives the negation of the state read before it.
pub proof fn lemma_toggle_negates(current: Level)
    ensures
        lock_state_of(level_for(flipped(lock_state_of(current)))) == flipped(lock_state_of(current)),
        flipped(lock_state_of(current)) != lock_state_of(current),
        flipped(flipped(lock_state_of(current))) == lock_state_of(current),
{
}

/// The time now, in milliseconds since the Unix epoch, or `None` when the
/// clock stands before the epoch.
/// Relies on `SystemTime::elapsed` (applied to `UNIX_EPOCH`): the result
/// depends on the clock, so nothing is promised of it.
#[verifier::external_body]
fn now_millis() -> (r: Option<u64>) {
    UNIX_EPOCH.elapsed().ok().map(|d| d.as_millis() as u64)
}

/// The lock actuator's debounce state machine. The output pin itself is
/// driven through the write operation handed to each change.
pub struct Lock {
    last_change: u64,
}

impl Lock {
    /// Milliseconds since the Unix epoch of the last accepted change.
    pub closed spec fn last_change_spec(&self) -> u64 {
        self.last_change
    }

    /// A change requested at `now` passes the debounce guard.
    pub open spec fn accepts(&self, now: u64) -> bool {
        !is_busy(self.last_change_spec(), now)
    }

    /// The lock before it is first driven: no change since the epoch.
    pub closed spec fn unforced_spec() -> Lock {
        Lock { last_change: 0 }
    }

    /// The state before the lock is first driven: no change has happened
    /// since the epoch.
    pub fn unforced() -> (r: Lock)
        ensures
            r == Lock::unforced_spec(),
            r.last_change_spec() == 0,
    {
        Lock { last_change: 0 }
    }

    /// Builds the lock at time `now` and forces it to Locked by writing
    /// `Level::Low` through `write`.
    pub fn new_at<E, F: FnOnce(Level) -> Result<(), E>>(now: u64, write: F) -> (r: Result<
        Lock,
        LockError<E>,
    >)
        requires
            write.requires((Level::Low,)),
        ensures
            is_busy(0, now) <==> r == Err::<Lock, LockError<E>>(LockError::Busy(LockBusy {})),
            !is_busy(0, now) ==> exists|w: Result<(), E>|
                {
                    &&& #[trigger] write.ensures((Level::Low,), w)
                    &&& (w is Ok <==> r is Ok)
                    &&& (forall|e: E| w == Err::<(), E>(e) ==> r == Err::<Lock, LockError<E>>(LockError::Io(e)))
                },
            r is Ok ==> write.ensures((Level::Low,), Ok::<(), E>(())),
            r is Ok ==> r->Ok_0.last_change_spec() == now,
    {
        let mut lock = Lock::unforced();
        match lock.set_state_at(LockState::Locked, now, write) {
            Ok(()) => Ok(lock),
            Err(e) => Err(e),
        }
    }

    /// Builds the lock and forces it to Locked, at the time of the system
    /// clock.
    pub fn new<E, F: FnOnce(Level) -> Result<(), E>>(write: F) -> (r: Result<Lock, LockError<E>>)
        requires
            write.requires((Level::Low,)),
        ensures
            r is Ok ==> r->Ok_0.last_change_spec() >= DEBOUNCE_MS,
            r is Ok ==> write.ensures((Level::Low,), Ok::<(), E>(())),
    {
        match now_millis() {
            Some(now) => Lock::new_at(now, write),
            None => Err(LockError::Busy(LockBusy {})),
        }
    }

    /// What the lock is, given the level read from its output pin.
    pub fn read_state(&self, level: Level) -> (r: LockState)
        ensures
            r == lock_state_of(level),
    {
        match level {
            Level::Low => LockState::Locked,
            Level::High => LockState::Unlocked,
        }
    }

    /// Puts the lock in `state` at time `now`. Within `DEBOUNCE_MS` of the
    /// last accepted change this fails with `LockBusy` and writes nothing.
    /// Otherwise it writes the state's level through `write`, and records
    /// `now` as the last change only when that write succeeds.
    pub fn set_state_at<E, F: FnOnce(Level) -> Result<(), E>>(
        &mut self,
        state: LockState,
        now: u64,
        write: F,
    ) -> (r: Result<(), LockError<E>>)
        requires
            write.requires((level_for(state),)),
        ensures
            !old(self).accepts(now) <==> r == Err::<(), LockError<E>>(LockError::Busy(LockBusy {})),
            old(self).accepts(now) ==> exists|w: Result<(), E>|
                {
                    &&& #[trigger] write.ensures((level_for(state),), w)
                    &&& (w is Ok <==> r is Ok)
                    &&& (forall|e: E| w == Err::<(), E>(e) ==> r == Err::<(), LockError<E>>(LockError::Io(e)))
                },
            r is Ok ==> write.ensures((level_for(state),), Ok::<(), E>(())),
            r is Ok ==> final(self).last_change_spec() == now,
            r is Err ==> final(self).last_change_spec() == old(self).last_change_spec(),
    {
        if now < DEBOUNCE_MS || now - DEBOUNCE_MS < self.last_change {
            return Err(LockError::Busy(LockBusy {}));
        }
        let w = write(state.level());
        match w {
            Ok(u) => {
                assert(w == Ok::<(), E>(u));
                self.last_change = now;
                Ok(())
            },
            Err(e) => Err(LockError::Io(e)),
        }
    }

    /// Puts the lock in `state` at the time of the system clock; a clock
    /// that stands before the epoch is within the debounce interval of
    /// every change.
    pub fn set_state<E, F: FnOnce(Level) -> Result<(), E>>(&mut self, state: LockState, write: F) -> (r:
        Result<(), LockError<E>>)
        requires
            write.requires((level_for(state),)),
        ensures
            r is Ok ==> !is_busy(old(self).last_change_spec(), final(self).last_change_spec()),
            r is Ok ==> write.ensures((level_for(state),), Ok::<(), E>(())),
            r is Err ==> final(self).last_change_spec() == old(self).last_change_spec(),
    {
        match now_millis() {
            Some(now) => self.set_state_at(state, now, write),
            None => Err(LockError::Busy(LockBusy {})),
        }
    }

    /// Flips the lock at time `now`, given the level just read from its
    /// output pin: writes the level of the other state, under the same
    /// debounce guard as `set_state_at`.
    pub fn toggle_at<E, F: FnOnce(Level) -> Result<(), E>>(
        &mut self,
        current: Level,
        now: u64,
        write: F,
    ) -> (r: Result<(), LockError<E>>)
        requires
            write.requires((level_for(flipped(lock_state_of(current))),)),
        ensures
            !old(self).accepts(now) <==> r == Err::<(), LockError<E>>(LockError::Busy(LockBusy {})),
            old(self).accepts(now) ==> exists|w: Result<(), E>|
                {
                    &&& #[trigger] write.ensures((level_for(flipped(lock_state_of(current))),), w)
                    &&& (w is Ok <==> r is Ok)
                    &&& (forall|e: E| w == Err::<(), E>(e) ==> r == Err::<(), LockError<E>>(LockError::Io(e)))
                },
            r is Ok ==> write.ensures((level_for(flipped(lock_state_of(current))),), Ok::<(), E>(())),
            r is Ok ==> final(self).last_change_spec() == now,
            r is Err ==> final(self).last_change_spec() == old(self).last_change_spec(),
    {
        let target = self.read_state(current).toggled();
        self.set_state_at(target, now, write)
    }

    /// Flips the lock at the time of the system clock.
    pub fn toggle<E, F: FnOnce(Level) -> Result<(), E>>(&mut self, current: Level, write: F) -> (r:
        Result<(), LockError<E>>)
        requires
            write.requires((level_for(flipped(lock_state_of(current))),)),
        ensures
            r is Ok ==> !is_busy(old(self).last_change_spec(), final(self).last_change_spec()),
            r is Ok ==> write.ensures((level_for(flipped(lock_state_of(current))),), Ok::<(), E>(())),
            r is Err ==> final(self).last_change_spec() == old(self).last_change_spec(),
    {
        match now_millis() {
            Some(now) => self.toggle_at(current, now, write),
            None => Err(LockError::Busy(LockBusy {})),
        }
    }

    /// Milliseconds since the Unix epoch of the last accepted change.
    pub fn last_change(&self) -> (r: u64)
        ensures
            r == self.last_change_spec(),
    {
        self.last_change
    }

    /// Whole seconds since the Unix epoch of the last accepted change.
    pub fn last_change_secs(&self) -> (r: u64)
        ensures
            r == self.last_change_spec() / 1000,
    {
        self.last_change / 1000
    }
}

} // verus!
