use crate::hinge::hinge_state_of;
use crate::hinge::Hinge;
use crate::hinge::HingeState;
use crate::level::Level;
use crate::lock::is_busy;
use crate::lock::level_for;
use crate::lock::lock_state_of;
use crate::lock::Lock;
use crate::lock::LockBusy;
use crate::lock::LockError;
use crate::lock::LockState;
use vstd::prelude::*;

verus! {

/// HTTP status of a request that changed the lock, or had nothing to change.
pub const STATUS_NO_CONTENT: u16 = 204;

/// HTTP status of a change refused by the debounce guard.
pub const STATUS_TOO_MANY_REQUESTS: u16 = 429;

/// HTTP status of a change whose write to the output pin failed.
pub const STATUS_INTERNAL_ERROR: u16 = 500;

/// Where the API listens: the path it is mounted under and the port.
pub struct ServerSettings {
    pub mount_point: String,
    pub port: u16,
}

/// The body of `GET {prefix}/lock`.
#[derive(Clone, Copy, Debug, PartialEq, Eq, Structural)]
pub struct LockOutput {
    pub state: LockState,
    /// Whole seconds since the Unix epoch of the last accepted change.
    pub last_change: u64,
}

/// The body of `GET {prefix}/hinge`.
#[derive(Clone, Copy, Debug, PartialEq, Eq, Structural)]
pub struct HingeOutput {
    pub state: HingeState,
}

/// The status code that answers a request to change the lock.
pub open spec fn status_spec<E>(r: Result<(), LockError<E>>) -> u16 {
    match r {
        Ok(()) => STATUS_NO_CONTENT,
        Err(LockError::Busy(_)) => STATUS_TOO_MANY_REQUESTS,
        Err(LockError::Io(_)) => STATUS_INTERNAL_ERROR,
    }
}

/// The status code that answers a request to change the lock.
pub fn status_of<E>(r: &Result<(), LockError<E>>) -> (s: u16)
    ensures
        s == status_spec(*r),
{
    match r {
        Ok(()) => STATUS_NO_CONTENT,
        Err(LockError::Busy(_)) => STATUS_TOO_MANY_REQUESTS,
        Err(LockError::Io(_)) => STATUS_INTERNAL_ERROR,
    }
}

/// `PUT {prefix}/lock` at time `now`: puts the lock in the requested state,
/// and does nothing when the body names no state.
pub fn put_lock_at<E, F: FnOnce(Level) -> Result<(), E>>(
    lock: &mut Lock,
    state: Option<LockState>,
    now: u64,
    write: F,
) -> (r: Result<(), LockError<E>>)
    requires
        state is Some ==> write.requires((level_for(state->Some_0),)),
    ensures
        state is None ==> r is Ok && *final(lock) == *old(lock),
        state is Some ==> {
            &&& (is_busy(old(lock).last_change_spec(), now) <==> r == Err::<(), LockError<E>>(
                LockError::Busy(LockBusy {}),
            ))
            &&& (!is_busy(old(lock).last_change_spec(), now) ==> exists|w: Result<(), E>|
                {
                    &&& #[trigger] write.ensures((level_for(state->Some_0),), w)
                    &&& (w is Ok <==> r is Ok)
                    &&& (forall|e: E|
                        w == Err::<(), E>(e) ==> r == Err::<(), LockError<E>>(LockError::Io(e)))
                })
            &&& (r is Ok ==> write.ensures((level_for(state->Some_0),), Ok::<(), E>(())))
            &&& (r is Ok ==> final(lock).last_change_spec() == now)
            &&& (r is Err ==> final(lock).last_change_spec() == old(lock).last_change_spec())
        },
{
    match state {
        Some(s) => lock.set_state_at(s, now, write),
        None => Ok(()),
    }
}

/// `PUT {prefix}/lock` at the time of the system clock.
pub fn put_lock<E, F: FnOnce(Level) -> Result<(), E>>(
    lock: &mut Lock,
    state: Option<LockState>,
    write: F,
) -> (r: Result<(), LockError<E>>)
    requires
        state is Some ==> write.requires((level_for(state->Some_0),)),
    ensures
        state is None ==> r is Ok && *final(lock) == *old(lock),
        state is Some && r is Ok ==> !is_busy(
            old(lock).last_change_spec(),
            final(lock).last_change_spec(),
        ),
        state is Some && r is Ok ==> write.ensures((level_for(state->Some_0),), Ok::<(), E>(())),
        r is Err ==> final(lock).last_change_spec() == old(lock).last_change_spec(),
{
    match state {
        Some(s) => lock.set_state(s, write),
        None => Ok(()),
    }
}

/// The body of `GET {prefix}/lock`, given the level read from the lock's
/// output pin.
pub fn lock_output(lock: &Lock, level: Level) -> (r: LockOutput)
    ensures
        r.state == lock_state_of(level),
        r.last_change == lock.last_change_spec() / 1000,
{
    LockOutput { state: lock.read_state(level), last_change: lock.last_change_secs() }
}

/// The body of `GET {prefix}/hinge`, given the level read from the sensor's
/// input pin.
pub fn hinge_output(hinge: &Hinge, level: Level) -> (r: HingeOutput)
    ensures
        r.state == hinge_state_of(level),
{
    HingeOutput { state: hinge.read_state(level) }
}

} // verus!
