use crate::level::Level;
use vstd::prelude::*;

verus! {

/// Whether the door stands open, as the hinge sensor reports it.
#[derive(Clone, Copy, Debug, PartialEq, Eq, Structural)]
pub enum HingeState {
    Closed,
    Open,
}

/// What a read of the hinge input pin means: Low is Open, High is Closed.
/// This is the reverse of the lock's polarity, as the sensor is wired.
pub open spec fn hinge_state_of(level: Level) -> HingeState {
    match level {
        Level::Low => HingeState::Open,
        Level::High => HingeState::Closed,
    }
}

/// Reading the hinge's pin is a one-to-one map onto the door states: Low
/// reads as Open, High as Closed, and two levels read alike only when they
/// are the same level.
pub proof fn lemma_hinge_levels(a: Level, b: Level)
    ensures
        hinge_state_of(Level::Low) == HingeState::Open,
        hinge_state_of(Level::High) == HingeState::Closed,
        hinge_state_of(a) == hinge_state_of(b) <==> a == b,
{
}

/// The hinge sensor. It keeps no state: every read is a fresh sample of
/// its input pin.
pub struct Hinge {}

impl Hinge {
    pub fn new() -> (r: Hinge) {
        Hinge {  }
    }

    /// What the door is, given the level read from the sensor's input pin.
    pub fn read_state(&self, level: Level) -> (r: HingeState)
        ensures
            r == hinge_state_of(level),
    {
        match level {
            Level::Low => HingeState::Open,
            Level::High => HingeState::Closed,
        }
    }
}

} // verus!
