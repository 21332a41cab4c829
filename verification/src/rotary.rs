//! Step detection over a wrapping rotary-encoder count.
//!
//! The hardware exposes a monotonically wrapping counter. [`RotaryDelta`]
//! tracks the last observed count and turns a fresh reading into a signed
//! step event, with a dead band of one count: changes of magnitude at most
//! one are absorbed as mechanical jitter and, deliberately, never move the
//! tracked position.

use vstd::prelude::*;

use crate::ROTATION_DEAD_BAND;

verus! {

/// Outcome of one encoder reading.
///
/// A step event carries the raw count difference, not a normalized step:
/// several encoder ticks between two readings arrive as one event whose
/// magnitude is larger than one. Consumers are expected to take only the
/// direction from it.
#[derive(Clone, Copy, Debug, PartialEq, Eq, Structural)]
pub enum RotationEvent {
    /// The count moved by at most the dead band: no step detected.
    NoStep,
    /// The count grew by the carried difference, which exceeds the dead band.
    StepRight(i64),
    /// The count shrank by the carried difference, which is below the
    /// negated dead band.
    StepLeft(i64),
}

/// Tracks the last observed encoder count and derives step events.
pub struct RotaryDelta {
    last_observed: i32,
}

impl View for RotaryDelta {
    type V = int;

    closed spec fn view(&self) -> int {
        self.last_observed as int
    }
}

impl RotaryDelta {
    /// Starts tracking at the encoder reading taken at startup.
    pub fn new(initial_count: i32) -> (r: Self)
        ensures
            r@ == initial_count as int,
    {
        RotaryDelta { last_observed: initial_count }
    }

    /// The last observed count, the reference for the next difference.
    pub fn last_observed_count(&self) -> (c: i32)
        ensures
            c as int == self@,
    {
        self.last_observed
    }

    /// Compare a fresh count against the last observed one.
    ///
    /// With `diff` the difference between the two, a difference beyond the
    /// dead band emits a step event carrying the raw `diff` and moves the
    /// tracked position to `current_count`; a difference within the dead
    /// band emits nothing and leaves the tracked position untouched, so
    /// single-count jitter can never creep into a spurious step.
    pub fn update(&mut self, current_count: i32) -> (event: RotationEvent)
        ensures
            current_count - old(self)@ > ROTATION_DEAD_BAND ==> {
                &&& event == RotationEvent::StepRight((current_count - old(self)@) as i64)
                &&& final(self)@ == current_count as int
            },
            current_count - old(self)@ < -ROTATION_DEAD_BAND ==> {
                &&& event == RotationEvent::StepLeft((current_count - old(self)@) as i64)
                &&& final(self)@ == current_count as int
            },
            -ROTATION_DEAD_BAND <= current_count - old(self)@ <= ROTATION_DEAD_BAND ==> {
                &&& event == RotationEvent::NoStep
                &&& final(self)@ == old(self)@
            },
    {
        let diff: i64 = current_count as i64 - self.last_observed as i64;
        if diff > ROTATION_DEAD_BAND {
            self.last_observed = current_count;
            RotationEvent::StepRight(diff)
        } else if diff < -ROTATION_DEAD_BAND {
            self.last_observed = current_count;
            RotationEvent::StepLeft(diff)
        } else {
            RotationEvent::NoStep
        }
    }
}

} // verus!
