//! Shared plain types: time windows, monitor status and evaluation errors.

use vstd::prelude::*;

verus! {

/// Inclusive `[min, max]` duration window in milliseconds with the invariant
/// `min <= max`.
#[derive(Clone, Copy, Debug, PartialEq, Eq, Hash, Structural)]
pub struct TimeRange {
    /// Lower bound of the window, in milliseconds.
    pub min: u32,
    /// Upper bound of the window, in milliseconds.
    pub max: u32,
}

impl TimeRange {
    /// The window invariant: the lower bound never exceeds the upper bound.
    pub open spec fn wf(self) -> bool {
        self.min <= self.max
    }

    /// Builds a window from its bounds. A caller must never pass
    /// `min > max`: such a window is a programming error.
    pub fn new(min: u32, max: u32) -> (r: Self)
        requires
            min <= max,
        ensures
            r.min == min,
            r.max == max,
            r.wf(),
    {
        Self { min, max }
    }

    /// Builds a window from its bounds, rejecting `min > max`.
    pub fn try_new(min: u32, max: u32) -> (r: Option<Self>)
        ensures
            min <= max <==> r is Some,
            r matches Some(t) ==> t.min == min && t.max == max && t.wf(),
    {
        if min <= max {
            Some(Self { min, max })
        } else {
            None
        }
    }
}

/// A pair of duration bounds in milliseconds, without an ordering invariant.
#[derive(Clone, Copy, Debug, PartialEq, Eq, Structural)]
pub struct DurationRange {
    /// Lower bound, in milliseconds.
    pub min: u64,
    /// Upper bound, in milliseconds.
    pub max: u64,
}

impl DurationRange {
    /// Builds a range from its bounds.
    pub fn new(min: u64, max: u64) -> (r: Self)
        ensures
            r.min == min,
            r.max == max,
    {
        Self { min, max }
    }

    /// Builds a range from bounds given in milliseconds.
    pub fn from_millis(min_ms: u64, max_ms: u64) -> (r: Self)
        ensures
            r.min == min_ms,
            r.max == max_ms,
    {
        Self::new(min_ms, max_ms)
    }
}

/// Coarse state of a monitor as observed by the supervisor side.
#[derive(Clone, Copy, Debug, PartialEq, Eq, Structural)]
pub enum Status {
    /// The monitor is active and has observed no fault.
    Running,
    /// The monitor is administratively disabled.
    Disabled,
    /// The monitor has observed a fault.
    Failed,
    /// The monitor has been stopped.
    Stopped,
}

/// General monitor errors.
#[derive(Clone, Copy, Debug, PartialEq, Eq, Structural)]
pub enum Error {
    /// A provided parameter is invalid.
    BadParameter,
    /// The requested entry does not exist.
    DoesNotExist,
    /// The operation is not allowed in the current state.
    NotAllowed,
    /// Memory could not be obtained.
    OutOfMemory,
    /// Unspecified failure.
    Generic,
}

/// Observations surfaced to the worker when a monitor is evaluated.
#[derive(Clone, Copy, Debug, PartialEq, Eq, Hash, Structural)]
pub enum MonitorEvaluationError {
    /// A timed section or heartbeat finished before its window.
    TooEarly,
    /// A timed section or heartbeat missed its window.
    TooLate,
    /// More than one heartbeat was observed in a single cycle.
    MultipleHeartbeats,
    /// A logic monitor was asked for an unknown state.
    InvalidState,
    /// A logic monitor was asked for a transition that is not allowed.
    InvalidTransition,
}

/// Opaque allocator seam handed through `build` calls. Protected or tracked
/// memory is the embedder's concern; the core treats it as a unit value.
pub struct ProtectedMemoryAllocator {}

} // verus!
