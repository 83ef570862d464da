//! Packed per-deadline state word.
//!
//! Each registered deadline owns one `u64` state word:
//! `| timestamp_ms: 32 bits | reserved: 28 bits | underrun: 1 | reserved: 1 | running: 1 | stopped: 1 |`.
//! The transition graph is `stopped -> running -> stopped | underrun`;
//! `underrun` is a latched terminal observation.

use vstd::prelude::*;

verus! {

pub const DEADLINE_STATE_MASK: u64 = 0x0F;

pub const DEADLINE_STATE_RUNNING: u64 = 0x02;

pub const DEADLINE_STATE_STOPPED: u64 = 0x01;

pub const DEADLINE_STATE_FINISHED_TOO_EARLY: u64 = 0x08;

/// Mathematical reading of a packed deadline state word.
pub struct DeadlineStateFields {
    /// The timed section is running.
    pub running: bool,
    /// Base flag of the initial state; never cleared by the packed layout.
    pub stopped: bool,
    /// The timed section finished before its window; latched.
    pub underrun: bool,
    /// For a running deadline, the absolute monitor-relative millisecond at
    /// which expiry occurs.
    pub timestamp_ms: u32,
}

/// One packed deadline state word, read and written as a value.
#[derive(Clone, Copy, Debug)]
pub struct DeadlineStateSnapshot {
    bits: u64,
}

impl DeadlineStateSnapshot {
    /// The field-level reading of this snapshot.
    pub closed spec fn model(self) -> DeadlineStateFields {
        DeadlineStateFields {
            running: (self.bits & DEADLINE_STATE_RUNNING) != 0,
            stopped: (self.bits & DEADLINE_STATE_STOPPED) != 0,
            underrun: (self.bits & DEADLINE_STATE_FINISHED_TOO_EARLY) != 0,
            timestamp_ms: (self.bits >> 32) as u32,
        }
    }

    /// The field-level reading of a raw word.
    pub open spec fn decode(val: u64) -> DeadlineStateFields {
        DeadlineStateFields {
            running: (val & DEADLINE_STATE_RUNNING) != 0,
            stopped: (val & DEADLINE_STATE_STOPPED) != 0,
            underrun: (val & DEADLINE_STATE_FINISHED_TOO_EARLY) != 0,
            timestamp_ms: (val >> 32) as u32,
        }
    }

    /// Wraps a raw state word.
    pub fn new(val: u64) -> (r: Self)
        ensures
            r.model() == Self::decode(val),
    {
        Self { bits: val }
    }

    /// The raw state word.
    pub fn as_u64(&self) -> (r: u64)
        ensures
            Self::decode(r) == self.model(),
    {
        self.bits
    }

    /// Whether the timed section is running.
    pub fn is_running(&self) -> (r: bool)
        ensures
            r == self.model().running,
    {
        (self.bits & DEADLINE_STATE_RUNNING) != 0
    }

    /// Whether the base `stopped` flag is set.
    pub fn is_stopped(&self) -> (r: bool)
        ensures
            r == self.model().stopped,
    {
        (self.bits & DEADLINE_STATE_STOPPED) != 0
    }

    /// Whether a too-early finish has been latched.
    pub fn is_underrun(&self) -> (r: bool)
        ensures
            r == self.model().underrun,
    {
        (self.bits & DEADLINE_STATE_FINISHED_TOO_EARLY) != 0
    }

    /// The expiry timestamp in milliseconds, relative to the monitor's
    /// starting instant.
    pub fn timestamp_ms(&self) -> (r: u32)
        ensures
            r == self.model().timestamp_ms,
    {
        proof {
            let b = self.bits;
            assert(((b & !DEADLINE_STATE_MASK) >> 32) as u32 == (b >> 32) as u32)
                by (bit_vector);
        }
        ((self.bits & !DEADLINE_STATE_MASK) >> 32) as u32
    }

    /// Stores an expiry timestamp, leaving the flag bits unchanged.
    pub fn set_timestamp_ms(&mut self, timestamp: u32)
        ensures
            final(self).model() == (DeadlineStateFields {
                timestamp_ms: timestamp,
                ..old(self).model()
            }),
    {
        proof {
            let b = self.bits;
            let t = timestamp;
            assert({
                let n = ((t as u64) << 32) | (b & DEADLINE_STATE_MASK);
                &&& (n >> 32) as u32 == t
                &&& (n & DEADLINE_STATE_RUNNING) == (b & DEADLINE_STATE_RUNNING)
                &&& (n & DEADLINE_STATE_STOPPED) == (b & DEADLINE_STATE_STOPPED)
                &&& (n & DEADLINE_STATE_FINISHED_TOO_EARLY) == (b
                    & DEADLINE_STATE_FINISHED_TOO_EARLY)
            }) by (bit_vector);
        }
        self.bits = ((timestamp as u64) << 32) | (self.bits & DEADLINE_STATE_MASK);
    }

    /// Marks the deadline as running, leaving the other fields unchanged.
    pub fn set_running(&mut self)
        ensures
            final(self).model() == (DeadlineStateFields { running: true, ..old(self).model() }),
    {
        proof {
            let b = self.bits;
            assert({
                let n = b | DEADLINE_STATE_RUNNING;
                &&& (n & DEADLINE_STATE_RUNNING) != 0
                &&& (n & DEADLINE_STATE_STOPPED) == (b & DEADLINE_STATE_STOPPED)
                &&& (n & DEADLINE_STATE_FINISHED_TOO_EARLY) == (b
                    & DEADLINE_STATE_FINISHED_TOO_EARLY)
                &&& (n >> 32) as u32 == (b >> 32) as u32
            }) by (bit_vector);
        }
        self.bits = self.bits | DEADLINE_STATE_RUNNING;
    }

    /// Latches a too-early finish, leaving the other fields unchanged.
    pub fn set_underrun(&mut self)
        ensures
            final(self).model() == (DeadlineStateFields { underrun: true, ..old(self).model() }),
    {
        proof {
            let b = self.bits;
            assert({
                let n = b | DEADLINE_STATE_FINISHED_TOO_EARLY;
                &&& (n & DEADLINE_STATE_FINISHED_TOO_EARLY) != 0
                &&& (n & DEADLINE_STATE_STOPPED) == (b & DEADLINE_STATE_STOPPED)
                &&& (n & DEADLINE_STATE_RUNNING) == (b & DEADLINE_STATE_RUNNING)
                &&& (n >> 32) as u32 == (b >> 32) as u32
            }) by (bit_vector);
        }
        self.bits = self.bits | DEADLINE_STATE_FINISHED_TOO_EARLY;
    }
}

/// The clean initial state: only the `stopped` flag is set.
pub open spec fn initial_deadline_fields() -> DeadlineStateFields {
    DeadlineStateFields { running: false, stopped: true, underrun: false, timestamp_ms: 0 }
}

impl Default for DeadlineStateSnapshot {
    /// The initial state word: stopped, nothing latched, timestamp zero.
    fn default() -> (r: Self)
        ensures
            r.model() == initial_deadline_fields(),
    {
        proof {
            assert({
                &&& (DEADLINE_STATE_STOPPED & DEADLINE_STATE_RUNNING) == 0u64
                &&& (DEADLINE_STATE_STOPPED & DEADLINE_STATE_STOPPED) != 0u64
                &&& (DEADLINE_STATE_STOPPED & DEADLINE_STATE_FINISHED_TOO_EARLY) == 0u64
                &&& (DEADLINE_STATE_STOPPED >> 32) as u32 == 0u32
            }) by (bit_vector);
        }
        Self { bits: DEADLINE_STATE_STOPPED }
    }
}

/// Holder of the current state word of one deadline. In the concurrent
/// embedding this word lives in a single atomic cell; the holder captures the
/// value semantics of that cell.
pub struct DeadlineState {
    current: DeadlineStateSnapshot,
}

impl DeadlineState {
    /// The current snapshot, as a spec-level value.
    pub closed spec fn spec_snapshot(self) -> DeadlineStateSnapshot {
        self.current
    }

    /// Creates a new state in the initial stopped configuration.
    pub fn new() -> (r: Self)
        ensures
            r.spec_snapshot().model() == initial_deadline_fields(),
    {
        Self { current: DeadlineStateSnapshot::default() }
    }

    /// Creates a state holding the provided snapshot.
    pub fn from_snapshot(snapshot: DeadlineStateSnapshot) -> (r: Self)
        ensures
            r.spec_snapshot() == snapshot,
    {
        Self { current: snapshot }
    }

    /// Returns a snapshot of the current deadline state.
    pub fn snapshot(&self) -> (r: DeadlineStateSnapshot)
        ensures
            r == self.spec_snapshot(),
    {
        self.current
    }

    /// Updates the state through the provided function. The function receives
    /// the current snapshot and returns the new snapshot, or `None` to leave
    /// the state unchanged. Either way the previous snapshot is handed back:
    /// `Ok` when the state was replaced, `Err` when it was left as it was.
    pub fn update<F: Fn(DeadlineStateSnapshot) -> Option<DeadlineStateSnapshot>>(
        &mut self,
        f: F,
    ) -> (r: Result<DeadlineStateSnapshot, DeadlineStateSnapshot>)
        requires
            call_requires(f, (old(self).spec_snapshot(),)),
        ensures
            match r {
                Ok(prev) => prev == old(self).spec_snapshot() && call_ensures(
                    f,
                    (prev,),
                    Some(final(self).spec_snapshot()),
                ),
                Err(prev) => prev == old(self).spec_snapshot() && *final(self) == *old(self)
                    && call_ensures(f, (prev,), None::<DeadlineStateSnapshot>),
            },
    {
        let prev = self.current;
        match f(prev) {
            Some(next) => {
                self.current = next;
                Ok(prev)
            },
            None => Err(prev),
        }
    }
}

} // verus!
