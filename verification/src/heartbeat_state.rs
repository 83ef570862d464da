//! Packed heartbeat state word.
//!
//! Layout of the `u64`:
//! `| cycle start timestamp: 32 bits | heartbeat timestamp offset: 29 bits | counter: 2 bits | post-init: 1 bit |`.
//! The counter saturates at 3; the post-init flag is false only before the
//! first successful cycle.

use vstd::prelude::*;

verus! {

pub const HEARTBEAT_START_MASK: u64 = 0xFFFFFFFF_00000000;

pub const HEARTBEAT_BEAT_MASK: u64 = 0x00000000_FFFFFFF8;

pub const HEARTBEAT_COUNT_MASK: u64 = 0x06;

pub const HEARTBEAT_POST_INIT_MASK: u64 = 0x01;

/// Mathematical reading of a packed heartbeat state word.
pub struct HeartbeatStateFields {
    /// Cycle start timestamp, in monitor-relative milliseconds.
    pub start_timestamp: u32,
    /// Offset of the last observed heartbeat from the cycle start, in
    /// milliseconds; at most 29 bits wide.
    pub heartbeat_timestamp_offset: u32,
    /// Number of heartbeats observed in the current cycle, saturating at 3.
    pub counter: u8,
    /// True once the first successful cycle has concluded.
    pub post_init: bool,
}

/// One packed heartbeat state word, read and written as a value.
#[derive(Clone, Copy, Debug)]
pub struct HeartbeatStateSnapshot {
    bits: u64,
}

impl HeartbeatStateSnapshot {
    /// The field-level reading of this snapshot.
    pub closed spec fn model(self) -> HeartbeatStateFields {
        Self::decode(self.bits)
    }

    /// The field-level reading of a raw word.
    pub open spec fn decode(val: u64) -> HeartbeatStateFields {
        HeartbeatStateFields {
            start_timestamp: (val >> 32) as u32,
            heartbeat_timestamp_offset: ((val & HEARTBEAT_BEAT_MASK) >> 3) as u32,
            counter: ((val & HEARTBEAT_COUNT_MASK) >> 1) as u8,
            post_init: (val & HEARTBEAT_POST_INIT_MASK) != 0,
        }
    }

    /// The fields of a fresh cycle beginning at `start_timestamp`:
    /// no heartbeat yet, counter zero, post-init set.
    pub open spec fn fresh_cycle_fields(start_timestamp: u32) -> HeartbeatStateFields {
        HeartbeatStateFields {
            start_timestamp,
            heartbeat_timestamp_offset: 0,
            counter: 0,
            post_init: true,
        }
    }

    /// Create a new snapshot for a cycle with a known starting point; the
    /// post-init flag is implicitly set.
    pub fn new(start_timestamp: u32) -> (r: Self)
        ensures
            r.model() == Self::fresh_cycle_fields(start_timestamp),
    {
        proof {
            let t = start_timestamp;
            assert({
                let n = ((t as u64) << 32) | HEARTBEAT_POST_INIT_MASK;
                &&& (n >> 32) as u32 == t
                &&& ((n & HEARTBEAT_BEAT_MASK) >> 3) as u32 == 0u32
                &&& ((n & HEARTBEAT_COUNT_MASK) >> 1) as u8 == 0u8
                &&& (n & HEARTBEAT_POST_INIT_MASK) != 0
            }) by (bit_vector);
        }
        Self { bits: ((start_timestamp as u64) << 32) | HEARTBEAT_POST_INIT_MASK }
    }

    /// Return the underlying data.
    pub fn as_u64(&self) -> (r: u64)
        ensures
            Self::decode(r) == self.model(),
    {
        self.bits
    }

    /// Cycle start timestamp.
    pub fn start_timestamp(&self) -> (r: u32)
        ensures
            r == self.model().start_timestamp,
    {
        proof {
            let b = self.bits;
            assert(((b & HEARTBEAT_START_MASK) >> 32) as u32 == (b >> 32) as u32)
                by (bit_vector);
        }
        ((self.bits & HEARTBEAT_START_MASK) >> 32) as u32
    }

    /// Set cycle start timestamp, leaving the other fields unchanged.
    pub fn set_start_timestamp(&mut self, value: u32)
        ensures
            final(self).model() == (HeartbeatStateFields {
                start_timestamp: value,
                ..old(self).model()
            }),
    {
        proof {
            let b = self.bits;
            let t = value;
            assert({
                let n = ((t as u64) << 32) | (b & !HEARTBEAT_START_MASK);
                &&& (n >> 32) as u32 == t
                &&& (n & HEARTBEAT_BEAT_MASK) == (b & HEARTBEAT_BEAT_MASK)
                &&& (n & HEARTBEAT_COUNT_MASK) == (b & HEARTBEAT_COUNT_MASK)
                &&& (n & HEARTBEAT_POST_INIT_MASK) == (b & HEARTBEAT_POST_INIT_MASK)
            }) by (bit_vector);
        }
        self.bits = ((value as u64) << 32) | (self.bits & !HEARTBEAT_START_MASK);
    }

    /// Heartbeat timestamp offset from the cycle start.
    pub fn heartbeat_timestamp_offset(&self) -> (r: u32)
        ensures
            r == self.model().heartbeat_timestamp_offset,
    {
        ((self.bits & HEARTBEAT_BEAT_MASK) >> 3) as u32
    }

    /// Set the heartbeat timestamp offset. The value is 29 bits wide, so a
    /// caller must keep it below `0x2000_0000`.
    pub fn set_heartbeat_timestamp_offset(&mut self, value: u32)
        requires
            value < 0x2000_0000,
        ensures
            final(self).model() == (HeartbeatStateFields {
                heartbeat_timestamp_offset: value,
                ..old(self).model()
            }),
    {
        proof {
            let b = self.bits;
            let t = value;
            assert(t < 0x2000_0000u32 ==> {
                let n = ((t as u64) << 3) | (b & !HEARTBEAT_BEAT_MASK);
                &&& ((n & HEARTBEAT_BEAT_MASK) >> 3) as u32 == t
                &&& (n >> 32) as u32 == (b >> 32) as u32
                &&& (n & HEARTBEAT_COUNT_MASK) == (b & HEARTBEAT_COUNT_MASK)
                &&& (n & HEARTBEAT_POST_INIT_MASK) == (b & HEARTBEAT_POST_INIT_MASK)
            }) by (bit_vector);
        }
        self.bits = ((value as u64) << 3) | (self.bits & !HEARTBEAT_BEAT_MASK);
    }

    /// Heartbeat counter; at most 3.
    pub fn counter(&self) -> (r: u8)
        ensures
            r == self.model().counter,
            r <= 3,
    {
        proof {
            let b = self.bits;
            assert(((b & HEARTBEAT_COUNT_MASK) >> 1) as u8 <= 3u8) by (bit_vector);
        }
        ((self.bits & HEARTBEAT_COUNT_MASK) >> 1) as u8
    }

    /// Increment the heartbeat counter, saturating at 3; the other fields
    /// are left unchanged.
    pub fn increment_counter(&mut self)
        ensures
            final(self).model() == (HeartbeatStateFields {
                counter: if old(self).model().counter < 3 {
                    (old(self).model().counter + 1) as u8
                } else {
                    3
                },
                ..old(self).model()
            }),
    {
        let current = self.counter();
        let value: u8 = if current < 3 {
            current + 1
        } else {
            3
        };
        proof {
            let b = self.bits;
            let v = value;
            assert(v <= 3u8 ==> {
                let n = ((v as u64) << 1) | (b & !HEARTBEAT_COUNT_MASK);
                &&& ((n & HEARTBEAT_COUNT_MASK) >> 1) as u8 == v
                &&& (n >> 32) as u32 == (b >> 32) as u32
                &&& (n & HEARTBEAT_BEAT_MASK) == (b & HEARTBEAT_BEAT_MASK)
                &&& (n & HEARTBEAT_POST_INIT_MASK) == (b & HEARTBEAT_POST_INIT_MASK)
            }) by (bit_vector);
        }
        self.bits = ((value as u64) << 1) | (self.bits & !HEARTBEAT_COUNT_MASK);
    }

    /// Post-init state; false only before the first successful cycle.
    pub fn post_init(&self) -> (r: bool)
        ensures
            r == self.model().post_init,
    {
        (self.bits & HEARTBEAT_POST_INIT_MASK) != 0
    }

    /// Set the post-init state, leaving the other fields unchanged.
    pub fn set_post_init(&mut self, value: bool)
        ensures
            final(self).model() == (HeartbeatStateFields {
                post_init: value,
                ..old(self).model()
            }),
    {
        let flag: u64 = if value {
            1
        } else {
            0
        };
        proof {
            let b = self.bits;
            let v = flag;
            assert(v <= 1u64 ==> {
                let n = v | (b & !HEARTBEAT_POST_INIT_MASK);
                &&& ((n & HEARTBEAT_POST_INIT_MASK) != 0) == (v == 1u64)
                &&& (n >> 32) as u32 == (b >> 32) as u32
                &&& (n & HEARTBEAT_BEAT_MASK) == (b & HEARTBEAT_BEAT_MASK)
                &&& (n & HEARTBEAT_COUNT_MASK) == (b & HEARTBEAT_COUNT_MASK)
            }) by (bit_vector);
        }
        self.bits = flag | (self.bits & !HEARTBEAT_POST_INIT_MASK);
    }

    /// The counter never exceeds 3 and the beat offset always fits 29 bits.
    pub proof fn lemma_model_bounds(self)
        ensures
            self.model().counter <= 3,
            self.model().heartbeat_timestamp_offset < 0x2000_0000,
    {
        let b = self.bits;
        assert(((b & HEARTBEAT_COUNT_MASK) >> 1) as u8 <= 3u8) by (bit_vector);
        assert((((b & HEARTBEAT_BEAT_MASK) >> 3) as u32) < 0x2000_0000u32) by (bit_vector);
    }
}

impl Default for HeartbeatStateSnapshot {
    /// The all-zero word: no cycle start, no beat, counter zero, pre-init.
    fn default() -> (r: Self)
        ensures
            r.model() == (HeartbeatStateFields {
                start_timestamp: 0,
                heartbeat_timestamp_offset: 0,
                counter: 0,
                post_init: false,
            }),
    {
        proof {
            assert({
                let n = 0u64;
                &&& (n >> 32) as u32 == 0u32
                &&& ((n & HEARTBEAT_BEAT_MASK) >> 3) as u32 == 0u32
                &&& ((n & HEARTBEAT_COUNT_MASK) >> 1) as u8 == 0u8
                &&& (n & HEARTBEAT_POST_INIT_MASK) == 0u64
            }) by (bit_vector);
        }
        Self { bits: 0 }
    }
}

impl From<u64> for HeartbeatStateSnapshot {
    /// Wraps a raw state word.
    fn from(value: u64) -> (r: Self)
        ensures
            r.model() == HeartbeatStateSnapshot::decode(value),
    {
        Self { bits: value }
    }
}

impl vstd::std_specs::convert::FromSpecImpl<u64> for HeartbeatStateSnapshot {
    open spec fn obeys_from_spec() -> bool {
        true
    }

    closed spec fn from_spec(t: u64) -> Self {
        Self { bits: t }
    }
}

/// Holder of the current heartbeat state word. In the concurrent embedding
/// this word lives in a single atomic cell; the holder captures the value
/// semantics of that cell.
pub struct HeartbeatState {
    current: HeartbeatStateSnapshot,
}

impl HeartbeatState {
    /// The current snapshot, as a spec-level value.
    pub closed spec fn spec_snapshot(self) -> HeartbeatStateSnapshot {
        self.current
    }

    /// Creates a new state holding the provided snapshot.
    pub fn new(snapshot: HeartbeatStateSnapshot) -> (r: Self)
        ensures
            r.spec_snapshot() == snapshot,
    {
        Self { current: snapshot }
    }

    /// Returns a snapshot of the current heartbeat state.
    pub fn snapshot(&self) -> (r: HeartbeatStateSnapshot)
        ensures
            r == self.spec_snapshot(),
    {
        self.current
    }

    /// Updates the state through the provided function. The function receives
    /// the current snapshot and returns the new snapshot, or `None` to leave
    /// the state unchanged. Either way the previous snapshot is handed back:
    /// `Ok` when the state was replaced, `Err` when it was left as it was.
    pub fn update<F: Fn(HeartbeatStateSnapshot) -> Option<HeartbeatStateSnapshot>>(
        &mut self,
        f: F,
    ) -> (r: Result<HeartbeatStateSnapshot, HeartbeatStateSnapshot>)
        requires
            call_requires(f, (old(self).spec_snapshot(),)),
        ensures
            match r {
                Ok(prev) => prev == old(self).spec_snapshot() && call_ensures(
                    f,
                    (prev,),
                    Some(final(self).spec_snapshot()),
                ),
                Err(prev) => prev == old(self).spec_snapshot() && *final(self) == *old(self)
                    && call_ensures(f, (prev,), None::<HeartbeatStateSnapshot>),
            },
    {
        let prev = self.current;
        match f(prev) {
            Some(next) => {
                self.current = next;
                Ok(prev)
            },
            None => Err(prev),
        }
    }
}

} // verus!
