//! Heartbeat monitor: accepts beats from the observed thread and evaluates
//! one-beat-per-cycle windows.
//!
//! The monitor tracks at most one heartbeat per supervisor cycle in a single
//! packed state word. Beats are stamped in monitor-relative milliseconds;
//! evaluation receives the health monitor's time base as an offset into the
//! monitor's own.

use vstd::prelude::*;

use crate::common::{MonitorEvaluationError, ProtectedMemoryAllocator, TimeRange};
use crate::heartbeat_state::{HeartbeatStateFields, HeartbeatStateSnapshot};
use crate::tag::MonitorTag;
use crate::HealthMonitorError;

verus! {

/// Heartbeat evaluation errors.
#[derive(Clone, Copy, Debug, PartialEq, Eq, Hash, Structural)]
pub enum HeartbeatEvaluationError {
    /// The beat arrived before the window opened.
    TooEarly,
    /// The beat arrived after the window closed, or never arrived.
    TooLate,
    /// More than one beat was observed in a single cycle.
    MultipleHeartbeats,
}

impl HeartbeatEvaluationError {
    /// The observation as surfaced to the worker.
    pub fn to_monitor_error(self) -> (r: MonitorEvaluationError)
        ensures
            r == match self {
                HeartbeatEvaluationError::TooEarly => MonitorEvaluationError::TooEarly,
                HeartbeatEvaluationError::TooLate => MonitorEvaluationError::TooLate,
                HeartbeatEvaluationError::MultipleHeartbeats
                    => MonitorEvaluationError::MultipleHeartbeats,
            },
    {
        match self {
            HeartbeatEvaluationError::TooEarly => MonitorEvaluationError::TooEarly,
            HeartbeatEvaluationError::TooLate => MonitorEvaluationError::TooLate,
            HeartbeatEvaluationError::MultipleHeartbeats
                => MonitorEvaluationError::MultipleHeartbeats,
        }
    }
}

/// Start of the window the state `s` is measured against. Before the first
/// successful cycle the window opens at the health monitor's starting point
/// (`offset`, in monitor-relative milliseconds); afterwards it opens at the
/// recorded cycle start.
pub open spec fn hb_window_start(s: HeartbeatStateFields, offset: u32) -> int {
    if s.post_init {
        s.start_timestamp as int
    } else {
        offset as int
    }
}

/// Absolute time of the recorded beat. Before the first successful cycle the
/// beat offset was taken from the monitor's own zero point.
pub open spec fn hb_beat_time(s: HeartbeatStateFields, offset: u32) -> int {
    if s.post_init {
        s.start_timestamp + s.heartbeat_timestamp_offset
    } else {
        s.heartbeat_timestamp_offset as int
    }
}

/// The decision table applied by one evaluation of state `s` at time `now`:
/// more than one beat in the cycle is a fault; no beat is silent until the
/// window has closed and a fault afterwards; a single beat is measured
/// against the window `[start + min, start + max]`.
pub open spec fn hb_eval_error(
    s: HeartbeatStateFields,
    range: TimeRange,
    offset: u32,
    now: u32,
) -> Option<HeartbeatEvaluationError> {
    let start = hb_window_start(s, offset);
    let beat = hb_beat_time(s, offset);
    if s.counter > 1 {
        Some(HeartbeatEvaluationError::MultipleHeartbeats)
    } else if s.counter == 0 {
        if now > start + range.max {
            Some(HeartbeatEvaluationError::TooLate)
        } else {
            None
        }
    } else if beat < start + range.min {
        Some(HeartbeatEvaluationError::TooEarly)
    } else if beat > start + range.max {
        Some(HeartbeatEvaluationError::TooLate)
    } else {
        None
    }
}

/// The state left behind by one evaluation: a single beat inside the window
/// begins a fresh cycle at the observed beat; every other outcome leaves the
/// state untouched.
pub open spec fn hb_eval_next(
    s: HeartbeatStateFields,
    range: TimeRange,
    offset: u32,
    now: u32,
) -> HeartbeatStateFields {
    let start = hb_window_start(s, offset);
    let beat = hb_beat_time(s, offset);
    if s.counter == 1 && start + range.min <= beat <= start + range.max {
        HeartbeatStateSnapshot::fresh_cycle_fields(beat as u32)
    } else {
        s
    }
}

/// The state after one beat at time `now`: the beat offset is stamped
/// relative to the cycle start and the counter is incremented, saturating
/// at 3.
pub open spec fn hb_beat_fields(s: HeartbeatStateFields, now: u32) -> HeartbeatStateFields
    recommends
        now >= s.start_timestamp,
        now - s.start_timestamp < 0x2000_0000,
{
    HeartbeatStateFields {
        heartbeat_timestamp_offset: (now - s.start_timestamp) as u32,
        counter: if s.counter < 3 {
            (s.counter + 1) as u8
        } else {
            3
        },
        ..s
    }
}

/// Builder for [`HeartbeatMonitor`].
#[derive(Clone, Copy, Debug)]
pub struct HeartbeatMonitorBuilder {
    range: TimeRange,
}

impl HeartbeatMonitorBuilder {
    /// The configured window between heartbeats.
    pub closed spec fn spec_range(self) -> TimeRange {
        self.range
    }

    /// Create a new builder for a monitor allowing `range` between beats.
    pub fn new(range: TimeRange) -> (r: Self)
        requires
            range.wf(),
        ensures
            r.spec_range() == range,
    {
        Self { range }
    }

    /// Build the [`HeartbeatMonitor`].
    ///
    /// The configuration is rejected with `InvalidArgument` unless two
    /// shortest allowed cycles exceed one internal processing cycle
    /// (`2 * min > internal_processing_cycle`); otherwise evaluation could
    /// not tell beats of adjacent cycles apart.
    pub fn build(
        self,
        monitor_tag: MonitorTag,
        internal_processing_cycle_ms: u32,
        _allocator: &ProtectedMemoryAllocator,
    ) -> (r: Result<HeartbeatMonitor, HealthMonitorError>)
        requires
            self.spec_range().wf(),
        ensures
            r is Ok <==> 2 * self.spec_range().min > internal_processing_cycle_ms,
            r is Err ==> r == Err::<HeartbeatMonitor, HealthMonitorError>(
                HealthMonitorError::InvalidArgument,
            ),
            r matches Ok(m) ==> {
                &&& m.wf()
                &&& m.spec_tag() == monitor_tag@
                &&& m.spec_range() == self.spec_range()
                &&& m.spec_state() == (HeartbeatStateFields {
                    start_timestamp: 0,
                    heartbeat_timestamp_offset: 0,
                    counter: 0,
                    post_init: false,
                })
            },
    {
        let range_min_ms = self.range.min as u64;
        let cycle_ms = internal_processing_cycle_ms as u64;
        if range_min_ms * 2 <= cycle_ms {
            return Err(HealthMonitorError::InvalidArgument);
        }
        Ok(
            HeartbeatMonitor {
                monitor_tag,
                range: self.range,
                state: HeartbeatStateSnapshot::default(),
            },
        )
    }
}

/// Heartbeat monitor: one packed state word driven by the beating thread and
/// inspected by the worker.
pub struct HeartbeatMonitor {
    monitor_tag: MonitorTag,
    range: TimeRange,
    state: HeartbeatStateSnapshot,
}

impl HeartbeatMonitor {
    /// Tag content of this monitor.
    pub closed spec fn spec_tag(self) -> Seq<char> {
        self.monitor_tag@
    }

    /// The allowed window between heartbeats.
    pub closed spec fn spec_range(self) -> TimeRange {
        self.range
    }

    /// Field-level reading of the current state word.
    pub closed spec fn spec_state(self) -> HeartbeatStateFields {
        self.state.model()
    }

    /// Well-formedness: the window is well formed; before the first
    /// successful cycle the cycle start is the monitor's zero point; after
    /// it, the recorded beat time fits the monitor's 32-bit time base.
    pub open spec fn wf(self) -> bool {
        &&& self.spec_range().wf()
        &&& self.spec_state().post_init ==> self.spec_state().start_timestamp
            + self.spec_state().heartbeat_timestamp_offset <= u32::MAX
        &&& !self.spec_state().post_init ==> self.spec_state().start_timestamp == 0
    }

    /// The allowed window between heartbeats.
    pub fn range(&self) -> (r: TimeRange)
        ensures
            r == self.spec_range(),
    {
        self.range
    }

    /// Snapshot of the current packed state.
    pub fn snapshot(&self) -> (r: HeartbeatStateSnapshot)
        ensures
            r.model() == self.spec_state(),
    {
        self.state
    }

    /// Provide a heartbeat at monitor-relative time `now_ms`.
    ///
    /// Time must not run backwards past the recorded cycle start, and at
    /// most `0x2000_0000` milliseconds (about six days) may pass between
    /// cycle start and beat: the packed offset field is 29 bits wide.
    pub fn heartbeat(&mut self, now_ms: u32)
        requires
            old(self).wf(),
            now_ms >= old(self).spec_state().start_timestamp,
            now_ms - old(self).spec_state().start_timestamp < 0x2000_0000,
        ensures
            final(self).wf(),
            final(self).spec_tag() == old(self).spec_tag(),
            final(self).spec_range() == old(self).spec_range(),
            final(self).spec_state() == hb_beat_fields(old(self).spec_state(), now_ms),
    {
        let start_ts = self.state.start_timestamp();
        let mut snap = self.state;
        snap.set_heartbeat_timestamp_offset(now_ms - start_ts);
        snap.increment_counter();
        self.state = snap;
    }

    /// Evaluate the monitor.
    ///
    /// `offset_ms` is the health monitor's starting point and `now_ms` the
    /// current time, both in this monitor's milliseconds. Returns the
    /// observation of the decision table, if any; a single in-window beat
    /// silently begins the next cycle at the observed beat.
    pub fn evaluate(&mut self, offset_ms: u32, now_ms: u32) -> (r: Option<
        HeartbeatEvaluationError,
    >)
        requires
            old(self).wf(),
            offset_ms <= now_ms,
        ensures
            final(self).wf(),
            final(self).spec_tag() == old(self).spec_tag(),
            final(self).spec_range() == old(self).spec_range(),
            r == hb_eval_error(old(self).spec_state(), old(self).spec_range(), offset_ms, now_ms),
            final(self).spec_state() == hb_eval_next(
                old(self).spec_state(),
                old(self).spec_range(),
                offset_ms,
                now_ms,
            ),
    {
        let snap = self.state;
        let post_init = snap.post_init();
        let start_timestamp: u64 = if post_init {
            snap.start_timestamp() as u64
        } else {
            offset_ms as u64
        };
        let heartbeat_timestamp: u64 = if post_init {
            snap.start_timestamp() as u64 + snap.heartbeat_timestamp_offset() as u64
        } else {
            snap.heartbeat_timestamp_offset() as u64
        };
        let range_min = self.range.min as u64 + start_timestamp;
        let range_max = self.range.max as u64 + start_timestamp;

        let counter = snap.counter();
        if counter > 1 {
            return Some(HeartbeatEvaluationError::MultipleHeartbeats);
        } else if counter == 0 {
            if now_ms as u64 > range_max {
                return Some(HeartbeatEvaluationError::TooLate);
            }
            return None;
        }

        if heartbeat_timestamp < range_min {
            Some(HeartbeatEvaluationError::TooEarly)
        } else if heartbeat_timestamp > range_max {
            Some(HeartbeatEvaluationError::TooLate)
        } else {
            self.state = HeartbeatStateSnapshot::new(heartbeat_timestamp as u32);
            None
        }
    }
}

/// A beat spaced inside `[min, max]` from the cycle start is silent: the
/// evaluation reports nothing and begins a fresh cycle at the observed beat.
pub proof fn lemma_heartbeat_in_window_silent(
    range: TimeRange,
    t0: u32,
    d: u32,
    offset: u32,
    now: u32,
)
    requires
        range.wf(),
        t0 + d <= u32::MAX,
        d < 0x2000_0000,
        range.min <= d <= range.max,
    ensures
        ({
            let s = hb_beat_fields(HeartbeatStateSnapshot::fresh_cycle_fields(t0), (t0 + d) as u32);
            &&& hb_eval_error(s, range, offset, now) is None
            &&& hb_eval_next(s, range, offset, now)
                == HeartbeatStateSnapshot::fresh_cycle_fields((t0 + d) as u32)
        }),
{
}

/// A beat spaced closer than `min` from the cycle start is reported as
/// `TooEarly`, and the cycle is not advanced.
pub proof fn lemma_heartbeat_too_early(range: TimeRange, t0: u32, d: u32, offset: u32, now: u32)
    requires
        range.wf(),
        t0 + d <= u32::MAX,
        d < 0x2000_0000,
        d < range.min,
    ensures
        ({
            let s = hb_beat_fields(HeartbeatStateSnapshot::fresh_cycle_fields(t0), (t0 + d) as u32);
            &&& hb_eval_error(s, range, offset, now) == Some(HeartbeatEvaluationError::TooEarly)
            &&& hb_eval_next(s, range, offset, now) == s
        }),
{
}

/// A beat spaced further than `max` from the cycle start is reported as
/// `TooLate`, and the cycle is not advanced.
pub proof fn lemma_heartbeat_too_late(range: TimeRange, t0: u32, d: u32, offset: u32, now: u32)
    requires
        range.wf(),
        t0 + d <= u32::MAX,
        d < 0x2000_0000,
        d > range.max,
    ensures
        ({
            let s = hb_beat_fields(HeartbeatStateSnapshot::fresh_cycle_fields(t0), (t0 + d) as u32);
            &&& hb_eval_error(s, range, offset, now) == Some(HeartbeatEvaluationError::TooLate)
            &&& hb_eval_next(s, range, offset, now) == s
        }),
{
}

/// Two beats inside one cycle are reported as `MultipleHeartbeats`,
/// wherever they fall, and the cycle is not advanced.
pub proof fn lemma_heartbeat_multiple_beats(
    range: TimeRange,
    t0: u32,
    t1: u32,
    t2: u32,
    offset: u32,
    now: u32,
)
    requires
        range.wf(),
        t0 <= t1 <= t2,
        t2 - t0 < 0x2000_0000,
    ensures
        ({
            let s = hb_beat_fields(
                hb_beat_fields(HeartbeatStateSnapshot::fresh_cycle_fields(t0), t1),
                t2,
            );
            &&& s.counter == 2
            &&& hb_eval_error(s, range, offset, now) == Some(
                HeartbeatEvaluationError::MultipleHeartbeats,
            )
            &&& hb_eval_next(s, range, offset, now) == s
        }),
{
}

/// Before any beat of the current cycle, evaluation is silent while `now`
/// is inside the window and reports `TooLate` once `now` has passed it.
pub proof fn lemma_heartbeat_no_beat(range: TimeRange, t0: u32, offset: u32, now: u32)
    requires
        range.wf(),
    ensures
        ({
            let s = HeartbeatStateSnapshot::fresh_cycle_fields(t0);
            &&& now <= t0 + range.max ==> hb_eval_error(s, range, offset, now) is None
            &&& now > t0 + range.max ==> hb_eval_error(s, range, offset, now) == Some(
                HeartbeatEvaluationError::TooLate,
            )
            &&& hb_eval_next(s, range, offset, now) == s
        }),
{
}

} // verus!
