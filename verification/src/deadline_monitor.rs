//! Deadline monitor: registered deadline templates, single-use deadline
//! tokens, and periodic evaluation of expiry.
//!
//! Each registered deadline owns one state slot. The holder of the deadline's
//! token drives the slot through `start` and `stop`; the worker walks all
//! slots with `evaluate` and reports missed (`TooLate`) and latched too-early
//! (`TooEarly`) observations. Timestamps are monitor-relative milliseconds.

use vstd::prelude::*;

use crate::common::{MonitorEvaluationError, ProtectedMemoryAllocator, Status, TimeRange};
use crate::deadline_state::{
    initial_deadline_fields, DeadlineState, DeadlineStateFields, DeadlineStateSnapshot,
};
use crate::tag::IdentTag;

verus! {

/// Errors that can occur when working with a [`DeadlineMonitor`].
#[derive(Clone, Copy, Debug, PartialEq, Eq, Hash, Structural)]
pub enum DeadlineMonitorError {
    /// The requested deadline is already in use: someone holds its token.
    DeadlineInUse,
    /// The requested deadline was not registered during the builder phase.
    DeadlineNotFound,
}

/// Errors that can occur when working with [`Deadline`] tokens.
#[derive(Clone, Copy, Debug, PartialEq, Eq, Hash, Structural)]
pub enum DeadlineError {
    /// The deadline has already missed or underrun its window; latched.
    DeadlineAlreadyFailed,
}

/// Dense index of a deadline's state slot inside its monitor.
#[derive(Clone, Copy, Debug, PartialEq, Eq, Hash, Structural)]
pub struct StateIndex {
    index: usize,
}

impl StateIndex {
    /// The position this index points at.
    pub closed spec fn spec_index(self) -> int {
        self.index as int
    }

    /// Wraps a slot position.
    pub fn new(index: usize) -> (r: Self)
        ensures
            r.spec_index() == index,
    {
        Self { index }
    }

    /// The position this index points at.
    pub fn index(&self) -> (r: usize)
        ensures
            r == self.spec_index(),
    {
        self.index
    }
}

/// What the producer writes when it starts a timed section at `now`:
/// a running state whose expiry is `now + max`.
pub open spec fn started_fields(now: u32, max: u32) -> DeadlineStateFields
    recommends
        now + max <= u32::MAX,
{
    DeadlineStateFields {
        running: true,
        stopped: true,
        underrun: false,
        timestamp_ms: (now + max) as u32,
    }
}

/// Whether a new timed section may begin from state `f`: a running or
/// latched-underrun state refuses a fresh start.
pub open spec fn start_allowed(f: DeadlineStateFields) -> bool {
    !f.running && !f.underrun
}

/// Outcome of stopping a running timed section at `now`: the observation
/// handed to the caller and the state left for the worker.
///
/// A missed deadline (`now` past the recorded expiry) is left running so the
/// worker observes the miss; a too-early finish latches `underrun`; a finish
/// inside the window resets the slot to the clean stopped state.
pub open spec fn stop_outcome(f: DeadlineStateFields, now: u32, range: TimeRange) -> (Option<
    MonitorEvaluationError,
>, DeadlineStateFields)
    recommends
        f.timestamp_ms >= range.max,
        range.wf(),
{
    if f.timestamp_ms < now {
        (Some(MonitorEvaluationError::TooLate), f)
    } else if now < f.timestamp_ms - range.max + range.min {
        (
            Some(MonitorEvaluationError::TooEarly),
            DeadlineStateFields { underrun: true, ..f },
        )
    } else {
        (None, initial_deadline_fields())
    }
}

/// What the worker reports for one slot in state `f` at time `now`.
pub open spec fn eval_error_of(f: DeadlineStateFields, now: u32) -> Option<
    MonitorEvaluationError,
> {
    if f.underrun {
        Some(MonitorEvaluationError::TooEarly)
    } else if f.running && now > f.timestamp_ms {
        Some(MonitorEvaluationError::TooLate)
    } else {
        None
    }
}

/// A timed section completed inside its window leaves no observation behind:
/// starting at `t0`, stopping at `t1` with `t1 - t0` in `[min, max]` resets
/// the slot, and no later evaluation reports anything for it.
pub proof fn lemma_deadline_in_range_silent(range: TimeRange, t0: u32, t1: u32, t: u32)
    requires
        range.wf(),
        t0 + range.max <= u32::MAX,
        t0 <= t1,
        t0 + range.min <= t1 <= t0 + range.max,
    ensures
        stop_outcome(started_fields(t0, range.max), t1, range).0 is None,
        stop_outcome(started_fields(t0, range.max), t1, range).1 == initial_deadline_fields(),
        eval_error_of(stop_outcome(started_fields(t0, range.max), t1, range).1, t) is None,
{
}

/// A timed section finished before `min` latches: the stop itself reports
/// `TooEarly`, every later evaluation reports `TooEarly`, and no fresh start
/// is allowed from the latched state.
pub proof fn lemma_deadline_too_early_latches(range: TimeRange, t0: u32, t1: u32, t: u32)
    requires
        range.wf(),
        t0 + range.max <= u32::MAX,
        t0 <= t1,
        t1 < t0 + range.min,
    ensures
        stop_outcome(started_fields(t0, range.max), t1, range).0 == Some(
            MonitorEvaluationError::TooEarly,
        ),
        stop_outcome(started_fields(t0, range.max), t1, range).1.underrun,
        eval_error_of(stop_outcome(started_fields(t0, range.max), t1, range).1, t) == Some(
            MonitorEvaluationError::TooEarly,
        ),
        !start_allowed(stop_outcome(started_fields(t0, range.max), t1, range).1),
{
}

/// A running timed section whose window has elapsed is observable by the
/// worker without any cooperation from the producer: evaluation at any
/// `t > t0 + max` reports `TooLate`, and a stop arriving after the expiry
/// returns a failure and leaves the running state in place.
pub proof fn lemma_deadline_too_late_observable(range: TimeRange, t0: u32, t1: u32, t: u32)
    requires
        range.wf(),
        t0 + range.max <= u32::MAX,
        t > t0 + range.max,
        t1 > t0 + range.max,
    ensures
        eval_error_of(started_fields(t0, range.max), t) == Some(MonitorEvaluationError::TooLate),
        stop_outcome(started_fields(t0, range.max), t1, range).0 == Some(
            MonitorEvaluationError::TooLate,
        ),
        stop_outcome(started_fields(t0, range.max), t1, range).1 == started_fields(
            t0,
            range.max,
        ),
{
}

/// In a well-formed monitor, a slot carrying tag `t` is the unique slot the
/// monitor's `index_of` observer points at.
pub proof fn lemma_index_unique(m: DeadlineMonitor, t: Seq<char>, i: int)
    requires
        m.wf(),
        0 <= i < m.slot_count(),
        m.tag_at(i) == t,
    ensures
        m.has_tag(t),
        m.index_of(t) == i,
{
    assert(m.has_tag(t));
    let k = m.index_of(t);
    assert(0 <= k < m.slot_count() && m.tag_at(k) == t);
    if k < i {
        assert(m.tag_at(k) != m.tag_at(i));
    } else if i < k {
        assert(m.tag_at(i) != m.tag_at(k));
    }
}

/// Single ownership of deadline tokens: while a valid token for a tag
/// exists, the slot carrying that tag is claimed, so `get_deadline` on the
/// same tag answers `DeadlineInUse` until the token is released.
pub proof fn lemma_deadline_single_ownership(m: DeadlineMonitor, d: Deadline)
    requires
        m.wf(),
        d.valid(m),
    ensures
        m.index_of(d.spec_tag()) == d.spec_index(),
        m.in_use_at(m.index_of(d.spec_tag())),
{
    lemma_index_unique(m, d.spec_tag(), d.spec_index());
}

/// Registering a tag that already has an entry overwrites that entry in
/// place.
proof fn lemma_add_entry_update(
    s: Seq<(Seq<char>, TimeRange)>,
    t: Seq<char>,
    r: TimeRange,
    i: int,
)
    requires
        0 <= i < s.len(),
        s[i].0 == t,
        forall|j: int| 0 <= j < i ==> s[j].0 != t,
    ensures
        add_entry(s, t, r) =~= s.update(i, (t, r)),
    decreases i,
{
    if i == 0 {
        assert(add_entry(s, t, r) =~= s.update(0, (t, r)));
    } else {
        lemma_add_entry_update(s.drop_first(), t, r, i - 1);
        assert(add_entry(s, t, r) =~= s.update(i, (t, r)));
    }
}

/// Registering a tag with no existing entry appends a new entry.
proof fn lemma_add_entry_append(s: Seq<(Seq<char>, TimeRange)>, t: Seq<char>, r: TimeRange)
    requires
        forall|j: int| 0 <= j < s.len() ==> s[j].0 != t,
    ensures
        add_entry(s, t, r) =~= s.push((t, r)),
    decreases s.len(),
{
    if s.len() > 0 {
        lemma_add_entry_append(s.drop_first(), t, r);
        assert(add_entry(s, t, r) =~= s.push((t, r)));
    }
}

/// One registered deadline: its tag, window, claim flag and state slot.
struct DeadlineSlot {
    tag: IdentTag,
    range: TimeRange,
    in_use: bool,
    state: DeadlineState,
}

/// Builder for [`DeadlineMonitor`].
pub struct DeadlineMonitorBuilder {
    deadlines: Vec<(IdentTag, TimeRange)>,
}

impl DeadlineMonitorBuilder {
    /// The registered templates in insertion order: tag content and window.
    pub closed spec fn entries(self) -> Seq<(Seq<char>, TimeRange)> {
        self.deadlines@.map_values(|p: (IdentTag, TimeRange)| (p.0@, p.1))
    }

    /// No tag occurs twice, and every window is well formed.
    pub open spec fn wf(self) -> bool {
        &&& forall|i: int, j: int|
            0 <= i < j < self.entries().len() ==> self.entries()[i].0 != self.entries()[j].0
        &&& forall|i: int| 0 <= i < self.entries().len() ==> (#[trigger] self.entries()[i].1).wf()
    }

    /// Creates a new builder with no deadlines registered.
    pub fn new() -> (r: Self)
        ensures
            r.entries() =~= Seq::<(Seq<char>, TimeRange)>::empty(),
            r.wf(),
    {
        Self { deadlines: Vec::new() }
    }

    /// Adds a deadline with the given tag and duration window. A duplicate
    /// tag overwrites the previously registered window.
    pub fn add_deadline(self, tag: &IdentTag, range: TimeRange) -> (r: Self)
        requires
            self.wf(),
            range.wf(),
        ensures
            r.wf(),
            add_entry(self.entries(), tag@, range) =~= r.entries(),
    {
        let mut this = self;
        this.add_deadline_internal(tag, range);
        this
    }

    /// Adds a deadline with the given tag and duration window, in place.
    pub fn add_deadline_internal(&mut self, tag: &IdentTag, range: TimeRange)
        requires
            old(self).wf(),
            range.wf(),
        ensures
            final(self).wf(),
            add_entry(old(self).entries(), tag@, range) =~= final(self).entries(),
    {
        let n = self.deadlines.len();
        let mut i: usize = 0;
        while i < n
            invariant
                n == self.deadlines.len(),
                i <= n,
                forall|j: int| 0 <= j < i ==> self.deadlines@[j].0@ != tag@,
                *self == *old(self),
                old(self).wf(),
                range.wf(),
            decreases n - i,
        {
            if self.deadlines[i].0 == *tag {
                let pair = (self.deadlines[i].0.clone(), range);
                self.deadlines[i] = pair;
                proof {
                    assert(self.entries() =~= old(self).entries().update(
                        i as int,
                        (tag@, range),
                    ));
                    lemma_add_entry_update(old(self).entries(), tag@, range, i as int);
                    assert(forall|j: int|
                        0 <= j < self.entries().len() && j != i ==> self.entries()[j] == old(
                            self,
                        ).entries()[j]);
                    assert(self.entries()[i as int] == (tag@, range));
                    assert(old(self).entries()[i as int].0 == tag@);
                    assert forall|j: int|
                        0 <= j < self.entries().len() implies (#[trigger] self.entries()[j]).0
                        == old(self).entries()[j].0 by {
                        if j != i as int {
                            assert(self.entries()[j] == old(self).entries()[j]);
                        }
                    };
                    assert forall|j: int|
                        0 <= j < self.entries().len() implies (#[trigger] self.entries()[j]).1.wf()
                        by {
                        if j != i as int {
                            assert(self.entries()[j] == old(self).entries()[j]);
                            assert(old(self).entries()[j].1.wf());
                        }
                    };
                    assert(self.wf());
                }
                return ;
            }
            i += 1;
        }
        self.deadlines.push((tag.clone(), range));
        proof {
            assert(self.entries() =~= old(self).entries().push((tag@, range)));
            lemma_add_entry_append(old(self).entries(), tag@, range);
        }
    }

    /// Builds the [`DeadlineMonitor`] with the configured deadlines: one
    /// clean, unclaimed state slot per template, in registration order.
    pub fn build(self, _allocator: &ProtectedMemoryAllocator) -> (m: DeadlineMonitor)
        requires
            self.wf(),
        ensures
            m.wf(),
            m.slot_count() == self.entries().len(),
            forall|i: int|
                0 <= i < m.slot_count() ==> #[trigger] m.tag_at(i) == self.entries()[i].0,
            forall|i: int|
                0 <= i < m.slot_count() ==> #[trigger] m.range_at(i) == self.entries()[i].1,
            forall|i: int| 0 <= i < m.slot_count() ==> !(#[trigger] m.in_use_at(i)),
            forall|i: int|
                0 <= i < m.slot_count() ==> #[trigger] m.state_at(i) == initial_deadline_fields(),
            !m.spec_failed(),
    {
        let mut slots: Vec<DeadlineSlot> = Vec::new();
        let n = self.deadlines.len();
        let mut i: usize = 0;
        while i < n
            invariant
                n == self.deadlines.len(),
                i <= n,
                slots@.len() == i,
                forall|j: int| 0 <= j < i ==> (#[trigger] slots@[j]).tag@ == self.entries()[j].0,
                forall|j: int| 0 <= j < i ==> (#[trigger] slots@[j]).range == self.entries()[j].1,
                forall|j: int| 0 <= j < i ==> !(#[trigger] slots@[j]).in_use,
                forall|j: int|
                    0 <= j < i ==> (#[trigger] slots@[j]).state.spec_snapshot().model()
                        == initial_deadline_fields(),
            decreases n - i,
        {
            let tag = self.deadlines[i].0.clone();
            let range = self.deadlines[i].1;
            slots.push(DeadlineSlot { tag, range, in_use: false, state: DeadlineState::new() });
            i += 1;
        }
        DeadlineMonitor { slots, failed: false }
    }
}

impl Default for DeadlineMonitorBuilder {
    /// A builder with no deadlines registered.
    fn default() -> (r: Self)
        ensures
            r.entries() =~= Seq::<(Seq<char>, TimeRange)>::empty(),
            r.wf(),
    {
        Self::new()
    }
}

/// The entries after registering `(tag, range)`: an existing entry with the
/// same tag is overwritten in place, otherwise the entry is appended.
pub open spec fn add_entry(
    entries: Seq<(Seq<char>, TimeRange)>,
    tag: Seq<char>,
    range: TimeRange,
) -> Seq<(Seq<char>, TimeRange)>
    decreases entries.len(),
{
    if entries.len() == 0 {
        seq![(tag, range)]
    } else if entries[0].0 == tag {
        seq![(tag, range)] + entries.drop_first()
    } else {
        seq![entries[0]] + add_entry(entries.drop_first(), tag, range)
    }
}

/// Monitor of registered deadlines: hands out single-use [`Deadline`] tokens
/// and evaluates all state slots on request.
pub struct DeadlineMonitor {
    slots: Vec<DeadlineSlot>,
    failed: bool,
}

impl DeadlineMonitor {
    /// Number of registered deadlines.
    pub closed spec fn slot_count(self) -> int {
        self.slots@.len() as int
    }

    /// Tag content of slot `i`.
    pub closed spec fn tag_at(self, i: int) -> Seq<char> {
        self.slots@[i].tag@
    }

    /// Window of slot `i`.
    pub closed spec fn range_at(self, i: int) -> TimeRange {
        self.slots@[i].range
    }

    /// Whether the token of slot `i` is currently handed out.
    pub closed spec fn in_use_at(self, i: int) -> bool {
        self.slots@[i].in_use
    }

    /// State fields of slot `i`.
    pub closed spec fn state_at(self, i: int) -> DeadlineStateFields {
        self.slots@[i].state.spec_snapshot().model()
    }

    /// Whether an earlier evaluation has reported at least one observation.
    pub closed spec fn spec_failed(self) -> bool {
        self.failed
    }

    /// Whether some slot carries this tag.
    pub open spec fn has_tag(self, t: Seq<char>) -> bool {
        exists|i: int| 0 <= i < self.slot_count() && self.tag_at(i) == t
    }

    /// The slot carrying tag `t`; meaningful when `has_tag(t)`.
    pub open spec fn index_of(self, t: Seq<char>) -> int {
        choose|i: int| 0 <= i < self.slot_count() && self.tag_at(i) == t
    }

    /// Well-formedness: tags are unique, windows are well formed, and a
    /// running slot's expiry timestamp is at least its window's `max` (it was
    /// written as `start + max`).
    pub open spec fn wf(self) -> bool {
        &&& forall|i: int, j: int|
            0 <= i < j < self.slot_count() ==> self.tag_at(i) != self.tag_at(j)
        &&& forall|i: int| 0 <= i < self.slot_count() ==> (#[trigger] self.range_at(i)).wf()
        &&& forall|i: int|
            0 <= i < self.slot_count() && (#[trigger] self.state_at(i)).running ==> self.state_at(
                i,
            ).timestamp_ms >= self.range_at(i).max
    }

    /// Both monitors register the same deadlines: same slots, tags, windows.
    pub open spec fn same_registry(self, other: Self) -> bool {
        &&& self.slot_count() == other.slot_count()
        &&& forall|i: int| 0 <= i < self.slot_count() ==> self.tag_at(i) == other.tag_at(i)
        &&& forall|i: int| 0 <= i < self.slot_count() ==> self.range_at(i) == other.range_at(i)
    }

    /// Acquires the deadline token for the given tag.
    ///
    /// Exactly one token exists per registered deadline: a second call for
    /// the same tag fails with `DeadlineInUse` until the first token is
    /// released.
    pub fn get_deadline(&mut self, tag: &IdentTag) -> (r: Result<Deadline, DeadlineMonitorError>)
        requires
            old(self).wf(),
        ensures
            final(self).wf(),
            final(self).same_registry(*old(self)),
            final(self).spec_failed() == old(self).spec_failed(),
            forall|i: int| 0 <= i < final(self).slot_count() ==> final(self).state_at(i) == old(self).state_at(i),
            !old(self).has_tag(tag@) ==> r == Err::<Deadline, DeadlineMonitorError>(
                DeadlineMonitorError::DeadlineNotFound,
            ) && *final(self) == *old(self),
            old(self).has_tag(tag@) && old(self).in_use_at(old(self).index_of(tag@)) ==> r
                == Err::<Deadline, DeadlineMonitorError>(DeadlineMonitorError::DeadlineInUse)
                && *final(self) == *old(self),
            old(self).has_tag(tag@) && !old(self).in_use_at(old(self).index_of(tag@)) ==> {
                &&& r is Ok
                &&& final(self).in_use_at(old(self).index_of(tag@))
            },
            r matches Ok(d) ==> {
                &&& d.valid(*final(self))
                &&& d.spec_tag() == tag@
                &&& d.spec_index() == old(self).index_of(tag@)
                &&& old(self).has_tag(tag@)
                &&& !old(self).in_use_at(d.spec_index())
            },
            forall|i: int|
                0 <= i < final(self).slot_count() && i != old(self).index_of(tag@) ==> final(self).in_use_at(i)
                    == old(self).in_use_at(i),
    {
        let n = self.slots.len();
        let mut i: usize = 0;
        while i < n
            invariant
                n == self.slots.len(),
                i <= n,
                forall|j: int| 0 <= j < i ==> self.slots@[j].tag@ != tag@,
                *self == *old(self),
                old(self).wf(),
            decreases n - i,
        {
            if self.slots[i].tag == *tag {
                proof {
                    assert(old(self).tag_at(i as int) == tag@);
                    lemma_index_unique(*old(self), tag@, i as int);
                }
                if self.slots[i].in_use {
                    return Err(DeadlineMonitorError::DeadlineInUse);
                }
                let range = self.slots[i].range;
                let slot_tag = self.slots[i].tag.clone();
                let snap = self.slots[i].state.snapshot();
                let new_slot = DeadlineSlot {
                    tag: slot_tag,
                    range,
                    in_use: true,
                    state: DeadlineState::from_snapshot(snap),
                };
                let token_tag = self.slots[i].tag.clone();
                self.slots[i] = new_slot;
                proof {
                    let ii = i as int;
                    assert(forall|j: int|
                        0 <= j < self.slot_count() && j != ii ==> self.slots@[j]
                            == old(self).slots@[j]);
                    assert(forall|j: int|
                        0 <= j < self.slot_count() && j != ii ==> self.state_at(j) == old(
                            self,
                        ).state_at(j) && self.tag_at(j) == old(self).tag_at(j) && self.range_at(j)
                            == old(self).range_at(j) && self.in_use_at(j) == old(self).in_use_at(
                            j,
                        ));
                    assert(self.tag_at(ii) == old(self).tag_at(ii));
                    assert(self.range_at(ii) == old(self).range_at(ii));
                    assert(self.state_at(ii) == old(self).state_at(ii));
                    assert(self.wf());
                }
                return Ok(
                    Deadline { tag: token_tag, range, state_index: StateIndex::new(i) },
                );
            }
            i += 1;
        }
        proof {
            assert(!old(self).has_tag(tag@));
        }
        Err(DeadlineMonitorError::DeadlineNotFound)
    }

    /// Walks all state slots in registration order and collects one
    /// observation per faulty slot: `TooEarly` for a latched underrun,
    /// `TooLate` for a running deadline whose expiry has passed. The states
    /// themselves are never changed; any observation latches the monitor's
    /// `Failed` status.
    pub fn evaluate(&mut self, now_ms: u32) -> (r: Vec<(IdentTag, MonitorEvaluationError)>)
        requires
            old(self).wf(),
        ensures
            final(self).wf(),
            final(self).same_registry(*old(self)),
            forall|i: int| 0 <= i < final(self).slot_count() ==> final(self).state_at(i) == old(self).state_at(i),
            forall|i: int|
                0 <= i < final(self).slot_count() ==> final(self).in_use_at(i) == old(self).in_use_at(i),
            r@.map_values(|p: (IdentTag, MonitorEvaluationError)| (p.0@, p.1)) =~= eval_reports(
                *old(self),
                now_ms,
                old(self).slot_count(),
            ),
            final(self).spec_failed() == (old(self).spec_failed() || eval_reports(
                *old(self),
                now_ms,
                old(self).slot_count(),
            ).len() > 0),
    {
        let mut reports: Vec<(IdentTag, MonitorEvaluationError)> = Vec::new();
        let n = self.slots.len();
        let mut i: usize = 0;
        while i < n
            invariant
                n == self.slots.len(),
                i <= n,
                *self == *old(self),
                old(self).wf(),
                reports@.map_values(|p: (IdentTag, MonitorEvaluationError)| (p.0@, p.1))
                    =~= eval_reports(*old(self), now_ms, i as int),
            decreases n - i,
        {
            let snap = self.slots[i].state.snapshot();
            if snap.is_underrun() {
                let tag = self.slots[i].tag.clone();
                reports.push((tag, MonitorEvaluationError::TooEarly));
            } else if snap.is_running() {
                let expected = snap.timestamp_ms();
                if now_ms > expected {
                    let tag = self.slots[i].tag.clone();
                    reports.push((tag, MonitorEvaluationError::TooLate));
                }
            }
            proof {
                assert(eval_reports(*old(self), now_ms, i + 1 as int) =~= eval_reports(
                    *old(self),
                    now_ms,
                    i as int,
                ) + match eval_error_of(old(self).state_at(i as int), now_ms) {
                    Some(e) => seq![(old(self).tag_at(i as int), e)],
                    None => Seq::empty(),
                });
            }
            i += 1;
        }
        if reports.len() > 0 {
            self.failed = true;
        }
        proof {
            assert(forall|j: int|
                0 <= j < self.slot_count() ==> self.state_at(j) == old(self).state_at(j)
                    && self.tag_at(j) == old(self).tag_at(j) && self.range_at(j) == old(
                    self,
                ).range_at(j) && self.in_use_at(j) == old(self).in_use_at(j));
            assert(self.wf());
        }
        reports
    }

    /// Coarse status of the monitor: `Failed` once any evaluation has
    /// reported an observation, `Running` otherwise.
    pub fn status(&self) -> (r: Status)
        ensures
            r == (if self.spec_failed() {
                Status::Failed
            } else {
                Status::Running
            }),
    {
        if self.failed {
            Status::Failed
        } else {
            Status::Running
        }
    }
}

/// The observations the worker collects from slots `0 .. n` of monitor `m`
/// at time `now`, in slot order.
pub open spec fn eval_reports(m: DeadlineMonitor, now: u32, n: int) -> Seq<
    (Seq<char>, MonitorEvaluationError),
>
    decreases n,
{
    if n <= 0 {
        Seq::empty()
    } else {
        eval_reports(m, now, n - 1) + match eval_error_of(m.state_at(n - 1), now) {
            Some(e) => seq![(m.tag_at(n - 1), e)],
            None => Seq::empty(),
        }
    }
}

/// A single-use token representing the right to observe one timed code
/// section. Move-only and not clonable: at most one holder per registered
/// deadline exists at any time.
pub struct Deadline {
    tag: IdentTag,
    range: TimeRange,
    state_index: StateIndex,
}

impl Deadline {
    /// Tag content of the deadline this token belongs to.
    pub closed spec fn spec_tag(self) -> Seq<char> {
        self.tag@
    }

    /// Window of the deadline this token belongs to.
    pub closed spec fn spec_range(self) -> TimeRange {
        self.range
    }

    /// Slot position of the deadline this token belongs to.
    pub closed spec fn spec_index(self) -> int {
        self.state_index.spec_index()
    }

    /// The token matches a claimed slot of monitor `m`.
    pub open spec fn valid(self, m: DeadlineMonitor) -> bool {
        &&& 0 <= self.spec_index() < m.slot_count()
        &&& m.tag_at(self.spec_index()) == self.spec_tag()
        &&& m.range_at(self.spec_index()) == self.spec_range()
        &&& m.in_use_at(self.spec_index())
        &&& self.spec_range().wf()
    }

    /// The tag this token belongs to.
    pub fn tag(&self) -> (r: &IdentTag)
        ensures
            r@ == self.spec_tag(),
    {
        &self.tag
    }

    /// The window this token is measured against.
    pub fn range(&self) -> (r: TimeRange)
        ensures
            r == self.spec_range(),
    {
        self.range
    }

    /// Starts the timed section at `now_ms`: the slot becomes running with
    /// expiry `now_ms + max`. Fails with `DeadlineAlreadyFailed`, leaving the
    /// slot untouched, if the slot is still running or has latched an
    /// underrun.
    pub fn start(&self, monitor: &mut DeadlineMonitor, now_ms: u32) -> (r: Result<
        (),
        DeadlineError,
    >)
        requires
            old(monitor).wf(),
            self.valid(*old(monitor)),
            now_ms + self.spec_range().max <= u32::MAX,
        ensures
            final(monitor).wf(),
            self.valid(*final(monitor)),
            final(monitor).same_registry(*old(monitor)),
            final(monitor).spec_failed() == old(monitor).spec_failed(),
            forall|i: int|
                0 <= i < final(monitor).slot_count() ==> final(monitor).in_use_at(i) == old(monitor).in_use_at(i),
            forall|i: int|
                0 <= i < final(monitor).slot_count() && i != self.spec_index() ==> final(monitor).state_at(i)
                    == old(monitor).state_at(i),
            !start_allowed(old(monitor).state_at(self.spec_index())) ==> r == Err::<
                (),
                DeadlineError,
            >(DeadlineError::DeadlineAlreadyFailed) && *final(monitor) == *old(monitor),
            start_allowed(old(monitor).state_at(self.spec_index())) ==> r == Ok::<
                (),
                DeadlineError,
            >(()) && final(monitor).state_at(self.spec_index()) == started_fields(
                now_ms,
                self.spec_range().max,
            ),
    {
        let i = self.state_index.index();
        let snap = monitor.slots[i].state.snapshot();
        if snap.is_running() || snap.is_underrun() {
            return Err(DeadlineError::DeadlineAlreadyFailed);
        }
        let max_time = now_ms + self.range.max;
        let mut fresh = DeadlineStateSnapshot::default();
        fresh.set_timestamp_ms(max_time);
        fresh.set_running();
        let tag = monitor.slots[i].tag.clone();
        let new_slot = DeadlineSlot {
            tag,
            range: monitor.slots[i].range,
            in_use: monitor.slots[i].in_use,
            state: DeadlineState::from_snapshot(fresh),
        };
        monitor.slots[i] = new_slot;
        proof {
            let ii = i as int;
            assert(forall|j: int|
                0 <= j < monitor.slot_count() && j != ii ==> monitor.slots@[j]
                    == old(monitor).slots@[j]);
            assert(forall|j: int|
                0 <= j < monitor.slot_count() && j != ii ==> monitor.state_at(j) == old(
                    monitor,
                ).state_at(j) && monitor.tag_at(j) == old(monitor).tag_at(j) && monitor.range_at(
                    j,
                ) == old(monitor).range_at(j) && monitor.in_use_at(j) == old(monitor).in_use_at(
                    j,
                ));
            assert(monitor.tag_at(ii) == old(monitor).tag_at(ii));
            assert(monitor.range_at(ii) == old(monitor).range_at(ii));
            assert(monitor.in_use_at(ii) == old(monitor).in_use_at(ii));
            assert(monitor.wf());
        }
        Ok(())
    }

    /// Stops the timed section at `now_ms`.
    ///
    /// If the recorded expiry has already passed, returns `TooLate` and
    /// leaves the running state in place for the worker to observe. If the
    /// section finished before `min` elapsed, latches `underrun` and returns
    /// `TooEarly`. Otherwise resets the slot to the clean stopped state and
    /// returns success. The observation is recorded, not reported: reporting
    /// happens on the worker's next evaluation.
    pub fn stop(&self, monitor: &mut DeadlineMonitor, now_ms: u32) -> (r: Result<
        (),
        MonitorEvaluationError,
    >)
        requires
            old(monitor).wf(),
            self.valid(*old(monitor)),
            old(monitor).state_at(self.spec_index()).running,
        ensures
            final(monitor).wf(),
            self.valid(*final(monitor)),
            final(monitor).same_registry(*old(monitor)),
            final(monitor).spec_failed() == old(monitor).spec_failed(),
            forall|i: int|
                0 <= i < final(monitor).slot_count() ==> final(monitor).in_use_at(i) == old(monitor).in_use_at(i),
            forall|i: int|
                0 <= i < final(monitor).slot_count() && i != self.spec_index() ==> final(monitor).state_at(i)
                    == old(monitor).state_at(i),
            ({
                let outcome = stop_outcome(
                    old(monitor).state_at(self.spec_index()),
                    now_ms,
                    self.spec_range(),
                );
                &&& final(monitor).state_at(self.spec_index()) == outcome.1
                &&& r == match outcome.0 {
                    Some(e) => Err::<(), MonitorEvaluationError>(e),
                    None => Ok::<(), MonitorEvaluationError>(()),
                }
            }),
    {
        let i = self.state_index.index();
        let mut snap = monitor.slots[i].state.snapshot();
        let expected = snap.timestamp_ms();
        let max = self.range.max;
        let min = self.range.min;
        let outcome: Result<(), MonitorEvaluationError>;
        if expected < now_ms {
            // Deadline missed; leave the state as it is so the worker
            // observes and reports the miss.
            outcome = Err(MonitorEvaluationError::TooLate);
        } else {
            let start_time = expected - max;
            let earliest_time = start_time + min;
            if now_ms < earliest_time {
                snap.set_underrun();
                let tag = monitor.slots[i].tag.clone();
                let new_slot = DeadlineSlot {
                    tag,
                    range: monitor.slots[i].range,
                    in_use: monitor.slots[i].in_use,
                    state: DeadlineState::from_snapshot(snap),
                };
                monitor.slots[i] = new_slot;
                outcome = Err(MonitorEvaluationError::TooEarly);
            } else {
                let tag = monitor.slots[i].tag.clone();
                let new_slot = DeadlineSlot {
                    tag,
                    range: monitor.slots[i].range,
                    in_use: monitor.slots[i].in_use,
                    state: DeadlineState::new(),
                };
                monitor.slots[i] = new_slot;
                outcome = Ok(());
            }
        }
        proof {
            let ii = i as int;
            assert(forall|j: int|
                0 <= j < monitor.slot_count() && j != ii ==> monitor.slots@[j]
                    == old(monitor).slots@[j]);
            assert(forall|j: int|
                0 <= j < monitor.slot_count() && j != ii ==> monitor.state_at(j) == old(
                    monitor,
                ).state_at(j) && monitor.tag_at(j) == old(monitor).tag_at(j) && monitor.range_at(
                    j,
                ) == old(monitor).range_at(j) && monitor.in_use_at(j) == old(monitor).in_use_at(
                    j,
                ));
            assert(monitor.tag_at(ii) == old(monitor).tag_at(ii));
            assert(monitor.range_at(ii) == old(monitor).range_at(ii));
            assert(monitor.in_use_at(ii) == old(monitor).in_use_at(ii));
            assert(monitor.wf());
        }
        outcome
    }

    /// Releases the token: the deadline may be acquired again. The state
    /// slot itself is left as it is, so a latched observation survives the
    /// release.
    pub fn release(self, monitor: &mut DeadlineMonitor)
        requires
            old(monitor).wf(),
            self.valid(*old(monitor)),
        ensures
            final(monitor).wf(),
            final(monitor).same_registry(*old(monitor)),
            final(monitor).spec_failed() == old(monitor).spec_failed(),
            forall|i: int|
                0 <= i < final(monitor).slot_count() ==> final(monitor).state_at(i) == old(monitor).state_at(i),
            !final(monitor).in_use_at(self.spec_index()),
            forall|i: int|
                0 <= i < final(monitor).slot_count() && i != self.spec_index() ==> final(monitor).in_use_at(i)
                    == old(monitor).in_use_at(i),
    {
        let i = self.state_index.index();
        let tag = monitor.slots[i].tag.clone();
        let snap = monitor.slots[i].state.snapshot();
        let new_slot = DeadlineSlot {
            tag,
            range: monitor.slots[i].range,
            in_use: false,
            state: DeadlineState::from_snapshot(snap),
        };
        monitor.slots[i] = new_slot;
        proof {
            let ii = i as int;
            assert(forall|j: int|
                0 <= j < monitor.slot_count() && j != ii ==> monitor.slots@[j]
                    == old(monitor).slots@[j]);
            assert(forall|j: int|
                0 <= j < monitor.slot_count() && j != ii ==> monitor.state_at(j) == old(
                    monitor,
                ).state_at(j) && monitor.tag_at(j) == old(monitor).tag_at(j) && monitor.range_at(
                    j,
                ) == old(monitor).range_at(j) && monitor.in_use_at(j) == old(monitor).in_use_at(
                    j,
                ));
            assert(monitor.tag_at(ii) == old(monitor).tag_at(ii));
            assert(monitor.range_at(ii) == old(monitor).range_at(ii));
            assert(!monitor.in_use_at(ii));
            assert(monitor.state_at(ii) == old(monitor).state_at(ii));
            assert(monitor.wf());
        }
    }
}

} // verus!
