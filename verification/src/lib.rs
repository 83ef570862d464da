//! In-process health monitoring library.
//!
//! User code registers *monitors* (deadline, heartbeat, logic) with a
//! [`HealthMonitorBuilder`], takes ownership of each monitor by tag, and
//! starts a periodic worker that evaluates every monitor and emits an
//! "alive" notification to an external supervisor while all monitors are
//! healthy.
//!
//! All runtime arithmetic is carried out in `u32` milliseconds relative to a
//! per-monitor starting instant; callers hand each operation the current
//! monotonic timestamp. The design assumes continuous operation below the
//! `u32` millisecond ceiling (about 49 days).

use vstd::prelude::*;

pub mod alive_monitor;
pub mod common;
pub mod deadline_monitor;
pub mod deadline_state;
pub mod heartbeat_monitor;
pub mod heartbeat_state;
pub mod logic_monitor;
pub mod tag;
pub mod worker;

use crate::common::ProtectedMemoryAllocator;
use crate::deadline_monitor::{DeadlineMonitor, DeadlineMonitorBuilder};
use crate::deadline_state::initial_deadline_fields;
use crate::heartbeat_monitor::{HeartbeatMonitor, HeartbeatMonitorBuilder};
use crate::heartbeat_state::HeartbeatStateFields;
use crate::logic_monitor::{LogicMonitor, LogicMonitorBuilder};
use crate::tag::MonitorTag;

verus! {

/// Health monitor errors.
#[derive(Clone, Copy, Debug, PartialEq, Eq, Structural)]
pub enum HealthMonitorError {
    /// Requested entry not found.
    NotFound,
    /// Provided argument is invalid.
    InvalidArgument,
    /// Current state is invalid.
    WrongState,
}

/// Monitor ownership state inside the [`HealthMonitor`]: the user-facing
/// monitor is either still available or has been taken out exactly once.
/// Once a monitor is taken, evaluation access stays with the embedder's
/// worker.
pub enum MonitorState<Monitor> {
    /// Monitor is available.
    Available(Monitor),
    /// Monitor is already taken.
    Taken,
}

/// Whether the keyed sequence holds an entry whose tag reads `t`.
pub open spec fn keyed_has<B>(s: Seq<(MonitorTag, B)>, t: Seq<char>) -> bool {
    exists|i: int| 0 <= i < s.len() && (#[trigger] s[i]).0@ == t
}

/// The position of the entry whose tag reads `t`; meaningful when
/// `keyed_has(s, t)`.
pub open spec fn keyed_idx<B>(s: Seq<(MonitorTag, B)>, t: Seq<char>) -> int {
    choose|i: int| 0 <= i < s.len() && (#[trigger] s[i]).0@ == t
}

/// No tag occurs twice in the keyed sequence.
pub open spec fn keyed_unique<B>(s: Seq<(MonitorTag, B)>) -> bool {
    forall|i: int, j: int| 0 <= i < j < s.len() ==> (#[trigger] s[i]).0@ != (#[trigger] s[j]).0@
}

/// In a unique keyed sequence, the entry at `i` carrying tag `t` is the
/// entry `keyed_idx` points at.
proof fn lemma_keyed_idx<B>(s: Seq<(MonitorTag, B)>, t: Seq<char>, i: int)
    requires
        keyed_unique(s),
        0 <= i < s.len(),
        s[i].0@ == t,
    ensures
        keyed_has(s, t),
        keyed_idx(s, t) == i,
{
    assert(keyed_has(s, t));
    let k = keyed_idx(s, t);
    assert(0 <= k < s.len() && s[k].0@ == t);
    if k < i {
        assert(s[k].0@ != s[i].0@);
    } else if i < k {
        assert(s[i].0@ != s[k].0@);
    }
}

/// Registration result of one upsert: either a fresh entry appended at the
/// end or the entry with the same tag replaced in place, everything else
/// untouched.
pub open spec fn upserted<B>(
    before: Seq<(MonitorTag, B)>,
    after: Seq<(MonitorTag, B)>,
    tag: Seq<char>,
    value: B,
) -> bool {
    let idx = if keyed_has(before, tag) {
        keyed_idx(before, tag)
    } else {
        before.len() as int
    };
    &&& (!keyed_has(before, tag) ==> after.len() == before.len() + 1 && (forall|j: int|
        0 <= j < before.len() ==> after[j] == before[j]))
    &&& (keyed_has(before, tag) ==> after.len() == before.len() && (forall|j: int|
        0 <= j < before.len() && j != idx ==> after[j] == before[j]))
    &&& after[idx].0@ == tag
    &&& after[idx].1 == value
}

/// Registers `(tag, value)` in the keyed vector: an entry with the same tag
/// is overwritten in place, otherwise the entry is appended.
fn keyed_upsert<B>(v: &mut Vec<(MonitorTag, B)>, tag: MonitorTag, value: B)
    requires
        keyed_unique(old(v)@),
    ensures
        keyed_unique(final(v)@),
        upserted(old(v)@, final(v)@, tag@, value),
{
    let n = v.len();
    let mut i: usize = 0;
    while i < n
        invariant
            n == v@.len(),
            i <= n,
            forall|j: int| 0 <= j < i ==> (#[trigger] v@[j]).0@ != tag@,
            *v == *old(v),
            keyed_unique(old(v)@),
        decreases n - i,
    {
        if v[i].0 == tag {
            proof {
                lemma_keyed_idx(old(v)@, tag@, i as int);
            }
            v[i] = (tag, value);
            return ;
        }
        i += 1;
    }
    proof {
        assert(!keyed_has(old(v)@, tag@));
    }
    v.push((tag, value));
}

/// One kind's monitor containers: tagged, taken out at most once.
struct MonitorRegistry<M> {
    entries: Vec<(MonitorTag, MonitorState<M>)>,
}

impl<M> MonitorRegistry<M> {
    /// Number of registered monitors of this kind.
    spec fn count(self) -> int {
        self.entries@.len() as int
    }

    /// Tag content of entry `i`.
    spec fn tag_at(self, i: int) -> Seq<char> {
        self.entries@[i].0@
    }

    /// Container of entry `i`.
    spec fn entry_at(self, i: int) -> MonitorState<M> {
        self.entries@[i].1
    }

    /// Whether the monitor of entry `i` has been taken out.
    spec fn taken_at(self, i: int) -> bool {
        self.entries@[i].1 is Taken
    }

    /// Whether some entry carries this tag.
    spec fn has_tag(self, t: Seq<char>) -> bool {
        keyed_has(self.entries@, t)
    }

    /// The entry carrying tag `t`; meaningful when `has_tag(t)`.
    spec fn index_of(self, t: Seq<char>) -> int {
        keyed_idx(self.entries@, t)
    }

    /// Tags are unique.
    spec fn wf(self) -> bool {
        keyed_unique(self.entries@)
    }

    /// Every monitor of this kind has been taken out.
    spec fn all_taken(self) -> bool {
        forall|i: int| 0 <= i < self.count() ==> #[trigger] self.taken_at(i)
    }

    /// An empty registry.
    fn new() -> (r: Self)
        ensures
            r.count() == 0,
            r.wf(),
    {
        Self { entries: Vec::new() }
    }

    /// Number of registered monitors of this kind.
    fn len(&self) -> (r: usize)
        ensures
            r == self.count(),
    {
        self.entries.len()
    }

    /// Moves the monitor with this tag out, leaving the container `Taken`.
    /// Returns `None`, changing nothing, when the tag is unknown or the
    /// monitor has already been taken.
    fn take(&mut self, tag: &MonitorTag) -> (r: Option<M>)
        requires
            old(self).wf(),
        ensures
            final(self).wf(),
            final(self).count() == old(self).count(),
            forall|i: int|
                0 <= i < final(self).count() ==> final(self).tag_at(i) == old(self).tag_at(i),
            !old(self).has_tag(tag@) ==> r is None && *final(self) == *old(self),
            old(self).has_tag(tag@) && old(self).taken_at(old(self).index_of(tag@)) ==> r is None
                && *final(self) == *old(self),
            old(self).has_tag(tag@) && !old(self).taken_at(old(self).index_of(tag@)) ==> {
                &&& (r matches Some(m) && old(self).entry_at(old(self).index_of(tag@))
                    == MonitorState::Available(m))
                &&& final(self).taken_at(old(self).index_of(tag@))
            },
            forall|i: int|
                0 <= i < final(self).count() && i != old(self).index_of(tag@) ==> final(self).entry_at(i) == old(self).entry_at(i),
    {
        let n = self.entries.len();
        let mut i: usize = 0;
        while i < n
            invariant
                n == self.entries@.len(),
                i <= n,
                forall|j: int| 0 <= j < i ==> (#[trigger] self.entries@[j]).0@ != tag@,
                *self == *old(self),
                old(self).wf(),
            decreases n - i,
        {
            if self.entries[i].0 == *tag {
                proof {
                    lemma_keyed_idx(old(self).entries@, tag@, i as int);
                }
                let already_taken = match &self.entries[i].1 {
                    MonitorState::Available(_) => false,
                    MonitorState::Taken => true,
                };
                if already_taken {
                    return None;
                }
                let (entry_tag, state) = self.entries.remove(i);
                self.entries.insert(i, (entry_tag, MonitorState::Taken));
                proof {
                    assert(self.entries@ =~= old(self).entries@.update(
                        i as int,
                        (old(self).entries@[i as int].0, MonitorState::<M>::Taken),
                    ));
                }
                match state {
                    MonitorState::Available(monitor) => {
                        return Some(monitor);
                    },
                    MonitorState::Taken => {
                        proof {
                            assert(false);
                        }
                        return None;
                    },
                }
            }
            i += 1;
        }
        proof {
            assert(!old(self).has_tag(tag@));
        }
        None
    }

    /// Whether every monitor of this kind has been taken out.
    fn check_all_taken(&self) -> (r: bool)
        ensures
            r == self.all_taken(),
    {
        let n = self.entries.len();
        let mut i: usize = 0;
        while i < n
            invariant
                n == self.entries@.len(),
                i <= n,
                forall|j: int| 0 <= j < i ==> #[trigger] self.taken_at(j),
            decreases n - i,
        {
            match &self.entries[i].1 {
                MonitorState::Available(_) => {
                    proof {
                        assert(!self.taken_at(i as int));
                    }
                    return false;
                },
                MonitorState::Taken => {
                    proof {
                        assert(self.taken_at(i as int));
                    }
                },
            }
            i += 1;
        }
        true
    }
}

/// A deadline monitor as it leaves `build`: clean, unclaimed slots exactly
/// matching the builder's registrations.
pub open spec fn dm_fresh(m: DeadlineMonitor, b: DeadlineMonitorBuilder) -> bool {
    &&& m.wf()
    &&& !m.spec_failed()
    &&& m.slot_count() == b.entries().len()
    &&& forall|j: int| 0 <= j < m.slot_count() ==> #[trigger] m.tag_at(j) == b.entries()[j].0
    &&& forall|j: int| 0 <= j < m.slot_count() ==> #[trigger] m.range_at(j) == b.entries()[j].1
    &&& forall|j: int| 0 <= j < m.slot_count() ==> !(#[trigger] m.in_use_at(j))
    &&& forall|j: int|
        0 <= j < m.slot_count() ==> #[trigger] m.state_at(j) == initial_deadline_fields()
}

/// A heartbeat monitor as it leaves `build`: the builder's window, the
/// given tag, and the pre-init all-zero state.
pub open spec fn hb_fresh(m: HeartbeatMonitor, b: HeartbeatMonitorBuilder, t: Seq<char>) -> bool {
    &&& m.wf()
    &&& m.spec_tag() == t
    &&& m.spec_range() == b.spec_range()
    &&& m.spec_state() == (HeartbeatStateFields {
        start_timestamp: 0,
        heartbeat_timestamp_offset: 0,
        counter: 0,
        post_init: false,
    })
}

/// A logic monitor as it leaves `build`: the builder's machine in its
/// initial state with nothing latched.
pub open spec fn lg_fresh(m: LogicMonitor, b: LogicMonitorBuilder, t: Seq<char>) -> bool {
    &&& m.wf()
    &&& m.spec_tag() == t
    &&& m.states() == b.states()
    &&& m.transitions() == b.transitions()
    &&& m.current() == b.spec_initial()
    &&& m.latch() is None
}

/// Whether a heartbeat builder is accepted for the given internal
/// processing cycle.
pub open spec fn hb_accepted(b: HeartbeatMonitorBuilder, cycle_ms: u32) -> bool {
    2 * b.spec_range().min > cycle_ms
}

/// Whether a logic builder's configuration is accepted.
pub open spec fn lg_accepted(b: LogicMonitorBuilder) -> bool {
    b.transitions().len() > 0 && b.transitions_closed()
}

/// The error of the first rejected logic builder, if any: a builder without
/// transitions is a `WrongState`, one whose transitions leave the declared
/// state set an `InvalidArgument`.
pub open spec fn first_logic_error(s: Seq<(MonitorTag, LogicMonitorBuilder)>) -> Option<
    HealthMonitorError,
>
    decreases s.len(),
{
    if s.len() == 0 {
        None
    } else if s[0].1.transitions().len() == 0 {
        Some(HealthMonitorError::WrongState)
    } else if !s[0].1.transitions_closed() {
        Some(HealthMonitorError::InvalidArgument)
    } else {
        first_logic_error(s.drop_first())
    }
}

/// Skipping accepted logic builders does not change the first error.
proof fn lemma_first_logic_error_skip(s: Seq<(MonitorTag, LogicMonitorBuilder)>, k: int)
    requires
        0 <= k <= s.len(),
        forall|i: int| 0 <= i < k ==> lg_accepted((#[trigger] s[i]).1),
    ensures
        first_logic_error(s) == first_logic_error(s.subrange(k, s.len() as int)),
    decreases k,
{
    if k > 0 {
        assert(lg_accepted(s[0].1));
        lemma_first_logic_error_skip(s.drop_first(), k - 1);
        assert(s.drop_first().subrange(k - 1, s.drop_first().len() as int) =~= s.subrange(
            k,
            s.len() as int,
        ));
    } else {
        assert(s.subrange(0, s.len() as int) =~= s);
    }
}

/// Whether `supervisor_cycle` is a positive integer multiple of
/// `internal_cycle`.
pub open spec fn cycles_valid(supervisor_cycle: u32, internal_cycle: u32) -> bool {
    exists|k: int| k >= 1 && supervisor_cycle == #[trigger] (k * internal_cycle)
}

/// The executable test for [`cycles_valid`]: with a zero internal cycle
/// only a zero supervisor cycle is a multiple of it; otherwise the
/// supervisor cycle must be at least one internal cycle and divide evenly.
pub proof fn lemma_cycle_ratio(supervisor_cycle: u32, internal_cycle: u32)
    ensures
        cycles_valid(supervisor_cycle, internal_cycle) <==> (if internal_cycle == 0 {
            supervisor_cycle == 0
        } else {
            supervisor_cycle >= internal_cycle && supervisor_cycle % internal_cycle == 0
        }),
{
    let s = supervisor_cycle as int;
    let c = internal_cycle as int;
    if internal_cycle == 0 {
        if supervisor_cycle == 0 {
            assert(s == 1 * c);
            assert(cycles_valid(supervisor_cycle, internal_cycle));
        }
        if cycles_valid(supervisor_cycle, internal_cycle) {
            let k = choose|k: int| k >= 1 && supervisor_cycle == #[trigger] (k * internal_cycle);
            assert(s == 0) by (nonlinear_arith)
                requires
                    s == k * c,
                    c == 0,
            ;
        }
    } else {
        if supervisor_cycle >= internal_cycle && supervisor_cycle % internal_cycle == 0 {
            let k = s / c;
            assert(s == k * c && k >= 1) by (nonlinear_arith)
                requires
                    c > 0,
                    s >= c,
                    s % c == 0,
                    k == s / c,
            ;
            assert(cycles_valid(supervisor_cycle, internal_cycle));
        }
        if cycles_valid(supervisor_cycle, internal_cycle) {
            let k = choose|k: int| k >= 1 && supervisor_cycle == #[trigger] (k * internal_cycle);
            assert(s >= c && s % c == 0) by (nonlinear_arith)
                requires
                    c > 0,
                    k >= 1,
                    s == k * c,
            ;
        }
    }
}

/// Builder for the [`HealthMonitor`].
pub struct HealthMonitorBuilder {
    deadline_monitor_builders: Vec<(MonitorTag, DeadlineMonitorBuilder)>,
    heartbeat_monitor_builders: Vec<(MonitorTag, HeartbeatMonitorBuilder)>,
    logic_monitor_builders: Vec<(MonitorTag, LogicMonitorBuilder)>,
    supervisor_api_cycle_ms: u32,
    internal_processing_cycle_ms: u32,
}

impl HealthMonitorBuilder {
    /// The registered deadline monitor builders, in registration order.
    pub closed spec fn dm_builders(self) -> Seq<(MonitorTag, DeadlineMonitorBuilder)> {
        self.deadline_monitor_builders@
    }

    /// The registered heartbeat monitor builders, in registration order.
    pub closed spec fn hb_builders(self) -> Seq<(MonitorTag, HeartbeatMonitorBuilder)> {
        self.heartbeat_monitor_builders@
    }

    /// The registered logic monitor builders, in registration order.
    pub closed spec fn lg_builders(self) -> Seq<(MonitorTag, LogicMonitorBuilder)> {
        self.logic_monitor_builders@
    }

    /// The configured interval between supervisor notifications.
    pub closed spec fn spec_supervisor_cycle(self) -> u32 {
        self.supervisor_api_cycle_ms
    }

    /// The configured interval between monitor evaluations.
    pub closed spec fn spec_internal_cycle(self) -> u32 {
        self.internal_processing_cycle_ms
    }

    /// Tags are unique per kind, and every held sub-builder satisfies its
    /// own building preconditions.
    pub open spec fn wf(self) -> bool {
        &&& keyed_unique(self.dm_builders())
        &&& keyed_unique(self.hb_builders())
        &&& keyed_unique(self.lg_builders())
        &&& forall|i: int|
            0 <= i < self.dm_builders().len() ==> (#[trigger] self.dm_builders()[i]).1.wf()
        &&& forall|i: int|
            0 <= i < self.hb_builders().len() ==> (
            #[trigger] self.hb_builders()[i]).1.spec_range().wf()
        &&& forall|i: int|
            0 <= i < self.lg_builders().len() ==> (
            #[trigger] self.lg_builders()[i]).1.states().contains(
                self.lg_builders()[i].1.spec_initial(),
            )
    }

    /// Whether every heartbeat builder is accepted for the configured
    /// internal processing cycle.
    pub open spec fn hb_all_accepted(self) -> bool {
        forall|i: int|
            0 <= i < self.hb_builders().len() ==> hb_accepted(
                (#[trigger] self.hb_builders()[i]).1,
                self.spec_internal_cycle(),
            )
    }

    /// Whether every logic builder's configuration is accepted.
    pub open spec fn lg_all_accepted(self) -> bool {
        first_logic_error(self.lg_builders()) is None
    }

    /// Total number of registered monitors.
    pub open spec fn total_monitors(self) -> int {
        self.dm_builders().len() + self.hb_builders().len() + self.lg_builders().len() as int
    }

    /// Create a new builder: no monitors, a 500 ms supervisor-API cycle and
    /// a 100 ms internal processing cycle.
    pub fn new() -> (r: Self)
        ensures
            r.wf(),
            r.dm_builders().len() == 0,
            r.hb_builders().len() == 0,
            r.lg_builders().len() == 0,
            r.spec_supervisor_cycle() == 500,
            r.spec_internal_cycle() == 100,
    {
        Self {
            deadline_monitor_builders: Vec::new(),
            heartbeat_monitor_builders: Vec::new(),
            logic_monitor_builders: Vec::new(),
            supervisor_api_cycle_ms: 500,
            internal_processing_cycle_ms: 100,
        }
    }

    /// Add a [`DeadlineMonitor`] under the given tag. A monitor already
    /// registered under the same tag is overwritten.
    pub fn add_deadline_monitor(
        self,
        monitor_tag: MonitorTag,
        monitor_builder: DeadlineMonitorBuilder,
    ) -> (r: Self)
        requires
            self.wf(),
            monitor_builder.wf(),
        ensures
            r.wf(),
            r.hb_builders() == self.hb_builders(),
            r.lg_builders() == self.lg_builders(),
            r.spec_supervisor_cycle() == self.spec_supervisor_cycle(),
            r.spec_internal_cycle() == self.spec_internal_cycle(),
            upserted(self.dm_builders(), r.dm_builders(), monitor_tag@, monitor_builder),
    {
        let mut this = self;
        keyed_upsert(&mut this.deadline_monitor_builders, monitor_tag, monitor_builder);
        this
    }

    /// Add a [`HeartbeatMonitor`] under the given tag. A monitor already
    /// registered under the same tag is overwritten.
    pub fn add_heartbeat_monitor(
        self,
        monitor_tag: MonitorTag,
        monitor_builder: HeartbeatMonitorBuilder,
    ) -> (r: Self)
        requires
            self.wf(),
            monitor_builder.spec_range().wf(),
        ensures
            r.wf(),
            r.dm_builders() == self.dm_builders(),
            r.lg_builders() == self.lg_builders(),
            r.spec_supervisor_cycle() == self.spec_supervisor_cycle(),
            r.spec_internal_cycle() == self.spec_internal_cycle(),
            upserted(self.hb_builders(), r.hb_builders(), monitor_tag@, monitor_builder),
    {
        let mut this = self;
        keyed_upsert(&mut this.heartbeat_monitor_builders, monitor_tag, monitor_builder);
        this
    }

    /// Add a [`LogicMonitor`] under the given tag. A monitor already
    /// registered under the same tag is overwritten.
    pub fn add_logic_monitor(
        self,
        monitor_tag: MonitorTag,
        monitor_builder: LogicMonitorBuilder,
    ) -> (r: Self)
        requires
            self.wf(),
            monitor_builder.states().contains(monitor_builder.spec_initial()),
        ensures
            r.wf(),
            r.dm_builders() == self.dm_builders(),
            r.hb_builders() == self.hb_builders(),
            r.spec_supervisor_cycle() == self.spec_supervisor_cycle(),
            r.spec_internal_cycle() == self.spec_internal_cycle(),
            upserted(self.lg_builders(), r.lg_builders(), monitor_tag@, monitor_builder),
    {
        let mut this = self;
        keyed_upsert(&mut this.logic_monitor_builders, monitor_tag, monitor_builder);
        this
    }

    /// Set the interval between supervisor API notifications: how often the
    /// health monitor confirms system liveness.
    pub fn with_supervisor_api_cycle(self, cycle_duration_ms: u32) -> (r: Self)
        requires
            self.wf(),
        ensures
            r.wf(),
            r.dm_builders() == self.dm_builders(),
            r.hb_builders() == self.hb_builders(),
            r.lg_builders() == self.lg_builders(),
            r.spec_supervisor_cycle() == cycle_duration_ms,
            r.spec_internal_cycle() == self.spec_internal_cycle(),
    {
        let mut this = self;
        this.supervisor_api_cycle_ms = cycle_duration_ms;
        this
    }

    /// Set the internal interval between health monitor evaluations.
    pub fn with_internal_processing_cycle(self, cycle_duration_ms: u32) -> (r: Self)
        requires
            self.wf(),
        ensures
            r.wf(),
            r.dm_builders() == self.dm_builders(),
            r.hb_builders() == self.hb_builders(),
            r.lg_builders() == self.lg_builders(),
            r.spec_supervisor_cycle() == self.spec_supervisor_cycle(),
            r.spec_internal_cycle() == cycle_duration_ms,
    {
        let mut this = self;
        this.internal_processing_cycle_ms = cycle_duration_ms;
        this
    }

    /// Build a new [`HealthMonitor`] from the registered monitors.
    ///
    /// The configuration is rejected with `InvalidArgument` unless the
    /// supervisor-API cycle is a positive integer multiple of the internal
    /// processing cycle, and with `WrongState` when no monitors were added;
    /// afterwards each sub-builder is built in turn, a rejected heartbeat
    /// configuration reporting `InvalidArgument` and the first rejected
    /// logic configuration its own error.
    #[verifier::loop_isolation(false)]
    pub fn build(self) -> (r: Result<HealthMonitor, HealthMonitorError>)
        requires
            self.wf(),
        ensures
            r is Ok <==> cycles_valid(self.spec_supervisor_cycle(), self.spec_internal_cycle())
                && self.total_monitors() > 0 && self.hb_all_accepted() && self.lg_all_accepted(),
            !cycles_valid(self.spec_supervisor_cycle(), self.spec_internal_cycle()) ==> r == Err::<
                HealthMonitor,
                HealthMonitorError,
            >(HealthMonitorError::InvalidArgument),
            cycles_valid(self.spec_supervisor_cycle(), self.spec_internal_cycle())
                && self.total_monitors() == 0 ==> r == Err::<HealthMonitor, HealthMonitorError>(
                HealthMonitorError::WrongState,
            ),
            cycles_valid(self.spec_supervisor_cycle(), self.spec_internal_cycle())
                && self.total_monitors() > 0 && !self.hb_all_accepted() ==> r == Err::<
                HealthMonitor,
                HealthMonitorError,
            >(HealthMonitorError::InvalidArgument),
            cycles_valid(self.spec_supervisor_cycle(), self.spec_internal_cycle())
                && self.total_monitors() > 0 && self.hb_all_accepted() && !self.lg_all_accepted()
                ==> r == Err::<HealthMonitor, HealthMonitorError>(
                first_logic_error(self.lg_builders()).unwrap(),
            ),
            r matches Ok(m) ==> {
                &&& m.wf()
                &&& m.spec_supervisor_cycle() == self.spec_supervisor_cycle()
                &&& m.spec_internal_cycle() == self.spec_internal_cycle()
                &&& m.dm_count() == self.dm_builders().len()
                &&& forall|i: int|
                    0 <= i < m.dm_count() ==> #[trigger] m.dm_tag_at(i)
                        == self.dm_builders()[i].0@
                &&& forall|i: int|
                    0 <= i < m.dm_count() ==> ((#[trigger] m.dm_entry_at(
                        i,
                    )) matches MonitorState::Available(mon) && dm_fresh(
                        mon,
                        self.dm_builders()[i].1,
                    ))
                &&& m.hb_count() == self.hb_builders().len()
                &&& forall|i: int|
                    0 <= i < m.hb_count() ==> #[trigger] m.hb_tag_at(i)
                        == self.hb_builders()[i].0@
                &&& forall|i: int|
                    0 <= i < m.hb_count() ==> ((#[trigger] m.hb_entry_at(
                        i,
                    )) matches MonitorState::Available(mon) && hb_fresh(
                        mon,
                        self.hb_builders()[i].1,
                        self.hb_builders()[i].0@,
                    ))
                &&& m.lg_count() == self.lg_builders().len()
                &&& forall|i: int|
                    0 <= i < m.lg_count() ==> #[trigger] m.lg_tag_at(i)
                        == self.lg_builders()[i].0@
                &&& forall|i: int|
                    0 <= i < m.lg_count() ==> ((#[trigger] m.lg_entry_at(
                        i,
                    )) matches MonitorState::Available(mon) && lg_fresh(
                        mon,
                        self.lg_builders()[i].1,
                        self.lg_builders()[i].0@,
                    ))
            },
    {
        proof {
            lemma_cycle_ratio(self.supervisor_api_cycle_ms, self.internal_processing_cycle_ms);
        }
        let valid = if self.internal_processing_cycle_ms == 0 {
            self.supervisor_api_cycle_ms == 0
        } else {
            self.supervisor_api_cycle_ms >= self.internal_processing_cycle_ms
                && self.supervisor_api_cycle_ms % self.internal_processing_cycle_ms == 0
        };
        if !valid {
            return Err(HealthMonitorError::InvalidArgument);
        }
        if self.deadline_monitor_builders.len() == 0 && self.heartbeat_monitor_builders.len()
            == 0 && self.logic_monitor_builders.len() == 0 {
            return Err(HealthMonitorError::WrongState);
        }
        let ghost config = self;
        let allocator = ProtectedMemoryAllocator {};
        let internal_cycle = self.internal_processing_cycle_ms;
        let supervisor_cycle = self.supervisor_api_cycle_ms;
        let ghost dm_orig = self.deadline_monitor_builders@;
        let ghost hb_orig = self.heartbeat_monitor_builders@;
        let ghost lg_orig = self.logic_monitor_builders@;

        let mut dm_rest = self.deadline_monitor_builders;
        let mut deadline_monitors: MonitorRegistry<DeadlineMonitor> = MonitorRegistry::new();
        while dm_rest.len() > 0
            invariant
                dm_rest@ =~= dm_orig.subrange(
                    dm_orig.len() - dm_rest@.len(),
                    dm_orig.len() as int,
                ),
                deadline_monitors.entries@.len() + dm_rest@.len() == dm_orig.len(),
                keyed_unique(dm_orig),
                forall|i: int| 0 <= i < dm_orig.len() ==> (#[trigger] dm_orig[i]).1.wf(),
                forall|i: int|
                    0 <= i < deadline_monitors.entries@.len() ==> (
                    #[trigger] deadline_monitors.entries@[i]).0@ == dm_orig[i].0@,
                forall|i: int|
                    0 <= i < deadline_monitors.entries@.len() ==> ((
                    #[trigger] deadline_monitors.entries@[i]).1
                        matches MonitorState::Available(mon) && dm_fresh(mon, dm_orig[i].1)),
            decreases dm_rest@.len(),
        {
            let ghost k = deadline_monitors.entries@.len() as int;
            let (entry_tag, builder) = dm_rest.remove(0);
            proof {
                assert(dm_orig[k] == (entry_tag, builder));
            }
            let monitor = builder.build(&allocator);
            deadline_monitors.entries.push((entry_tag, MonitorState::Available(monitor)));
        }
        proof {
            assert(keyed_unique(deadline_monitors.entries@)) by {
                assert forall|a: int, b: int|
                    0 <= a < b < deadline_monitors.entries@.len() implies (
                #[trigger] deadline_monitors.entries@[a]).0@ != (
                #[trigger] deadline_monitors.entries@[b]).0@ by {
                    assert(dm_orig[a].0@ != dm_orig[b].0@);
                };
            }
        }

        let mut hb_rest = self.heartbeat_monitor_builders;
        let mut heartbeat_monitors: MonitorRegistry<HeartbeatMonitor> = MonitorRegistry::new();
        while hb_rest.len() > 0
            invariant
                hb_rest@ =~= hb_orig.subrange(
                    hb_orig.len() - hb_rest@.len(),
                    hb_orig.len() as int,
                ),
                heartbeat_monitors.entries@.len() + hb_rest@.len() == hb_orig.len(),
                keyed_unique(hb_orig),
                forall|i: int|
                    0 <= i < hb_orig.len() ==> (#[trigger] hb_orig[i]).1.spec_range().wf(),
                forall|i: int|
                    0 <= i < heartbeat_monitors.entries@.len() ==> (
                    #[trigger] heartbeat_monitors.entries@[i]).0@ == hb_orig[i].0@,
                forall|i: int|
                    0 <= i < heartbeat_monitors.entries@.len() ==> ((
                    #[trigger] heartbeat_monitors.entries@[i]).1
                        matches MonitorState::Available(mon) && hb_fresh(
                        mon,
                        hb_orig[i].1,
                        hb_orig[i].0@,
                    )),
                forall|i: int|
                    0 <= i < heartbeat_monitors.entries@.len() ==> hb_accepted(
                        (#[trigger] hb_orig[i]).1,
                        internal_cycle,
                    ),
                internal_cycle == self.spec_internal_cycle(),
            decreases hb_rest@.len(),
        {
            let ghost k = heartbeat_monitors.entries@.len() as int;
            let (entry_tag, builder) = hb_rest.remove(0);
            proof {
                assert(hb_orig[k] == (entry_tag, builder));
            }
            let key = entry_tag.clone();
            let built = builder.build(entry_tag, internal_cycle, &allocator);
            match built {
                Ok(monitor) => {
                    heartbeat_monitors.entries.push((key, MonitorState::Available(monitor)));
                },
                Err(e) => {
                    proof {
                        assert(config.hb_builders()[k] == hb_orig[k]);
                        assert(!hb_accepted(config.hb_builders()[k].1, internal_cycle));
                        assert(!config.hb_all_accepted());
                    }
                    return Err(e);
                },
            }
        }
        proof {
            assert(config.hb_all_accepted());
            assert(keyed_unique(heartbeat_monitors.entries@)) by {
                assert forall|a: int, b: int|
                    0 <= a < b < heartbeat_monitors.entries@.len() implies (
                #[trigger] heartbeat_monitors.entries@[a]).0@ != (
                #[trigger] heartbeat_monitors.entries@[b]).0@ by {
                    assert(hb_orig[a].0@ != hb_orig[b].0@);
                };
            }
        }

        let mut lg_rest = self.logic_monitor_builders;
        let mut logic_monitors: MonitorRegistry<LogicMonitor> = MonitorRegistry::new();
        while lg_rest.len() > 0
            invariant
                lg_rest@ =~= lg_orig.subrange(
                    lg_orig.len() - lg_rest@.len(),
                    lg_orig.len() as int,
                ),
                logic_monitors.entries@.len() + lg_rest@.len() == lg_orig.len(),
                keyed_unique(lg_orig),
                forall|i: int|
                    0 <= i < lg_orig.len() ==> (#[trigger] lg_orig[i]).1.states().contains(
                        lg_orig[i].1.spec_initial(),
                    ),
                forall|i: int|
                    0 <= i < logic_monitors.entries@.len() ==> (
                    #[trigger] logic_monitors.entries@[i]).0@ == lg_orig[i].0@,
                forall|i: int|
                    0 <= i < logic_monitors.entries@.len() ==> ((
                    #[trigger] logic_monitors.entries@[i]).1 matches MonitorState::Available(mon)
                        && lg_fresh(mon, lg_orig[i].1, lg_orig[i].0@)),
                forall|i: int|
                    0 <= i < logic_monitors.entries@.len() ==> lg_accepted(
                        (#[trigger] lg_orig[i]).1,
                    ),
            decreases lg_rest@.len(),
        {
            let ghost k = logic_monitors.entries@.len() as int;
            let (entry_tag, builder) = lg_rest.remove(0);
            proof {
                assert(lg_orig[k] == (entry_tag, builder));
            }
            let key = entry_tag.clone();
            let built = builder.build(entry_tag, &allocator);
            match built {
                Ok(monitor) => {
                    logic_monitors.entries.push((key, MonitorState::Available(monitor)));
                },
                Err(e) => {
                    proof {
                        lemma_first_logic_error_skip(lg_orig, k);
                        assert(lg_orig.subrange(k, lg_orig.len() as int)[0] == lg_orig[k]);
                        assert(first_logic_error(lg_orig) == Some(e));
                        assert(!config.lg_all_accepted());
                    }
                    return Err(e);
                },
            }
        }
        proof {
            lemma_first_logic_error_skip(lg_orig, lg_orig.len() as int);
            assert(lg_orig.subrange(lg_orig.len() as int, lg_orig.len() as int) =~= Seq::<
                (MonitorTag, LogicMonitorBuilder),
            >::empty());
            assert(config.lg_all_accepted());
            assert(keyed_unique(logic_monitors.entries@)) by {
                assert forall|a: int, b: int|
                    0 <= a < b < logic_monitors.entries@.len() implies (
                #[trigger] logic_monitors.entries@[a]).0@ != (
                #[trigger] logic_monitors.entries@[b]).0@ by {
                    assert(lg_orig[a].0@ != lg_orig[b].0@);
                };
            }
        }

        Ok(
            HealthMonitor {
                deadline_monitors,
                heartbeat_monitors,
                logic_monitors,
                supervisor_api_cycle_ms: supervisor_cycle,
                internal_processing_cycle_ms: internal_cycle,
            },
        )
    }
}

/// Health monitor: the built monitors, each handed out at most once, and
/// the two cycle durations the worker will run with.
pub struct HealthMonitor {
    deadline_monitors: MonitorRegistry<DeadlineMonitor>,
    heartbeat_monitors: MonitorRegistry<HeartbeatMonitor>,
    logic_monitors: MonitorRegistry<LogicMonitor>,
    supervisor_api_cycle_ms: u32,
    internal_processing_cycle_ms: u32,
}

impl HealthMonitor {
    /// Number of registered deadline monitors.
    pub closed spec fn dm_count(self) -> int {
        self.deadline_monitors.count()
    }

    /// Tag content of deadline monitor entry `i`.
    pub closed spec fn dm_tag_at(self, i: int) -> Seq<char> {
        self.deadline_monitors.tag_at(i)
    }

    /// Container of deadline monitor entry `i`.
    pub closed spec fn dm_entry_at(self, i: int) -> MonitorState<DeadlineMonitor> {
        self.deadline_monitors.entry_at(i)
    }

    /// Whether deadline monitor entry `i` has been taken.
    pub closed spec fn dm_taken_at(self, i: int) -> bool {
        self.deadline_monitors.taken_at(i)
    }

    /// Whether a deadline monitor with this tag is registered.
    pub closed spec fn has_dm_tag(self, t: Seq<char>) -> bool {
        self.deadline_monitors.has_tag(t)
    }

    /// The deadline monitor entry carrying tag `t`.
    pub closed spec fn dm_index_of(self, t: Seq<char>) -> int {
        self.deadline_monitors.index_of(t)
    }

    /// Number of registered heartbeat monitors.
    pub closed spec fn hb_count(self) -> int {
        self.heartbeat_monitors.count()
    }

    /// Tag content of heartbeat monitor entry `i`.
    pub closed spec fn hb_tag_at(self, i: int) -> Seq<char> {
        self.heartbeat_monitors.tag_at(i)
    }

    /// Container of heartbeat monitor entry `i`.
    pub closed spec fn hb_entry_at(self, i: int) -> MonitorState<HeartbeatMonitor> {
        self.heartbeat_monitors.entry_at(i)
    }

    /// Whether heartbeat monitor entry `i` has been taken.
    pub closed spec fn hb_taken_at(self, i: int) -> bool {
        self.heartbeat_monitors.taken_at(i)
    }

    /// Whether a heartbeat monitor with this tag is registered.
    pub closed spec fn has_hb_tag(self, t: Seq<char>) -> bool {
        self.heartbeat_monitors.has_tag(t)
    }

    /// The heartbeat monitor entry carrying tag `t`.
    pub closed spec fn hb_index_of(self, t: Seq<char>) -> int {
        self.heartbeat_monitors.index_of(t)
    }

    /// Number of registered logic monitors.
    pub closed spec fn lg_count(self) -> int {
        self.logic_monitors.count()
    }

    /// Tag content of logic monitor entry `i`.
    pub closed spec fn lg_tag_at(self, i: int) -> Seq<char> {
        self.logic_monitors.tag_at(i)
    }

    /// Container of logic monitor entry `i`.
    pub closed spec fn lg_entry_at(self, i: int) -> MonitorState<LogicMonitor> {
        self.logic_monitors.entry_at(i)
    }

    /// Whether logic monitor entry `i` has been taken.
    pub closed spec fn lg_taken_at(self, i: int) -> bool {
        self.logic_monitors.taken_at(i)
    }

    /// Whether a logic monitor with this tag is registered.
    pub closed spec fn has_lg_tag(self, t: Seq<char>) -> bool {
        self.logic_monitors.has_tag(t)
    }

    /// The logic monitor entry carrying tag `t`.
    pub closed spec fn lg_index_of(self, t: Seq<char>) -> int {
        self.logic_monitors.index_of(t)
    }

    /// The configured interval between supervisor notifications.
    pub closed spec fn spec_supervisor_cycle(self) -> u32 {
        self.supervisor_api_cycle_ms
    }

    /// The configured interval between monitor evaluations.
    pub closed spec fn spec_internal_cycle(self) -> u32 {
        self.internal_processing_cycle_ms
    }

    /// Tags are unique per kind.
    pub closed spec fn wf(self) -> bool {
        &&& self.deadline_monitors.wf()
        &&& self.heartbeat_monitors.wf()
        &&& self.logic_monitors.wf()
    }

    /// Every registered monitor of every kind has been taken out.
    pub open spec fn all_taken(self) -> bool {
        &&& forall|i: int| 0 <= i < self.dm_count() ==> #[trigger] self.dm_taken_at(i)
        &&& forall|i: int| 0 <= i < self.hb_count() ==> #[trigger] self.hb_taken_at(i)
        &&& forall|i: int| 0 <= i < self.lg_count() ==> #[trigger] self.lg_taken_at(i)
    }

    /// Total number of registered monitors.
    pub open spec fn total_count(self) -> int {
        self.dm_count() + self.hb_count() + self.lg_count()
    }

    /// The configured interval between supervisor notifications.
    pub fn supervisor_api_cycle_ms(&self) -> (r: u32)
        ensures
            r == self.spec_supervisor_cycle(),
    {
        self.supervisor_api_cycle_ms
    }

    /// The configured interval between monitor evaluations.
    pub fn internal_processing_cycle_ms(&self) -> (r: u32)
        ensures
            r == self.spec_internal_cycle(),
    {
        self.internal_processing_cycle_ms
    }

    /// Get and pass ownership of the [`DeadlineMonitor`] registered under
    /// the given tag. The monitor is handed out at most once: a second call
    /// returns `None`, as does a call with an unknown tag.
    pub fn get_deadline_monitor(&mut self, monitor_tag: MonitorTag) -> (r: Option<DeadlineMonitor>)
        requires
            old(self).wf(),
        ensures
            final(self).wf(),
            take_outcome_dm(*old(self), *final(self), monitor_tag@, r),
    {
        self.deadline_monitors.take(&monitor_tag)
    }

    /// Get and pass ownership of the [`HeartbeatMonitor`] registered under
    /// the given tag. The monitor is handed out at most once: a second call
    /// returns `None`, as does a call with an unknown tag.
    pub fn get_heartbeat_monitor(&mut self, monitor_tag: MonitorTag) -> (r: Option<
        HeartbeatMonitor,
    >)
        requires
            old(self).wf(),
        ensures
            final(self).wf(),
            take_outcome_hb(*old(self), *final(self), monitor_tag@, r),
    {
        self.heartbeat_monitors.take(&monitor_tag)
    }

    /// Get and pass ownership of the [`LogicMonitor`] registered under the
    /// given tag. The monitor is handed out at most once: a second call
    /// returns `None`, as does a call with an unknown tag.
    pub fn get_logic_monitor(&mut self, monitor_tag: MonitorTag) -> (r: Option<LogicMonitor>)
        requires
            old(self).wf(),
        ensures
            final(self).wf(),
            take_outcome_lg(*old(self), *final(self), monitor_tag@, r),
    {
        self.logic_monitors.take(&monitor_tag)
    }

    /// Declare the configuration complete so the worker can be started.
    ///
    /// Succeeds exactly when at least one monitor is registered and every
    /// registered monitor has been taken; otherwise fails with `WrongState`
    /// and the worker must not run. Nothing is modified either way.
    pub fn start(&mut self) -> (r: Result<(), HealthMonitorError>)
        requires
            old(self).wf(),
        ensures
            *final(self) == *old(self),
            r is Ok <==> old(self).total_count() > 0 && old(self).all_taken(),
            r is Err ==> r == Err::<(), HealthMonitorError>(HealthMonitorError::WrongState),
    {
        if self.deadline_monitors.len() == 0 && self.heartbeat_monitors.len() == 0
            && self.logic_monitors.len() == 0 {
            return Err(HealthMonitorError::WrongState);
        }
        if !self.deadline_monitors.check_all_taken() {
            proof {
                lemma_registry_not_all_taken_dm(*self);
            }
            return Err(HealthMonitorError::WrongState);
        }
        if !self.heartbeat_monitors.check_all_taken() {
            proof {
                lemma_registry_not_all_taken_hb(*self);
            }
            return Err(HealthMonitorError::WrongState);
        }
        if !self.logic_monitors.check_all_taken() {
            proof {
                lemma_registry_not_all_taken_lg(*self);
            }
            return Err(HealthMonitorError::WrongState);
        }
        proof {
            assert forall|i: int| 0 <= i < self.dm_count() implies #[trigger] self.dm_taken_at(
                i,
            ) by {
                assert(self.deadline_monitors.taken_at(i));
            };
            assert forall|i: int| 0 <= i < self.hb_count() implies #[trigger] self.hb_taken_at(
                i,
            ) by {
                assert(self.heartbeat_monitors.taken_at(i));
            };
            assert forall|i: int| 0 <= i < self.lg_count() implies #[trigger] self.lg_taken_at(
                i,
            ) by {
                assert(self.logic_monitors.taken_at(i));
            };
        }
        Ok(())
    }
}

/// A deadline registry with an untaken entry refutes `all_taken` of its
/// health monitor.
proof fn lemma_registry_not_all_taken_dm(m: HealthMonitor)
    requires
        !m.deadline_monitors.all_taken(),
    ensures
        !m.all_taken(),
{
    let j = choose|j: int|
        !(0 <= j < m.deadline_monitors.count() ==> #[trigger] m.deadline_monitors.taken_at(j));
    assert(0 <= j < m.dm_count() && !m.dm_taken_at(j));
}

/// A heartbeat registry with an untaken entry refutes `all_taken` of its
/// health monitor.
proof fn lemma_registry_not_all_taken_hb(m: HealthMonitor)
    requires
        !m.heartbeat_monitors.all_taken(),
    ensures
        !m.all_taken(),
{
    let j = choose|j: int|
        !(0 <= j < m.heartbeat_monitors.count() ==> #[trigger] m.heartbeat_monitors.taken_at(j));
    assert(0 <= j < m.hb_count() && !m.hb_taken_at(j));
}

/// A logic registry with an untaken entry refutes `all_taken` of its
/// health monitor.
proof fn lemma_registry_not_all_taken_lg(m: HealthMonitor)
    requires
        !m.logic_monitors.all_taken(),
    ensures
        !m.all_taken(),
{
    let j = choose|j: int|
        !(0 <= j < m.logic_monitors.count() ==> #[trigger] m.logic_monitors.taken_at(j));
    assert(0 <= j < m.lg_count() && !m.lg_taken_at(j));
}

/// The take-once contract for deadline monitors: an unknown tag and an
/// already-taken monitor return `None` and change nothing; an available
/// monitor is moved out once and its container marked `Taken`. Entries of
/// the other kinds are never touched.
pub open spec fn take_outcome_dm(
    before: HealthMonitor,
    after: HealthMonitor,
    t: Seq<char>,
    r: Option<DeadlineMonitor>,
) -> bool {
    &&& after.dm_count() == before.dm_count()
    &&& forall|i: int| 0 <= i < after.dm_count() ==> after.dm_tag_at(i) == before.dm_tag_at(i)
    &&& (!before.has_dm_tag(t) ==> r is None && after == before)
    &&& (before.has_dm_tag(t) && before.dm_taken_at(before.dm_index_of(t)) ==> r is None && after
        == before)
    &&& (before.has_dm_tag(t) && !before.dm_taken_at(before.dm_index_of(t)) ==> ((
    r matches Some(m) && before.dm_entry_at(before.dm_index_of(t)) == MonitorState::Available(m))
        && after.dm_taken_at(before.dm_index_of(t))))
    &&& forall|i: int|
        0 <= i < after.dm_count() && i != before.dm_index_of(t) ==> after.dm_entry_at(i)
            == before.dm_entry_at(i)
    &&& after.hb_count() == before.hb_count()
    &&& forall|i: int| 0 <= i < after.hb_count() ==> after.hb_entry_at(i) == before.hb_entry_at(i)
    &&& forall|i: int| 0 <= i < after.hb_count() ==> after.hb_tag_at(i) == before.hb_tag_at(i)
    &&& after.lg_count() == before.lg_count()
    &&& forall|i: int| 0 <= i < after.lg_count() ==> after.lg_entry_at(i) == before.lg_entry_at(i)
    &&& forall|i: int| 0 <= i < after.lg_count() ==> after.lg_tag_at(i) == before.lg_tag_at(i)
    &&& after.spec_supervisor_cycle() == before.spec_supervisor_cycle()
    &&& after.spec_internal_cycle() == before.spec_internal_cycle()
}

/// The take-once contract for heartbeat monitors; see [`take_outcome_dm`].
pub open spec fn take_outcome_hb(
    before: HealthMonitor,
    after: HealthMonitor,
    t: Seq<char>,
    r: Option<HeartbeatMonitor>,
) -> bool {
    &&& after.hb_count() == before.hb_count()
    &&& forall|i: int| 0 <= i < after.hb_count() ==> after.hb_tag_at(i) == before.hb_tag_at(i)
    &&& (!before.has_hb_tag(t) ==> r is None && after == before)
    &&& (before.has_hb_tag(t) && before.hb_taken_at(before.hb_index_of(t)) ==> r is None && after
        == before)
    &&& (before.has_hb_tag(t) && !before.hb_taken_at(before.hb_index_of(t)) ==> ((
    r matches Some(m) && before.hb_entry_at(before.hb_index_of(t)) == MonitorState::Available(m))
        && after.hb_taken_at(before.hb_index_of(t))))
    &&& forall|i: int|
        0 <= i < after.hb_count() && i != before.hb_index_of(t) ==> after.hb_entry_at(i)
            == before.hb_entry_at(i)
    &&& after.dm_count() == before.dm_count()
    &&& forall|i: int| 0 <= i < after.dm_count() ==> after.dm_entry_at(i) == before.dm_entry_at(i)
    &&& forall|i: int| 0 <= i < after.dm_count() ==> after.dm_tag_at(i) == before.dm_tag_at(i)
    &&& after.lg_count() == before.lg_count()
    &&& forall|i: int| 0 <= i < after.lg_count() ==> after.lg_entry_at(i) == before.lg_entry_at(i)
    &&& forall|i: int| 0 <= i < after.lg_count() ==> after.lg_tag_at(i) == before.lg_tag_at(i)
    &&& after.spec_supervisor_cycle() == before.spec_supervisor_cycle()
    &&& after.spec_internal_cycle() == before.spec_internal_cycle()
}

/// The take-once contract for logic monitors; see [`take_outcome_dm`].
pub open spec fn take_outcome_lg(
    before: HealthMonitor,
    after: HealthMonitor,
    t: Seq<char>,
    r: Option<LogicMonitor>,
) -> bool {
    &&& after.lg_count() == before.lg_count()
    &&& forall|i: int| 0 <= i < after.lg_count() ==> after.lg_tag_at(i) == before.lg_tag_at(i)
    &&& (!before.has_lg_tag(t) ==> r is None && after == before)
    &&& (before.has_lg_tag(t) && before.lg_taken_at(before.lg_index_of(t)) ==> r is None && after
        == before)
    &&& (before.has_lg_tag(t) && !before.lg_taken_at(before.lg_index_of(t)) ==> ((
    r matches Some(m) && before.lg_entry_at(before.lg_index_of(t)) == MonitorState::Available(m))
        && after.lg_taken_at(before.lg_index_of(t))))
    &&& forall|i: int|
        0 <= i < after.lg_count() && i != before.lg_index_of(t) ==> after.lg_entry_at(i)
            == before.lg_entry_at(i)
    &&& after.dm_count() == before.dm_count()
    &&& forall|i: int| 0 <= i < after.dm_count() ==> after.dm_entry_at(i) == before.dm_entry_at(i)
    &&& forall|i: int| 0 <= i < after.dm_count() ==> after.dm_tag_at(i) == before.dm_tag_at(i)
    &&& after.hb_count() == before.hb_count()
    &&& forall|i: int| 0 <= i < after.hb_count() ==> after.hb_entry_at(i) == before.hb_entry_at(i)
    &&& forall|i: int| 0 <= i < after.hb_count() ==> after.hb_tag_at(i) == before.hb_tag_at(i)
    &&& after.spec_supervisor_cycle() == before.spec_supervisor_cycle()
    &&& after.spec_internal_cycle() == before.spec_internal_cycle()
}

} // verus!
