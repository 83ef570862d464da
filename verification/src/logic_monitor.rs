//! Logic monitor: a validator of declared state-machine transitions.
//!
//! The builder collects allowed states and allowed ordered transitions; the
//! built monitor validates each requested transition against them and
//! latches the first fault, which the worker observes on its next
//! evaluation. A latched fault is never cleared.

use vstd::prelude::*;

use crate::common::{MonitorEvaluationError, ProtectedMemoryAllocator};
use crate::tag::{MonitorTag, StateTag};
use crate::HealthMonitorError;

verus! {

/// Logic evaluation errors.
#[derive(Clone, Copy, Debug, PartialEq, Eq, Hash, Structural)]
pub enum LogicEvaluationError {
    /// State is unknown or cannot be determined.
    InvalidState,
    /// Transition is invalid.
    InvalidTransition,
}

impl LogicEvaluationError {
    /// The observation as surfaced to the worker.
    pub fn to_monitor_error(self) -> (r: MonitorEvaluationError)
        ensures
            r == match self {
                LogicEvaluationError::InvalidState => MonitorEvaluationError::InvalidState,
                LogicEvaluationError::InvalidTransition
                    => MonitorEvaluationError::InvalidTransition,
            },
    {
        match self {
            LogicEvaluationError::InvalidState => MonitorEvaluationError::InvalidState,
            LogicEvaluationError::InvalidTransition => MonitorEvaluationError::InvalidTransition,
        }
    }
}

/// Builder for [`LogicMonitor`].
pub struct LogicMonitorBuilder {
    initial_state: StateTag,
    allowed_states: Vec<StateTag>,
    allowed_transitions: Vec<(StateTag, StateTag)>,
}

impl LogicMonitorBuilder {
    /// Content of the starting state.
    pub closed spec fn spec_initial(self) -> Seq<char> {
        self.initial_state@
    }

    /// Contents of the allowed states, in registration order.
    pub closed spec fn states(self) -> Seq<Seq<char>> {
        self.allowed_states@.map_values(|t: StateTag| t@)
    }

    /// Contents of the allowed transitions, in registration order.
    pub closed spec fn transitions(self) -> Seq<(Seq<char>, Seq<char>)> {
        self.allowed_transitions@.map_values(|p: (StateTag, StateTag)| (p.0@, p.1@))
    }

    /// Create a new builder. The initial state is implicitly an allowed
    /// state.
    pub fn new(initial_state: StateTag) -> (r: Self)
        ensures
            r.spec_initial() == initial_state@,
            r.states() =~= seq![initial_state@],
            r.transitions() =~= Seq::<(Seq<char>, Seq<char>)>::empty(),
    {
        let first = initial_state.clone();
        let mut allowed_states: Vec<StateTag> = Vec::new();
        allowed_states.push(first);
        Self { initial_state, allowed_states, allowed_transitions: Vec::new() }
    }

    /// The starting state.
    pub fn initial_state(&self) -> (r: &StateTag)
        ensures
            r@ == self.spec_initial(),
    {
        &self.initial_state
    }

    /// The allowed states registered so far.
    pub fn allowed_states(&self) -> (r: &Vec<StateTag>)
        ensures
            r@.map_values(|t: StateTag| t@) == self.states(),
    {
        &self.allowed_states
    }

    /// The allowed transitions registered so far.
    pub fn allowed_transitions(&self) -> (r: &Vec<(StateTag, StateTag)>)
        ensures
            r@.map_values(|p: (StateTag, StateTag)| (p.0@, p.1@)) == self.transitions(),
    {
        &self.allowed_transitions
    }

    /// Add an allowed state; a state already present is not duplicated.
    pub fn add_state(self, state: StateTag) -> (r: Self)
        ensures
            r.spec_initial() == self.spec_initial(),
            r.transitions() =~= self.transitions(),
            self.states().contains(state@) ==> r.states() =~= self.states(),
            !self.states().contains(state@) ==> r.states() =~= self.states().push(state@),
    {
        let mut this = self;
        if !contains_state(&this.allowed_states, &state) {
            this.allowed_states.push(state);
        }
        this
    }

    /// Add an allowed transition; a transition already present is not
    /// duplicated.
    pub fn add_transition(self, transition: (StateTag, StateTag)) -> (r: Self)
        ensures
            r.spec_initial() == self.spec_initial(),
            r.states() =~= self.states(),
            self.transitions().contains((transition.0@, transition.1@)) ==> r.transitions()
                =~= self.transitions(),
            !self.transitions().contains((transition.0@, transition.1@)) ==> r.transitions()
                =~= self.transitions().push((transition.0@, transition.1@)),
    {
        let mut this = self;
        if !contains_transition(&this.allowed_transitions, &transition) {
            this.allowed_transitions.push(transition);
        }
        this
    }

    /// Every transition's endpoints are allowed states.
    pub open spec fn transitions_closed(self) -> bool {
        forall|i: int|
            0 <= i < self.transitions().len() ==> self.states().contains(
                (#[trigger] self.transitions()[i]).0,
            ) && self.states().contains(self.transitions()[i].1)
    }

    /// Build the [`LogicMonitor`].
    ///
    /// Fails with `WrongState` if no transitions were declared and with
    /// `InvalidArgument` if any transition references a state outside the
    /// allowed set.
    pub fn build(
        self,
        monitor_tag: MonitorTag,
        _allocator: &ProtectedMemoryAllocator,
    ) -> (r: Result<LogicMonitor, HealthMonitorError>)
        requires
            self.states().contains(self.spec_initial()),
        ensures
            r is Ok <==> self.transitions().len() > 0 && self.transitions_closed(),
            self.transitions().len() == 0 ==> r == Err::<LogicMonitor, HealthMonitorError>(
                HealthMonitorError::WrongState,
            ),
            self.transitions().len() > 0 && !self.transitions_closed() ==> r == Err::<
                LogicMonitor,
                HealthMonitorError,
            >(HealthMonitorError::InvalidArgument),
            r matches Ok(m) ==> {
                &&& m.wf()
                &&& m.spec_tag() == monitor_tag@
                &&& m.states() =~= self.states()
                &&& m.transitions() =~= self.transitions()
                &&& m.current() == self.spec_initial()
                &&& m.latch() is None
            },
    {
        if self.allowed_transitions.len() == 0 {
            return Err(HealthMonitorError::WrongState);
        }
        let n = self.allowed_transitions.len();
        let mut i: usize = 0;
        while i < n
            invariant
                n == self.allowed_transitions@.len(),
                i <= n,
                forall|j: int|
                    0 <= j < i ==> self.states().contains((#[trigger] self.transitions()[j]).0)
                        && self.states().contains(self.transitions()[j].1),
            decreases n - i,
        {
            let pair = &self.allowed_transitions[i];
            proof {
                assert(self.transitions()[i as int] == (pair.0@, pair.1@));
            }
            if !contains_state(&self.allowed_states, &pair.0) {
                proof {
                    assert(!self.transitions_closed());
                }
                return Err(HealthMonitorError::InvalidArgument);
            }
            if !contains_state(&self.allowed_states, &pair.1) {
                proof {
                    assert(!self.transitions_closed());
                }
                return Err(HealthMonitorError::InvalidArgument);
            }
            i += 1;
        }
        Ok(
            LogicMonitor {
                monitor_tag,
                current_state: self.initial_state,
                monitor_state: None,
                allowed_states: self.allowed_states,
                allowed_transitions: self.allowed_transitions,
            },
        )
    }
}

/// Whether `v` holds a state with the content of `s`.
fn contains_state(v: &Vec<StateTag>, s: &StateTag) -> (r: bool)
    ensures
        r == v@.map_values(|t: StateTag| t@).contains(s@),
{
    let n = v.len();
    let mut i: usize = 0;
    while i < n
        invariant
            n == v@.len(),
            i <= n,
            forall|j: int| 0 <= j < i ==> (#[trigger] v@[j])@ != s@,
        decreases n - i,
    {
        if v[i] == *s {
            proof {
                assert(v@.map_values(|t: StateTag| t@)[i as int] == s@);
            }
            return true;
        }
        i += 1;
    }
    false
}

/// Whether `v` holds a transition with the content of `t`.
fn contains_transition(v: &Vec<(StateTag, StateTag)>, t: &(StateTag, StateTag)) -> (r: bool)
    ensures
        r == v@.map_values(|p: (StateTag, StateTag)| (p.0@, p.1@)).contains((t.0@, t.1@)),
{
    let n = v.len();
    let mut i: usize = 0;
    while i < n
        invariant
            n == v@.len(),
            i <= n,
            forall|j: int|
                0 <= j < i ==> ((#[trigger] v@[j]).0@, v@[j].1@) != (t.0@, t.1@),
        decreases n - i,
    {
        let pair = &v[i];
        if pair.0 == t.0 && pair.1 == t.1 {
            proof {
                assert(v@.map_values(|p: (StateTag, StateTag)| (p.0@, p.1@))[i as int] == (
                    t.0@,
                    t.1@,
                ));
            }
            return true;
        }
        i += 1;
    }
    false
}

/// Logic monitor: validates state transitions against the declared machine
/// and latches the first fault.
pub struct LogicMonitor {
    monitor_tag: MonitorTag,
    current_state: StateTag,
    monitor_state: Option<LogicEvaluationError>,
    allowed_states: Vec<StateTag>,
    allowed_transitions: Vec<(StateTag, StateTag)>,
}

impl LogicMonitor {
    /// Tag content of this monitor.
    pub closed spec fn spec_tag(self) -> Seq<char> {
        self.monitor_tag@
    }

    /// Content of the current state.
    pub closed spec fn current(self) -> Seq<char> {
        self.current_state@
    }

    /// The latched fault, if any.
    pub closed spec fn latch(self) -> Option<LogicEvaluationError> {
        self.monitor_state
    }

    /// Contents of the allowed states.
    pub closed spec fn states(self) -> Seq<Seq<char>> {
        self.allowed_states@.map_values(|t: StateTag| t@)
    }

    /// Contents of the allowed transitions.
    pub closed spec fn transitions(self) -> Seq<(Seq<char>, Seq<char>)> {
        self.allowed_transitions@.map_values(|p: (StateTag, StateTag)| (p.0@, p.1@))
    }

    /// Well-formedness: the current state is an allowed state.
    pub open spec fn wf(self) -> bool {
        self.states().contains(self.current())
    }

    /// Perform a transition to a new state.
    ///
    /// With a latched fault, returns `InvalidState` and changes nothing.
    /// A request to an unknown state latches and returns `InvalidState`; a
    /// known state whose transition from the current state is not declared
    /// latches and returns `InvalidTransition`; otherwise the current state
    /// becomes the requested one and is handed back.
    pub fn transition(&mut self, state: StateTag) -> (r: Result<StateTag, LogicEvaluationError>)
        requires
            old(self).wf(),
        ensures
            final(self).wf(),
            final(self).spec_tag() == old(self).spec_tag(),
            final(self).states() =~= old(self).states(),
            final(self).transitions() =~= old(self).transitions(),
            old(self).latch() is Some ==> r == Err::<StateTag, LogicEvaluationError>(
                LogicEvaluationError::InvalidState,
            ) && final(self).latch() == old(self).latch() && final(self).current() == old(
                self,
            ).current(),
            old(self).latch() is None && !old(self).states().contains(state@) ==> r == Err::<
                StateTag,
                LogicEvaluationError,
            >(LogicEvaluationError::InvalidState) && final(self).latch() == Some(
                LogicEvaluationError::InvalidState,
            ) && final(self).current() == old(self).current(),
            old(self).latch() is None && old(self).states().contains(state@) && !old(
                self,
            ).transitions().contains((old(self).current(), state@)) ==> r == Err::<
                StateTag,
                LogicEvaluationError,
            >(LogicEvaluationError::InvalidTransition) && final(self).latch() == Some(
                LogicEvaluationError::InvalidTransition,
            ) && final(self).current() == old(self).current(),
            old(self).latch() is None && old(self).states().contains(state@) && old(
                self,
            ).transitions().contains((old(self).current(), state@)) ==> {
                &&& (r matches Ok(s) && s@ == state@)
                &&& final(self).latch() is None
                &&& final(self).current() == state@
            },
    {
        if self.monitor_state.is_some() {
            return Err(LogicEvaluationError::InvalidState);
        }
        if !contains_state(&self.allowed_states, &state) {
            self.monitor_state = Some(LogicEvaluationError::InvalidState);
            return Err(LogicEvaluationError::InvalidState);
        }
        let wanted = (self.current_state.clone(), state);
        if !contains_transition(&self.allowed_transitions, &wanted) {
            self.monitor_state = Some(LogicEvaluationError::InvalidTransition);
            return Err(LogicEvaluationError::InvalidTransition);
        }
        let (_, state) = wanted;
        let result = state.clone();
        self.current_state = state;
        Ok(result)
    }

    /// Current monitor state: `InvalidState` once a fault is latched, the
    /// current state's tag otherwise.
    pub fn state(&self) -> (r: Result<StateTag, LogicEvaluationError>)
        ensures
            self.latch() is Some ==> r == Err::<StateTag, LogicEvaluationError>(
                LogicEvaluationError::InvalidState,
            ),
            self.latch() is None ==> (r matches Ok(s) && s@ == self.current()),
    {
        if self.monitor_state.is_some() {
            return Err(LogicEvaluationError::InvalidState);
        }
        Ok(self.current_state.clone())
    }

    /// Evaluate the monitor: the latched fault, if any, as surfaced to the
    /// worker. Evaluation never clears the latch.
    pub fn evaluate(&self) -> (r: Option<MonitorEvaluationError>)
        ensures
            r == match self.latch() {
                None => None::<MonitorEvaluationError>,
                Some(LogicEvaluationError::InvalidState) => Some(
                    MonitorEvaluationError::InvalidState,
                ),
                Some(LogicEvaluationError::InvalidTransition) => Some(
                    MonitorEvaluationError::InvalidTransition,
                ),
            },
    {
        match self.monitor_state {
            None => None,
            Some(e) => Some(e.to_monitor_error()),
        }
    }
}

} // verus!
