use health_monitor::common::{MonitorEvaluationError, ProtectedMemoryAllocator};
use health_monitor::logic_monitor::{LogicEvaluationError, LogicMonitorBuilder};
use health_monitor::tag::{MonitorTag, StateTag};
use health_monitor::HealthMonitorError;

#[test]
fn logic_monitor_builder_new_succeeds() {
    let from_state = StateTag::from_str("from");
    let builder = LogicMonitorBuilder::new(from_state.clone());
    assert_eq!(builder.initial_state(), &from_state);
    assert_eq!(builder.allowed_states(), &vec![from_state]);
    assert!(builder.allowed_transitions().is_empty());
}

#[test]
fn logic_monitor_builder_build_succeeds() {
    let allocator = ProtectedMemoryAllocator {};
    let monitor_tag = MonitorTag::from_str("logic_monitor");
    let from_state = StateTag::from_str("from");
    let to_state = StateTag::from_str("to");
    let result = LogicMonitorBuilder::new(from_state.clone())
        .add_state(to_state.clone())
        .add_transition((from_state, to_state))
        .build(monitor_tag, &allocator);
    assert!(result.is_ok());
}

#[test]
fn logic_monitor_builder_build_no_transitions() {
    let allocator = ProtectedMemoryAllocator {};
    let monitor_tag = MonitorTag::from_str("logic_monitor");
    let from_state = StateTag::from_str("from");
    let result = LogicMonitorBuilder::new(from_state).build(monitor_tag, &allocator);
    assert!(result.is_err_and(|e| e == HealthMonitorError::WrongState));
}

#[test]
fn logic_monitor_builder_build_unknown_nodes() {
    let allocator = ProtectedMemoryAllocator {};
    let from_state = StateTag::from_str("from");
    let to_state = StateTag::from_str("to");

    // Unknown "from".
    let result = LogicMonitorBuilder::new(from_state.clone())
        .add_state(to_state.clone())
        .add_transition((StateTag::from_str("unknown"), to_state.clone()))
        .build(MonitorTag::from_str("logic_monitor"), &allocator);
    assert!(result.is_err_and(|e| e == HealthMonitorError::InvalidArgument));

    // Unknown "to".
    let result = LogicMonitorBuilder::new(from_state.clone())
        .add_state(to_state)
        .add_transition((from_state, StateTag::from_str("unknown")))
        .build(MonitorTag::from_str("logic_monitor"), &allocator);
    assert!(result.is_err_and(|e| e == HealthMonitorError::InvalidArgument));
}

#[test]
fn logic_monitor_transition_succeeds() {
    let allocator = ProtectedMemoryAllocator {};
    let monitor_tag = MonitorTag::from_str("logic_monitor");
    let from_state = StateTag::from_str("from");
    let to_state = StateTag::from_str("to");
    let mut monitor = LogicMonitorBuilder::new(from_state.clone())
        .add_state(to_state.clone())
        .add_transition((from_state, to_state.clone()))
        .build(monitor_tag, &allocator)
        .unwrap();

    let result = monitor.transition(to_state.clone());
    assert!(result.is_ok_and(|s| s == to_state));
}

#[test]
fn logic_monitor_transition_unknown_node() {
    let allocator = ProtectedMemoryAllocator {};
    let monitor_tag = MonitorTag::from_str("logic_monitor");
    let from_state = StateTag::from_str("from");
    let to_state = StateTag::from_str("to");
    let mut monitor = LogicMonitorBuilder::new(from_state.clone())
        .add_state(to_state.clone())
        .add_transition((from_state, to_state))
        .build(monitor_tag, &allocator)
        .unwrap();

    let result = monitor.transition(StateTag::from_str("unknown"));
    assert!(result.is_err_and(|e| e == LogicEvaluationError::InvalidState));
}

#[test]
fn logic_monitor_transition_indeterminate_current_state() {
    let allocator = ProtectedMemoryAllocator {};
    let monitor_tag = MonitorTag::from_str("logic_monitor");
    let from_state = StateTag::from_str("from");
    let to_state = StateTag::from_str("to");
    let mut monitor = LogicMonitorBuilder::new(from_state.clone())
        .add_state(to_state.clone())
        .add_transition((from_state, to_state.clone()))
        .build(monitor_tag, &allocator)
        .unwrap();

    // Trying to transition into an unknown state latches the monitor.
    let _ = monitor.transition(StateTag::from_str("unknown"));

    // Try to move to a known state.
    let result = monitor.transition(to_state);
    assert!(result.is_err_and(|e| e == LogicEvaluationError::InvalidState));
}

#[test]
fn logic_monitor_transition_invalid_transition() {
    let allocator = ProtectedMemoryAllocator {};
    let monitor_tag = MonitorTag::from_str("logic_monitor");
    let state1 = StateTag::from_str("state1");
    let state2 = StateTag::from_str("state2");
    let state3 = StateTag::from_str("state3");
    let mut monitor = LogicMonitorBuilder::new(state1.clone())
        .add_state(state2.clone())
        .add_state(state3.clone())
        .add_transition((state1, state2.clone()))
        .add_transition((state2, state3.clone()))
        .build(monitor_tag, &allocator)
        .unwrap();

    let result = monitor.transition(state3);
    assert!(result.is_err_and(|e| e == LogicEvaluationError::InvalidTransition));
}

#[test]
fn logic_monitor_state_succeeds() {
    let allocator = ProtectedMemoryAllocator {};
    let monitor_tag = MonitorTag::from_str("logic_monitor");
    let state1 = StateTag::from_str("state1");
    let state2 = StateTag::from_str("state2");
    let state3 = StateTag::from_str("state3");
    let mut monitor = LogicMonitorBuilder::new(state1.clone())
        .add_state(state2.clone())
        .add_state(state3.clone())
        .add_transition((state1.clone(), state2.clone()))
        .add_transition((state2.clone(), state3.clone()))
        .build(monitor_tag, &allocator)
        .unwrap();

    // Check state, perform transition to the next one.
    let result = monitor.state();
    assert!(result.is_ok_and(|s| s == state1));

    let _ = monitor.transition(state2.clone());
    let result = monitor.state();
    assert!(result.is_ok_and(|s| s == state2));

    let _ = monitor.transition(state3.clone());
    let result = monitor.state();
    assert!(result.is_ok_and(|s| s == state3));
}

#[test]
fn logic_monitor_state_indeterminate_current_state() {
    let allocator = ProtectedMemoryAllocator {};
    let monitor_tag = MonitorTag::from_str("logic_monitor");
    let from_state = StateTag::from_str("from");
    let to_state = StateTag::from_str("to");
    let mut monitor = LogicMonitorBuilder::new(from_state.clone())
        .add_state(to_state.clone())
        .add_transition((from_state, to_state))
        .build(monitor_tag, &allocator)
        .unwrap();

    // Trying to transition into an unknown state latches the monitor.
    let _ = monitor.transition(StateTag::from_str("unknown"));

    // Try to check state.
    let result = monitor.state();
    assert!(result.is_err_and(|e| e == LogicEvaluationError::InvalidState));
}

#[test]
fn logic_monitor_evaluate_succeeds() {
    let allocator = ProtectedMemoryAllocator {};
    let monitor_tag = MonitorTag::from_str("logic_monitor");
    let from_state = StateTag::from_str("from");
    let to_state = StateTag::from_str("to");
    let mut monitor = LogicMonitorBuilder::new(from_state.clone())
        .add_state(to_state.clone())
        .add_transition((from_state, to_state.clone()))
        .build(monitor_tag, &allocator)
        .unwrap();

    assert!(monitor.evaluate().is_none());

    let _ = monitor.transition(to_state);

    assert!(monitor.evaluate().is_none());
}

#[test]
fn logic_monitor_evaluate_invalid_state() {
    let allocator = ProtectedMemoryAllocator {};
    let monitor_tag = MonitorTag::from_str("logic_monitor");
    let from_state = StateTag::from_str("from");
    let to_state = StateTag::from_str("to");
    let mut monitor = LogicMonitorBuilder::new(from_state.clone())
        .add_state(to_state)
        .add_transition((from_state.clone(), StateTag::from_str("to")))
        .build(monitor_tag, &allocator)
        .unwrap();

    assert!(monitor.evaluate().is_none());

    let _ = monitor.transition(StateTag::from_str("unknown"));

    assert_eq!(monitor.evaluate(), Some(MonitorEvaluationError::InvalidState));
}

#[test]
fn logic_monitor_evaluate_invalid_transition() {
    let allocator = ProtectedMemoryAllocator {};
    let monitor_tag = MonitorTag::from_str("logic_monitor");
    let state1 = StateTag::from_str("state1");
    let state2 = StateTag::from_str("state2");
    let state3 = StateTag::from_str("state3");
    let mut monitor = LogicMonitorBuilder::new(state1.clone())
        .add_state(state2.clone())
        .add_state(state3.clone())
        .add_transition((state1, state2))
        .add_transition((StateTag::from_str("state2"), state3.clone()))
        .build(monitor_tag, &allocator)
        .unwrap();

    assert!(monitor.evaluate().is_none());

    let _ = monitor.transition(state3);

    assert_eq!(monitor.evaluate(), Some(MonitorEvaluationError::InvalidTransition));
}

#[test]
fn logic_monitor_fsm_scenario() {
    // States {Init, Running, Paused, Stopped} with the transitions
    // Init->Running, Running->Paused, Paused->Running, Running->Stopped.
    let allocator = ProtectedMemoryAllocator {};
    let init = StateTag::from_str("Init");
    let running = StateTag::from_str("Running");
    let paused = StateTag::from_str("Paused");
    let stopped = StateTag::from_str("Stopped");
    let mut monitor = LogicMonitorBuilder::new(init.clone())
        .add_state(running.clone())
        .add_state(paused.clone())
        .add_state(stopped.clone())
        .add_transition((init, running.clone()))
        .add_transition((running.clone(), paused.clone()))
        .add_transition((paused.clone(), running.clone()))
        .add_transition((running.clone(), stopped.clone()))
        .build(MonitorTag::from_str("fsm"), &allocator)
        .unwrap();

    assert!(monitor.transition(running).is_ok());
    assert!(monitor.transition(paused).is_ok());

    // Paused -> Stopped was never declared.
    let result = monitor.transition(stopped);
    assert!(result.is_err_and(|e| e == LogicEvaluationError::InvalidTransition));
    assert_eq!(monitor.evaluate(), Some(MonitorEvaluationError::InvalidTransition));
}
