use health_monitor::common::{
    DurationRange, Error, MonitorEvaluationError, ProtectedMemoryAllocator, Status, TimeRange,
};
use health_monitor::heartbeat_monitor::HeartbeatMonitorBuilder;
use health_monitor::tag::MonitorTag;
use health_monitor::HealthMonitorError;

#[test]
fn time_range_new_keeps_bounds() {
    let range = TimeRange::new(100, 200);
    assert_eq!(range.min, 100);
    assert_eq!(range.max, 200);
}

#[test]
fn time_range_point_window_is_allowed() {
    let range = TimeRange::try_new(50, 50).unwrap();
    assert_eq!(range.min, range.max);
}

#[test]
fn duration_range_new_and_from_millis_agree() {
    let a = DurationRange::new(3, 9);
    let b = DurationRange::from_millis(3, 9);
    assert_eq!(a, b);
    assert_eq!(a.min, 3);
    assert_eq!(a.max, 9);
}

#[test]
fn status_variants_are_distinct() {
    assert_ne!(Status::Running, Status::Failed);
    assert_ne!(Status::Disabled, Status::Stopped);
}

#[test]
fn error_variants_are_distinct() {
    assert_ne!(Error::BadParameter, Error::Generic);
    assert_ne!(Error::DoesNotExist, Error::NotAllowed);
    assert_ne!(Error::OutOfMemory, Error::Generic);
}

#[test]
fn monitor_evaluation_error_variants_are_distinct() {
    assert_ne!(MonitorEvaluationError::TooEarly, MonitorEvaluationError::TooLate);
    assert_ne!(
        MonitorEvaluationError::MultipleHeartbeats,
        MonitorEvaluationError::InvalidState
    );
    assert_ne!(
        MonitorEvaluationError::InvalidState,
        MonitorEvaluationError::InvalidTransition
    );
}

#[test]
fn heartbeat_build_boundary_is_strict() {
    // 2 * min must strictly exceed the internal processing cycle:
    // equality is rejected.
    let allocator = ProtectedMemoryAllocator {};
    let rejected = HeartbeatMonitorBuilder::new(TimeRange::new(50, 120)).build(
        MonitorTag::from_str("hb"),
        100,
        &allocator,
    );
    assert!(rejected.is_err_and(|e| e == HealthMonitorError::InvalidArgument));

    let accepted = HeartbeatMonitorBuilder::new(TimeRange::new(51, 120)).build(
        MonitorTag::from_str("hb"),
        100,
        &allocator,
    );
    assert!(accepted.is_ok());
}
