use health_monitor::common::{ProtectedMemoryAllocator, TimeRange};
use health_monitor::heartbeat_monitor::{
    HeartbeatEvaluationError, HeartbeatMonitor, HeartbeatMonitorBuilder,
};
use health_monitor::tag::MonitorTag;
use health_monitor::HealthMonitorError;

const TAG: &str = "heartbeat_monitor";

fn range_from_ms(min: u32, max: u32) -> TimeRange {
    TimeRange::new(min, max)
}

#[test]
fn heartbeat_monitor_builder_build_ok() {
    let range = TimeRange::new(500, 1000);
    let monitor_tag = MonitorTag::from_str("heartbeat_monitor");
    let internal_processing_cycle: u32 = 100;
    let allocator = ProtectedMemoryAllocator {};
    let result =
        HeartbeatMonitorBuilder::new(range).build(monitor_tag, internal_processing_cycle, &allocator);
    assert!(result.is_ok());
}

#[test]
fn heartbeat_monitor_builder_build_invalid_internal_processing_cycle() {
    let range = TimeRange::new(500, 1000);
    let monitor_tag = MonitorTag::from_str("heartbeat_monitor");
    let internal_processing_cycle: u32 = 1000;
    let allocator = ProtectedMemoryAllocator {};
    let result =
        HeartbeatMonitorBuilder::new(range).build(monitor_tag, internal_processing_cycle, &allocator);
    assert!(result.is_err_and(|e| e == HealthMonitorError::InvalidArgument));
}

fn create_monitor_single_cycle(range: TimeRange) -> HeartbeatMonitor {
    let monitor_tag = MonitorTag::from_str(TAG);
    let internal_processing_cycle: u32 = 1;
    let allocator = ProtectedMemoryAllocator {};
    HeartbeatMonitorBuilder::new(range)
        .build(monitor_tag, internal_processing_cycle, &allocator)
        .unwrap()
}

#[test]
fn heartbeat_monitor_no_beat_evaluate_early() {
    let range = range_from_ms(80, 120);
    let mut monitor = create_monitor_single_cycle(range);

    // No beat happened and the window has not closed: no error is expected.
    let result = monitor.evaluate(0, 0);
    assert!(result.is_none(), "error happened: {result:?}");
}

#[test]
fn heartbeat_monitor_no_beat_evaluate_in_range() {
    let range = range_from_ms(80, 120);
    let mut monitor = create_monitor_single_cycle(range);

    // Middle of the window: no beat happened, no error is expected.
    let result = monitor.evaluate(0, 100);
    assert!(result.is_none(), "error happened: {result:?}");
}

#[test]
fn heartbeat_monitor_no_beat_evaluate_late() {
    let range = range_from_ms(80, 120);
    let mut monitor = create_monitor_single_cycle(range);

    // Past the window with no beat: too late error is expected.
    let result = monitor.evaluate(0, 150);
    assert_eq!(result, Some(HeartbeatEvaluationError::TooLate));
}

fn beat_eval_test(beat_ms: u32, eval_ms: u32) -> Option<HeartbeatEvaluationError> {
    let range = range_from_ms(80, 120);
    let mut monitor = create_monitor_single_cycle(range);

    monitor.heartbeat(beat_ms);
    monitor.evaluate(0, eval_ms)
}

fn beat_early_test(eval_ms: u32) {
    let result = beat_eval_test(25, eval_ms);
    assert_eq!(result, Some(HeartbeatEvaluationError::TooEarly));
}

#[test]
fn heartbeat_monitor_beat_early_evaluate_early() {
    beat_early_test(50);
}

#[test]
fn heartbeat_monitor_beat_early_evaluate_in_range() {
    beat_early_test(100);
}

#[test]
fn heartbeat_monitor_beat_early_evaluate_late() {
    beat_early_test(150);
}

fn beat_in_range_test(eval_ms: u32) {
    let result = beat_eval_test(90, eval_ms);
    assert!(result.is_none(), "error happened: {result:?}");
}

#[test]
fn heartbeat_monitor_beat_in_range_evaluate_in_range() {
    beat_in_range_test(100);
}

#[test]
fn heartbeat_monitor_beat_in_range_evaluate_late() {
    beat_in_range_test(150);
}

#[test]
fn heartbeat_monitor_beat_late_evaluate_late() {
    let result = beat_eval_test(150, 200);
    assert_eq!(result, Some(HeartbeatEvaluationError::TooLate));
}

fn multiple_beats_eval_test(beat_ms: u32, eval_ms: u32) {
    let range = range_from_ms(80, 120);
    let mut monitor = create_monitor_single_cycle(range);

    let num_beats: usize = 10;
    for _ in 0..num_beats {
        monitor.heartbeat(beat_ms);
    }

    let result = monitor.evaluate(0, eval_ms);
    assert_eq!(result, Some(HeartbeatEvaluationError::MultipleHeartbeats));
}

#[test]
fn heartbeat_monitor_multiple_beats_early_evaluate_early() {
    multiple_beats_eval_test(25, 50)
}

#[test]
fn heartbeat_monitor_multiple_beats_early_evaluate_in_range() {
    multiple_beats_eval_test(25, 100)
}

#[test]
fn heartbeat_monitor_multiple_beats_early_evaluate_late() {
    multiple_beats_eval_test(25, 150)
}

#[test]
fn heartbeat_monitor_multiple_beats_in_range_evaluate_in_range() {
    multiple_beats_eval_test(90, 100)
}

#[test]
fn heartbeat_monitor_multiple_beats_in_range_evaluate_late() {
    multiple_beats_eval_test(90, 150)
}

#[test]
fn heartbeat_monitor_multiple_beats_late_evaluate_late() {
    multiple_beats_eval_test(150, 200)
}

#[test]
fn heartbeat_monitor_cycle_in_range() {
    // Beats spaced 100 ms apart inside [80, 120]; evaluations between beats
    // must stay silent and each beat begins the next cycle.
    let range = range_from_ms(80, 120);
    let mut monitor = create_monitor_single_cycle(range);

    let mut now: u32 = 0;
    for _ in 0..3 {
        now += 100;
        monitor.heartbeat(now);
        let result = monitor.evaluate(0, now + 10);
        assert!(result.is_none(), "error happened: {result:?}");
    }
}

#[test]
fn heartbeat_monitor_cycle_early() {
    // Two clean cycles, then a beat only 60 ms after the previous one.
    let range = range_from_ms(80, 120);
    let mut monitor = create_monitor_single_cycle(range);

    monitor.heartbeat(100);
    assert!(monitor.evaluate(0, 110).is_none());
    monitor.heartbeat(200);
    assert!(monitor.evaluate(0, 210).is_none());

    monitor.heartbeat(260);
    let result = monitor.evaluate(0, 270);
    assert_eq!(result, Some(HeartbeatEvaluationError::TooEarly));
}

#[test]
fn heartbeat_monitor_cycle_late() {
    // Two clean cycles, then a beat 140 ms after the previous one.
    let range = range_from_ms(80, 120);
    let mut monitor = create_monitor_single_cycle(range);

    monitor.heartbeat(100);
    assert!(monitor.evaluate(0, 110).is_none());
    monitor.heartbeat(200);
    assert!(monitor.evaluate(0, 210).is_none());

    monitor.heartbeat(340);
    let result = monitor.evaluate(0, 350);
    assert_eq!(result, Some(HeartbeatEvaluationError::TooLate));
}

#[test]
fn heartbeat_monitor_timestamp_offset() {
    // The monitor was created 300 ms before the health monitor's starting
    // point; a first beat 90 ms into the health monitor's time base lands
    // inside the window measured from that offset.
    let range = range_from_ms(80, 120);
    let mut monitor = create_monitor_single_cycle(range);

    let offset: u32 = 300;
    monitor.heartbeat(offset + 90);
    let result = monitor.evaluate(offset, offset + 100);
    assert!(result.is_none(), "error happened: {result:?}");
}
