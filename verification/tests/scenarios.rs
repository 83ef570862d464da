//! End-to-end scenarios: a health monitor is built and its monitors taken,
//! then the worker's evaluation loop is driven with explicit millisecond
//! timestamps in place of a background thread.

use std::cell::Cell;
use std::rc::Rc;

use health_monitor::alive_monitor::AliveMonitor;
use health_monitor::common::{MonitorEvaluationError, Status, TimeRange};
use health_monitor::deadline_monitor::DeadlineMonitorBuilder;
use health_monitor::heartbeat_monitor::{HeartbeatEvaluationError, HeartbeatMonitorBuilder};
use health_monitor::tag::{IdentTag, MonitorTag};
use health_monitor::worker::{MonitoringLogic, SupervisorAPIClient};
use health_monitor::HealthMonitorBuilder;

#[derive(Clone)]
struct CountingClient {
    count: Rc<Cell<usize>>,
}

impl CountingClient {
    fn new() -> Self {
        Self { count: Rc::new(Cell::new(0)) }
    }
}

impl SupervisorAPIClient for CountingClient {
    fn notify_alive(&self) {
        self.count.set(self.count.get() + 1);
    }
}

#[test]
fn healthy_deadline_scenario() {
    // Deadline "d" with range [10 ms, 1000 ms]; supervisor cycle 100 ms,
    // internal cycle 50 ms. Start, work 250 ms, stop: the monitor stays
    // `Running` and at least one alive beat goes out.
    let mut deadline_builder = DeadlineMonitorBuilder::new();
    deadline_builder.add_deadline_internal(&IdentTag::from_str("d"), TimeRange::new(10, 1000));
    let mut hm = HealthMonitorBuilder::new()
        .add_deadline_monitor(MonitorTag::from_str("dm"), deadline_builder)
        .with_supervisor_api_cycle(100)
        .with_internal_processing_cycle(50)
        .build()
        .unwrap();

    let mut monitor = hm.get_deadline_monitor(MonitorTag::from_str("dm")).unwrap();
    assert!(hm.start().is_ok());

    let deadline = monitor.get_deadline(&IdentTag::from_str("d")).unwrap();
    deadline.start(&mut monitor, 0).unwrap();
    let stopped = deadline.stop(&mut monitor, 250);
    assert!(stopped.is_ok());

    // Worker iterations every 50 ms after the stop.
    let client = CountingClient::new();
    let mut logic = MonitoringLogic::new(100, client.clone(), 250);
    for step in 1..=4u64 {
        let now: u64 = 250 + step * 50;
        let reports = monitor.evaluate(now as u32);
        assert!(reports.is_empty());
        assert!(logic.run(!reports.is_empty(), now));
    }

    assert_eq!(monitor.status(), Status::Running);
    assert!(client.count.get() >= 1, "expected at least one alive beat");
}

#[test]
fn too_late_deadline_scenario() {
    // Same configuration; the timed section takes 2000 ms, far past the
    // 1000 ms maximum: stop fails, evaluation reports `TooLate`, and the
    // worker stops beating.
    let mut deadline_builder = DeadlineMonitorBuilder::new();
    deadline_builder.add_deadline_internal(&IdentTag::from_str("d"), TimeRange::new(10, 1000));
    let mut hm = HealthMonitorBuilder::new()
        .add_deadline_monitor(MonitorTag::from_str("dm"), deadline_builder)
        .with_supervisor_api_cycle(100)
        .with_internal_processing_cycle(50)
        .build()
        .unwrap();

    let mut monitor = hm.get_deadline_monitor(MonitorTag::from_str("dm")).unwrap();
    assert!(hm.start().is_ok());

    let deadline = monitor.get_deadline(&IdentTag::from_str("d")).unwrap();
    deadline.start(&mut monitor, 0).unwrap();
    let stopped = deadline.stop(&mut monitor, 2000);
    assert_eq!(stopped.err(), Some(MonitorEvaluationError::TooLate));

    let client = CountingClient::new();
    let mut logic = MonitoringLogic::new(100, client.clone(), 2000);
    let reports = monitor.evaluate(2050);
    assert_eq!(reports.len(), 1);
    assert_eq!(reports[0].1, MonitorEvaluationError::TooLate);
    assert!(!logic.run(!reports.is_empty(), 2050));
    assert_eq!(client.count.get(), 0);
    assert_eq!(monitor.status(), Status::Failed);
}

#[test]
fn heartbeat_cycles_scenario() {
    // Range [80 ms, 120 ms], internal processing cycle 20 ms. A beat every
    // 100 ms for 3 beats is clean; stretching the next interval to 160 ms
    // is reported as `TooLate`.
    let builder = HeartbeatMonitorBuilder::new(TimeRange::new(80, 120));
    let mut hm = HealthMonitorBuilder::new()
        .add_heartbeat_monitor(MonitorTag::from_str("hb"), builder)
        .with_supervisor_api_cycle(20)
        .with_internal_processing_cycle(20)
        .build()
        .unwrap();

    let mut monitor = hm.get_heartbeat_monitor(MonitorTag::from_str("hb")).unwrap();
    assert!(hm.start().is_ok());

    let mut now: u32 = 0;
    for _ in 0..3 {
        now += 100;
        monitor.heartbeat(now);
        let result = monitor.evaluate(0, now + 20);
        assert!(result.is_none(), "unexpected error: {result:?}");
    }

    now += 160;
    monitor.heartbeat(now);
    let result = monitor.evaluate(0, now + 20);
    assert_eq!(result, Some(HeartbeatEvaluationError::TooLate));
}

#[test]
fn alive_monitor_keeps_half_interval() {
    let monitor = AliveMonitor::new(1000);
    assert_eq!(monitor.get_heartbeat_interval(), 500);
    assert_eq!(monitor.last_heartbeat(), 0);
}

#[test]
fn alive_monitor_records_keep_alive() {
    let mut monitor = AliveMonitor::new(250);
    monitor.keep_alive(40);
    assert_eq!(monitor.last_heartbeat(), 40);
    monitor.keep_alive(90);
    assert_eq!(monitor.last_heartbeat(), 90);
    assert_eq!(monitor.get_heartbeat_interval(), 125);
}
