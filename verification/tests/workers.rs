use std::cell::Cell;
use std::rc::Rc;

use health_monitor::common::{MonitorEvaluationError, ProtectedMemoryAllocator, TimeRange};
use health_monitor::deadline_monitor::{DeadlineMonitor, DeadlineMonitorBuilder};
use health_monitor::tag::IdentTag;
use health_monitor::worker::{
    next_sleep_ms, MonitoringLogic, StubSupervisorAPIClient, SupervisorAPIClient,
};

#[derive(Clone)]
struct MockSupervisorAPIClient {
    notify_called: Rc<Cell<usize>>,
}

impl MockSupervisorAPIClient {
    fn new() -> Self {
        Self { notify_called: Rc::new(Cell::new(0)) }
    }

    fn get_notify_count(&self) -> usize {
        self.notify_called.get()
    }
}

impl SupervisorAPIClient for MockSupervisorAPIClient {
    fn notify_alive(&self) {
        self.notify_called.set(self.notify_called.get() + 1);
    }
}

fn create_monitor_with_deadlines() -> DeadlineMonitor {
    let allocator = ProtectedMemoryAllocator {};
    DeadlineMonitorBuilder::new()
        .add_deadline(&IdentTag::from_str("deadline_long"), TimeRange::new(1000, 50000))
        .add_deadline(&IdentTag::from_str("deadline_fast"), TimeRange::new(0, 50))
        .build(&allocator)
}

fn any_error(reports: &[(IdentTag, MonitorEvaluationError)]) -> bool {
    !reports.is_empty()
}

#[test]
fn monitoring_logic_report_error_when_deadline_failed() {
    let mut deadline_monitor = create_monitor_with_deadlines();
    let alive_mock = MockSupervisorAPIClient::new();
    let mut logic = MonitoringLogic::new(1000, alive_mock.clone(), 0);

    let deadline = deadline_monitor.get_deadline(&IdentTag::from_str("deadline_long")).unwrap();
    deadline.start(&mut deadline_monitor, 0).unwrap();
    // Stopping right away underruns the [1000, 50000] window.
    let _ = deadline.stop(&mut deadline_monitor, 0);

    let reports = deadline_monitor.evaluate(10);
    assert!(!logic.run(any_error(&reports), 10));
    assert_eq!(alive_mock.get_notify_count(), 0);
}

#[test]
fn monitoring_logic_report_alive_on_each_call_when_no_error() {
    let mut deadline_monitor = create_monitor_with_deadlines();
    let alive_mock = MockSupervisorAPIClient::new();
    // A zero cycle makes sure each call notifies alive.
    let mut logic = MonitoringLogic::new(0, alive_mock.clone(), 0);

    let deadline = deadline_monitor.get_deadline(&IdentTag::from_str("deadline_long")).unwrap();
    deadline.start(&mut deadline_monitor, 0).unwrap();

    for step in 0..5u64 {
        let reports = deadline_monitor.evaluate(step as u32);
        assert!(logic.run(any_error(&reports), step));
    }

    assert_eq!(alive_mock.get_notify_count(), 5);
}

#[test]
fn monitoring_logic_report_alive_respect_cycle() {
    let mut deadline_monitor = create_monitor_with_deadlines();
    let alive_mock = MockSupervisorAPIClient::new();
    let mut logic = MonitoringLogic::new(30, alive_mock.clone(), 0);

    let deadline = deadline_monitor.get_deadline(&IdentTag::from_str("deadline_long")).unwrap();
    deadline.start(&mut deadline_monitor, 0).unwrap();

    // One beat per 30 ms of elapsed time, two calls per interval.
    for step in 1..=10u64 {
        let now: u64 = step * 15;
        let reports = deadline_monitor.evaluate(now as u32);
        assert!(logic.run(any_error(&reports), now));
    }

    assert_eq!(alive_mock.get_notify_count(), 5);
}

#[test]
fn monitoring_logic_stops_after_fault_and_never_beats_again() {
    let alive_mock = MockSupervisorAPIClient::new();
    let mut logic = MonitoringLogic::new(0, alive_mock.clone(), 0);

    assert!(logic.run(false, 1));
    assert_eq!(alive_mock.get_notify_count(), 1);

    // A fault suppresses the beat of its own cycle and stops the worker.
    assert!(!logic.run(true, 2));
    assert_eq!(alive_mock.get_notify_count(), 1);
}

#[test]
fn monitoring_logic_tracks_last_notification() {
    let mut logic = MonitoringLogic::new(100, StubSupervisorAPIClient::new(), 50);
    assert_eq!(logic.last_notification_ms(), 50);

    // 100 ms have not elapsed yet.
    assert!(logic.run(false, 149));
    assert_eq!(logic.last_notification_ms(), 50);

    assert!(logic.run(false, 150));
    assert_eq!(logic.last_notification_ms(), 150);
}

#[test]
fn next_sleep_compensates_for_evaluation_time() {
    assert_eq!(next_sleep_ms(100, 30), 70);
    assert_eq!(next_sleep_ms(100, 100), 0);
    assert_eq!(next_sleep_ms(100, 250), 0);
}
