//! Worker decision logic: when to emit the supervisor-API alive beat, and
//! how to pace the evaluation loop.
//!
//! The worker thread itself lives with the embedder: each iteration it
//! evaluates every monitor handle, folds the observations into a single
//! any-error flag, and drives this state machine with the flag and the
//! current wall-clock milliseconds. The machine decides whether to notify
//! the supervisor and whether to keep running.

use vstd::prelude::*;

verus! {

/// An abstraction over the API used to notify the supervisor about process
/// liveness. The embedder implements it; a no-op stub is provided for tests
/// and for builds without the real integration.
pub trait SupervisorAPIClient {
    /// Report liveness to the external supervisor.
    fn notify_alive(&self);
}

/// A stub implementation of [`SupervisorAPIClient`] that does nothing.
pub struct StubSupervisorAPIClient;

impl StubSupervisorAPIClient {
    /// Creates the stub client.
    pub fn new() -> Self {
        Self
    }
}

impl SupervisorAPIClient for StubSupervisorAPIClient {
    fn notify_alive(&self) {
    }
}

/// Whether one worker iteration emits the alive beat: only when no monitor
/// reported an error this cycle and at least `cycle` milliseconds have
/// passed since the last beat.
pub open spec fn should_notify(any_error: bool, now: u64, last: u64, cycle: u64) -> bool {
    !any_error && now - last >= cycle
}

/// A monitor fault suppresses the beat of its own cycle and, because the
/// worker stops, of every later cycle; a healthy worker with cycle zero
/// beats on every iteration, and with a positive cycle beats exactly when
/// the cycle has elapsed.
pub proof fn lemma_alive_beat_suppression(any_error: bool, now: u64, last: u64, cycle: u64)
    requires
        now >= last,
    ensures
        any_error ==> !should_notify(any_error, now, last, cycle),
        !any_error && cycle == 0 ==> should_notify(any_error, now, last, cycle),
        !any_error ==> (should_notify(any_error, now, last, cycle) <==> now - last >= cycle),
{
}

/// One iteration's evaluation-and-notification bookkeeping.
pub struct MonitoringLogic<T: SupervisorAPIClient> {
    client: T,
    supervisor_api_cycle_ms: u64,
    last_notification_ms: u64,
}

impl<T: SupervisorAPIClient> MonitoringLogic<T> {
    /// The minimum interval between alive beats, in milliseconds.
    pub closed spec fn spec_cycle(self) -> u64 {
        self.supervisor_api_cycle_ms
    }

    /// When the last alive beat was emitted, in wall-clock milliseconds.
    pub closed spec fn spec_last_notification(self) -> u64 {
        self.last_notification_ms
    }

    /// Creates the worker bookkeeping, treating `now_ms` as the moment of
    /// the last notification.
    pub fn new(supervisor_api_cycle_ms: u64, client: T, now_ms: u64) -> (r: Self)
        ensures
            r.spec_cycle() == supervisor_api_cycle_ms,
            r.spec_last_notification() == now_ms,
    {
        Self { client, supervisor_api_cycle_ms, last_notification_ms: now_ms }
    }

    /// When the last alive beat was emitted, in wall-clock milliseconds.
    pub fn last_notification_ms(&self) -> (r: u64)
        ensures
            r == self.spec_last_notification(),
    {
        self.last_notification_ms
    }

    /// One worker iteration, after all monitors have been evaluated.
    ///
    /// `any_error` folds the cycle's observations; `now_ms` is the current
    /// wall-clock millisecond. If no error was observed and the supervisor
    /// cycle has elapsed, the client is notified and the beat time recorded.
    /// Returns whether the worker should keep running: any observed error
    /// stops it, so no further beat is ever emitted after a fault.
    pub fn run(&mut self, any_error: bool, now_ms: u64) -> (keep_running: bool)
        requires
            now_ms >= old(self).spec_last_notification(),
        ensures
            keep_running == !any_error,
            final(self).spec_cycle() == old(self).spec_cycle(),
            final(self).spec_last_notification() == (if should_notify(
                any_error,
                now_ms,
                old(self).spec_last_notification(),
                old(self).spec_cycle(),
            ) {
                now_ms
            } else {
                old(self).spec_last_notification()
            }),
    {
        if any_error {
            return false;
        }
        if now_ms - self.last_notification_ms >= self.supervisor_api_cycle_ms {
            self.last_notification_ms = now_ms;
            self.client.notify_alive();
        }
        true
    }
}

/// The sleep that keeps the evaluation loop near a steady period: the
/// internal processing cycle, shortened by the time the iteration itself
/// consumed, and never negative.
pub fn next_sleep_ms(interval_ms: u64, elapsed_ms: u64) -> (r: u64)
    ensures
        r == (if elapsed_ms < interval_ms {
            interval_ms - elapsed_ms
        } else {
            0
        }),
{
    if elapsed_ms < interval_ms {
        interval_ms - elapsed_ms
    } else {
        0
    }
}

} // verus!
