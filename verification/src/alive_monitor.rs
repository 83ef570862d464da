//! Keep-alive bookkeeping towards an external alive API.
//!
//! The monitor stores half the configured heartbeat interval as the minimum
//! time the external API is configured with, and records when the embedder
//! last reported liveness. The external call itself is made by the embedder
//! around [`AliveMonitor::keep_alive`].

use vstd::prelude::*;

verus! {

/// Keep-alive bookkeeping: the configured interval and the time of the last
/// reported heartbeat, in wall-clock milliseconds.
pub struct AliveMonitor {
    heartbeat_interval_ms: u64,
    last_heartbeat_ms: u64,
}

impl AliveMonitor {
    /// The interval handed to the external API: half the configured
    /// heartbeat interval.
    pub closed spec fn spec_interval(self) -> u64 {
        self.heartbeat_interval_ms
    }

    /// When liveness was last reported.
    pub closed spec fn spec_last_heartbeat(self) -> u64 {
        self.last_heartbeat_ms
    }

    /// Creates the monitor. Half the given heartbeat interval is kept as
    /// the minimum time the external alive API is configured with.
    pub fn new(heartbeat_interval_ms: u64) -> (r: Self)
        ensures
            r.spec_interval() == heartbeat_interval_ms / 2,
            r.spec_last_heartbeat() == 0,
    {
        Self { heartbeat_interval_ms: heartbeat_interval_ms / 2, last_heartbeat_ms: 0 }
    }

    /// Records a liveness report at `now_ms`. The embedder makes the
    /// external keep-alive call alongside.
    pub fn keep_alive(&mut self, now_ms: u64)
        ensures
            final(self).spec_last_heartbeat() == now_ms,
            final(self).spec_interval() == old(self).spec_interval(),
    {
        self.last_heartbeat_ms = now_ms;
    }

    /// When liveness was last reported, in wall-clock milliseconds.
    pub fn last_heartbeat(&self) -> (r: u64)
        ensures
            r == self.spec_last_heartbeat(),
    {
        self.last_heartbeat_ms
    }

    /// The interval handed to the external API.
    pub fn get_heartbeat_interval(&self) -> (r: u64)
        ensures
            r == self.spec_interval(),
    {
        self.heartbeat_interval_ms
    }
}

} // verus!
