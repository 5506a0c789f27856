//! Counters of the daemon's activity.
use vstd::prelude::*;

verus! {

/// `std::time::Instant`, carried opaquely: the tracker's start time.
#[verifier::external_type_specification]
#[verifier::external_body]
pub struct ExInstant(std::time::Instant);

/// Relies on `std::time::Instant::now`.
#[verifier::external_body]
fn instant_now() -> std::time::Instant {
    std::time::Instant::now()
}

/// Relies on `std::time::Instant::elapsed`: whole seconds since `t`.
#[verifier::external_body]
fn seconds_since(t: &std::time::Instant) -> u64 {
    t.elapsed().as_secs()
}

/// What the daemon reports of its own health.
#[derive(Debug, Clone)]
pub struct DaemonHealth {
    pub uptime_secs: u64,
    pub total_requests: u64,
    pub errors: u64,
    pub last_error: Option<String>,
    pub connected_clients: usize,
    pub stats_collected: u64,
}

/// Counts requests, errors and collected samples. The counters never go
/// down; they stop at `u64::MAX`.
pub struct HealthTracker {
    start_time: std::time::Instant,
    total_requests: u64,
    errors: u64,
    last_error: Option<String>,
    stats_collected: u64,
}

pub open spec fn bump(n: u64) -> u64 {
    if n == u64::MAX {
        n
    } else {
        (n + 1) as u64
    }
}

/// The operations that change a tracker.
pub enum HealthEvent {
    Request,
    Error,
    StatsCollected,
}

/// The counters `(requests, errors, samples)` after one event.
pub open spec fn after_event(c: (u64, u64, u64), e: HealthEvent) -> (u64, u64, u64) {
    match e {
        HealthEvent::Request => (bump(c.0), c.1, c.2),
        HealthEvent::Error => (c.0, bump(c.1), c.2),
        HealthEvent::StatsCollected => (c.0, c.1, bump(c.2)),
    }
}

pub open spec fn after_events(c: (u64, u64, u64), es: Seq<HealthEvent>) -> (u64, u64, u64)
    decreases es.len(),
{
    if es.len() == 0 {
        c
    } else {
        after_event(after_events(c, es.drop_last()), es.last())
    }
}

/// Between any two observations of a tracker, whatever happened in
/// between, no counter has gone down.
pub proof fn law_counters_monotonic(c: (u64, u64, u64), es: Seq<HealthEvent>)
    ensures
        after_events(c, es).0 >= c.0,
        after_events(c, es).1 >= c.1,
        after_events(c, es).2 >= c.2,
    decreases es.len(),
{
    if es.len() > 0 {
        law_counters_monotonic(c, es.drop_last());
    }
}

impl HealthTracker {
    pub closed spec fn counters(&self) -> (u64, u64, u64) {
        (self.total_requests, self.errors, self.stats_collected)
    }

    pub closed spec fn spec_last_error(&self) -> Option<Seq<char>> {
        match self.last_error {
            Some(s) => Some(s@),
            None => None,
        }
    }

    pub fn new() -> (r: Self)
        ensures
            r.counters() == (0u64, 0u64, 0u64),
            r.spec_last_error() is None,
    {
        HealthTracker {
            start_time: instant_now(),
            total_requests: 0,
            errors: 0,
            last_error: None,
            stats_collected: 0,
        }
    }

    pub fn record_request(&mut self)
        ensures
            final(self).counters() == after_event(old(self).counters(), HealthEvent::Request),
            final(self).spec_last_error() == old(self).spec_last_error(),
    {
        self.total_requests = self.total_requests.saturating_add(1);
    }

    /// Counts an error and keeps its message as the last one.
    pub fn record_error(&mut self, error: String)
        ensures
            final(self).counters() == after_event(old(self).counters(), HealthEvent::Error),
            final(self).spec_last_error() == Some(error@),
    {
        self.errors = self.errors.saturating_add(1);
        self.last_error = Some(error);
    }

    pub fn record_stats_collection(&mut self)
        ensures
            final(self).counters() == after_event(
                old(self).counters(),
                HealthEvent::StatsCollected,
            ),
            final(self).spec_last_error() == old(self).spec_last_error(),
    {
        self.stats_collected = self.stats_collected.saturating_add(1);
    }

    /// A snapshot of the counters; the uptime is read from the clock.
    pub fn get_health(&self, connected_clients: usize) -> (r: DaemonHealth)
        ensures
            (r.total_requests, r.errors, r.stats_collected) == self.counters(),
            r.connected_clients == connected_clients,
            match r.last_error {
                Some(s) => self.spec_last_error() == Some(s@),
                None => self.spec_last_error() is None,
            },
    {
        DaemonHealth {
            uptime_secs: seconds_since(&self.start_time),
            total_requests: self.total_requests,
            errors: self.errors,
            last_error: self.last_error.clone(),
            connected_clients,
            stats_collected: self.stats_collected,
        }
    }
}

impl Default for HealthTracker {
    fn default() -> (r: Self)
        ensures
            r.counters() == (0u64, 0u64, 0u64),
    {
        HealthTracker::new()
    }
}

} // verus!
