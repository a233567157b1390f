//! Timing of operations against warning and critical thresholds.

use crate::clock::{duration_as_millis, duration_millis, instant_elapsed, instant_now};
use std::time::{Duration, Instant};
use vstd::prelude::*;

verus! {

/// The durations, in milliseconds, from which an operation is slow (warning) or
/// too slow (critical).
#[derive(Debug, Clone, Copy)]
pub struct Thresholds {
    warning_ms: u64,
    critical_ms: u64,
}

impl Thresholds {
    /// The warning threshold in milliseconds.
    pub closed spec fn warning(&self) -> u64 {
        self.warning_ms
    }

    /// The critical threshold in milliseconds.
    pub closed spec fn critical(&self) -> u64 {
        self.critical_ms
    }
}

/// How an operation's duration compares with the thresholds.
#[derive(Debug, Clone, Copy, PartialEq, Eq, Structural)]
pub enum PerformanceLevel {
    /// Below the warning threshold.
    Normal,
    /// At or above the warning threshold, below the critical one.
    Warning,
    /// At or above the critical threshold.
    Critical,
}

/// The level of a duration of `ms` milliseconds: critical from the critical
/// threshold on, else warning from the warning threshold on, else normal.
pub open spec fn level_for(t: Thresholds, ms: u64) -> PerformanceLevel {
    if ms >= t.critical() {
        PerformanceLevel::Critical
    } else if ms >= t.warning() {
        PerformanceLevel::Warning
    } else {
        PerformanceLevel::Normal
    }
}

/// The rank of a level: normal 0, warning 1, critical 2.
pub open spec fn level_rank(level: PerformanceLevel) -> int {
    match level {
        PerformanceLevel::Normal => 0,
        PerformanceLevel::Warning => 1,
        PerformanceLevel::Critical => 2,
    }
}

/// The grade compares the duration itself with the thresholds: critical from the
/// critical threshold on; otherwise warning from the warning threshold on;
/// otherwise normal.
pub proof fn law_level_by_comparison(t: Thresholds, ms: u64)
    ensures
        ms >= t.critical() ==> level_for(t, ms) == PerformanceLevel::Critical,
        t.warning() <= ms && ms < t.critical() ==> level_for(t, ms) == PerformanceLevel::Warning,
        ms < t.warning() && ms < t.critical() ==> level_for(t, ms) == PerformanceLevel::Normal,
{
}

/// A longer operation is never graded lower than a shorter one.
pub proof fn law_level_monotone(t: Thresholds, shorter_ms: u64, longer_ms: u64)
    requires
        shorter_ms <= longer_ms,
    ensures
        level_rank(level_for(t, shorter_ms)) <= level_rank(level_for(t, longer_ms)),
{
}

/// What is reported of one timed operation: its name, its duration in whole
/// milliseconds, and the level of that duration.
#[derive(Debug)]
pub struct PerformanceRecord {
    pub operation: String,
    pub millis: u64,
    pub level: PerformanceLevel,
}

/// Times operations and grades their durations.
pub struct PerformanceMetrics {
    start_time: Instant,
    thresholds: Thresholds,
}

impl PerformanceMetrics {
    /// The thresholds.
    pub closed spec fn limits(&self) -> Thresholds {
        self.thresholds
    }

    /// A timer with the given thresholds, started now.
    pub fn new(warning_ms: u64, critical_ms: u64) -> (r: Self)
        ensures
            r.limits().warning() == warning_ms,
            r.limits().critical() == critical_ms,
    {
        PerformanceMetrics { start_time: instant_now(), thresholds: Thresholds { warning_ms, critical_ms } }
    }

    /// The thresholds.
    pub fn thresholds(&self) -> (r: Thresholds)
        ensures
            r == self.limits(),
    {
        self.thresholds
    }

    /// The instant the timer was created.
    pub closed spec fn started_at(&self) -> Instant {
        self.start_time
    }

    /// The instant the timer was created.
    pub fn start_time(&self) -> (r: Instant)
        ensures
            r == self.started_at(),
    {
        self.start_time
    }

    /// The level of a duration of `ms` milliseconds.
    pub fn classify(&self, ms: u64) -> (r: PerformanceLevel)
        ensures
            r == level_for(self.limits(), ms),
            ms >= self.limits().critical() ==> r == PerformanceLevel::Critical,
            self.limits().warning() <= ms && ms < self.limits().critical() ==> r == PerformanceLevel::Warning,
            ms < self.limits().warning() && ms < self.limits().critical() ==> r == PerformanceLevel::Normal,
    {
        if ms >= self.thresholds.critical_ms {
            PerformanceLevel::Critical
        } else if ms >= self.thresholds.warning_ms {
            PerformanceLevel::Warning
        } else {
            PerformanceLevel::Normal
        }
    }

    /// Runs `f`, timing it, and returns its result with the report of its duration.
    pub fn measure<F, T>(&self, name: &str, f: F) -> (r: (T, PerformanceRecord)) where
        F: FnOnce() -> T,
        requires
            f.requires(()),
        ensures
            f.ensures((), r.0),
            r.1.operation@ == name@,
            r.1.level == level_for(self.limits(), r.1.millis),
    {
        let start = instant_now();
        let result = f();
        let duration = instant_elapsed(&start);
        let record = self.log_performance(name, duration);
        (result, record)
    }

    /// The report of an operation that took `duration`: its whole milliseconds
    /// (truncated to `u64`) and their level.
    pub fn log_performance(&self, operation: &str, duration: Duration) -> (r: PerformanceRecord)
        ensures
            r.operation@ == operation@,
            r.millis == duration_millis(duration) as u64,
            r.level == level_for(self.limits(), r.millis),
    {
        let ms = duration_as_millis(&duration) as u64;
        PerformanceRecord { operation: operation.to_owned(), millis: ms, level: self.classify(ms) }
    }
}

} // verus!
