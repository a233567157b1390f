//! Frame and drop counters of the bridge.

use crate::bridge_core::buffer::{bump_counter, counter_after_one};
use crate::clock::{duration_as_micros, duration_micros, instant_now};
use std::time::{Duration, Instant};
use vstd::prelude::*;

verus! {

/// Counts delivered frames and dropped frames and keeps the latency of the last
/// delivered frame in microseconds.
pub struct Monitor {
    start_time: Instant,
    frame_count: usize,
    dropped_frames: usize,
    last_latency: usize,
}

impl Monitor {
    /// The number of frames recorded since creation or the last reset.
    pub closed spec fn frames(&self) -> usize {
        self.frame_count
    }

    /// The number of drops recorded since creation or the last reset.
    pub closed spec fn drops(&self) -> usize {
        self.dropped_frames
    }

    /// The latency of the last recorded frame, in microseconds (truncated to `usize`).
    pub closed spec fn latency_us(&self) -> usize {
        self.last_latency
    }

    /// The instant the monitor was created.
    pub closed spec fn started_at(&self) -> Instant {
        self.start_time
    }

    /// A monitor with all counters at zero, started now.
    pub fn new() -> (r: Self)
        ensures
            r.frames() == 0,
            r.drops() == 0,
            r.latency_us() == 0,
    {
        Monitor { start_time: instant_now(), frame_count: 0, dropped_frames: 0, last_latency: 0 }
    }

    /// Counts one delivered frame and keeps its latency in whole microseconds.
    pub fn record_frame(&mut self, latency: Duration)
        ensures
            final(self).frames() == counter_after_one(old(self).frames()),
            final(self).latency_us() == duration_micros(latency) as usize,
            final(self).drops() == old(self).drops(),
            final(self).started_at() == old(self).started_at(),
    {
        self.frame_count = bump_counter(self.frame_count);
        let micros = duration_as_micros(&latency);
        self.last_latency = micros as usize;
    }

    /// Counts one dropped frame.
    pub fn record_drop(&mut self)
        ensures
            final(self).drops() == counter_after_one(old(self).drops()),
            final(self).frames() == old(self).frames(),
            final(self).latency_us() == old(self).latency_us(),
            final(self).started_at() == old(self).started_at(),
    {
        self.dropped_frames = bump_counter(self.dropped_frames);
    }

    /// Sets all counters back to zero; the start instant is kept.
    pub fn reset(&mut self)
        ensures
            final(self).frames() == 0,
            final(self).drops() == 0,
            final(self).latency_us() == 0,
            final(self).started_at() == old(self).started_at(),
    {
        self.frame_count = 0;
        self.dropped_frames = 0;
        self.last_latency = 0;
    }

    /// The number of frames recorded.
    pub fn frame_count(&self) -> (r: usize)
        ensures
            r == self.frames(),
    {
        self.frame_count
    }

    /// The number of drops recorded.
    pub fn dropped_frames(&self) -> (r: usize)
        ensures
            r == self.drops(),
    {
        self.dropped_frames
    }

    /// The latency of the last recorded frame in microseconds.
    pub fn last_latency_us(&self) -> (r: usize)
        ensures
            r == self.latency_us(),
    {
        self.last_latency
    }

    /// The instant the monitor was created.
    pub fn start_time(&self) -> (r: Instant)
        ensures
            r == self.started_at(),
    {
        self.start_time
    }
}

} // verus!
