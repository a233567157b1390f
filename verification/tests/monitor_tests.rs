use brtri::bridge_core::monitor::Monitor;
use std::time::Duration;

#[test]
fn new_monitor_counts_nothing() {
    let monitor = Monitor::new();
    assert_eq!(monitor.frame_count(), 0);
    assert_eq!(monitor.dropped_frames(), 0);
    assert_eq!(monitor.last_latency_us(), 0);
}

#[test]
fn record_frame_counts_and_keeps_latency_in_micros() {
    let mut monitor = Monitor::new();
    monitor.record_frame(Duration::from_micros(1500));
    assert_eq!(monitor.frame_count(), 1);
    assert_eq!(monitor.last_latency_us(), 1500);
    monitor.record_frame(Duration::from_nanos(2_999));
    assert_eq!(monitor.frame_count(), 2);
    assert_eq!(monitor.last_latency_us(), 2);
    assert_eq!(monitor.dropped_frames(), 0);
}

#[test]
fn record_drop_counts_drops_only() {
    let mut monitor = Monitor::new();
    monitor.record_frame(Duration::from_millis(3));
    monitor.record_drop();
    monitor.record_drop();
    assert_eq!(monitor.dropped_frames(), 2);
    assert_eq!(monitor.frame_count(), 1);
    assert_eq!(monitor.last_latency_us(), 3000);
}

#[test]
fn reset_zeroes_counters_and_keeps_start() {
    let mut monitor = Monitor::new();
    let start = monitor.start_time();
    monitor.record_frame(Duration::from_micros(7));
    monitor.record_drop();
    monitor.reset();
    assert_eq!(monitor.frame_count(), 0);
    assert_eq!(monitor.dropped_frames(), 0);
    assert_eq!(monitor.last_latency_us(), 0);
    assert_eq!(monitor.start_time(), start);
}
