use brtri::config::{NetworkConfig, ProcessingConfig};
use brtri::utils::{PerformanceLevel, PerformanceMetrics};
use brtri::Error;
use std::time::Duration;

#[test]
fn classify_against_thresholds() {
    let metrics = PerformanceMetrics::new(100, 200);
    assert_eq!(metrics.classify(0), PerformanceLevel::Normal);
    assert_eq!(metrics.classify(99), PerformanceLevel::Normal);
    assert_eq!(metrics.classify(100), PerformanceLevel::Warning);
    assert_eq!(metrics.classify(199), PerformanceLevel::Warning);
    assert_eq!(metrics.classify(200), PerformanceLevel::Critical);
    assert_eq!(metrics.classify(u64::MAX), PerformanceLevel::Critical);
}

#[test]
fn critical_is_checked_first() {
    let metrics = PerformanceMetrics::new(500, 50);
    assert_eq!(metrics.classify(60), PerformanceLevel::Critical);
    assert_eq!(metrics.classify(10), PerformanceLevel::Normal);
}

#[test]
fn log_performance_reports_whole_milliseconds() {
    let metrics = PerformanceMetrics::new(100, 200);
    let record = metrics.log_performance("filter", Duration::from_micros(150_900));
    assert_eq!(record.operation, "filter");
    assert_eq!(record.millis, 150);
    assert_eq!(record.level, PerformanceLevel::Warning);
    let record = metrics.log_performance("send", Duration::from_secs(1));
    assert_eq!(record.millis, 1000);
    assert_eq!(record.level, PerformanceLevel::Critical);
}

#[test]
fn measure_returns_the_result_of_the_closure() {
    let metrics = PerformanceMetrics::new(10_000, 20_000);
    let (value, record) = metrics.measure("sum", || (1..=10u32).sum::<u32>());
    assert_eq!(value, 55);
    assert_eq!(record.operation, "sum");
    assert_eq!(record.level, PerformanceLevel::Normal);
}

#[test]
fn config_and_error_values() {
    let network = NetworkConfig { ios_port: 5555, blender_port: 5556, buffer_size: 64 };
    let processing = ProcessingConfig { threads: 4, batch_size: 8 };
    assert_eq!(network.ios_port, 5555);
    assert_eq!(processing.batch_size, 8);
    let error = Error::Config("missing file".to_string());
    assert!(matches!(error, Error::Config(ref m) if m == "missing file"));
    let io = Error::Io(std::io::Error::new(std::io::ErrorKind::Other, "boom"));
    assert!(matches!(io, Error::Io(_)));
}
