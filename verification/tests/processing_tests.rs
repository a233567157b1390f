use brtri::processing::filter::{CloudFilter, RADIUS_BITS, STD_DEV_MUL_BITS};
use brtri::processing::point_cloud::{PointXYZ, ProcessedCloud};
use brtri::processing::CloudOptimizer;
use brtri::BrtriProcessor;

fn point(x: f32, y: f32, z: f32) -> PointXYZ {
    PointXYZ { x: x.to_bits(), y: y.to_bits(), z: z.to_bits() }
}

fn sample() -> Vec<PointXYZ> {
    vec![point(1.0, 2.0, 3.0), point(-0.5, 0.25, 8.0), point(0.1, 0.2, 0.3)]
}

#[test]
fn cloud_keeps_points_and_time() {
    let cloud = ProcessedCloud::new(sample(), 42);
    assert_eq!(cloud.points(), &sample());
    assert_eq!(cloud.timestamp(), 42);
    let copy = cloud.clone();
    assert_eq!(copy.points(), &sample());
    assert_eq!(copy.timestamp(), 42);
}

#[test]
fn parallel_pass_keeps_points_in_order() {
    let points: Vec<PointXYZ> = (0..1000u32).map(|i| PointXYZ { x: i, y: i * 2, z: i * 3 }).collect();
    let cloud = ProcessedCloud::new(points.clone(), 7);
    let processed = cloud.process_parallel().unwrap();
    assert_eq!(processed.points(), &points);
    assert_eq!(processed.timestamp(), 7);
}

#[test]
fn cloud_bytes_round_trip() {
    let cloud = ProcessedCloud::new(sample(), 1);
    let bytes = cloud.to_bytes();
    assert_eq!(bytes.len(), 36);
    assert_eq!(&bytes[0..4], &1.0f32.to_le_bytes());
    assert_eq!(&bytes[16..20], &0.25f32.to_le_bytes());
    let back = ProcessedCloud::from_bytes(&bytes, 9);
    assert_eq!(back.points(), &sample());
    assert_eq!(back.timestamp(), 9);
}

#[test]
fn trailing_partial_point_is_ignored() {
    let mut bytes = ProcessedCloud::new(vec![point(4.0, 5.0, 6.0)], 0).to_bytes();
    bytes.extend_from_slice(&[1, 2, 3]);
    let cloud = ProcessedCloud::from_bytes(&bytes, 0);
    assert_eq!(cloud.points(), &vec![point(4.0, 5.0, 6.0)]);
    assert!(ProcessedCloud::from_bytes(&[1, 2, 3], 0).points().is_empty());
}

#[test]
fn filter_settings_and_identity() {
    let filter = CloudFilter::new();
    assert_eq!(f32::from_bits(filter.statistical_outlier_removal().std_dev_mul), 2.0);
    assert_eq!(filter.statistical_outlier_removal().mean_k, 50);
    assert_eq!(f32::from_bits(filter.radius_outlier_removal().radius), 0.1);
    assert_eq!(filter.radius_outlier_removal().min_neighbors, 5);
    assert_eq!(STD_DEV_MUL_BITS, 2.0f32.to_bits());
    assert_eq!(RADIUS_BITS, 0.1f32.to_bits());
    let cloud = ProcessedCloud::new(sample(), 3);
    let filtered = filter.apply(&cloud);
    assert_eq!(filtered.points(), &sample());
    assert_eq!(filtered.timestamp(), 3);
}

#[test]
fn optimizer_keeps_cloud() {
    let optimizer = CloudOptimizer::new(6, 0.05f32.to_bits());
    assert_eq!(optimizer.compression_level(), 6);
    assert_eq!(f32::from_bits(optimizer.noise_threshold()), 0.05);
    let optimized = optimizer.optimize(ProcessedCloud::new(sample(), 11));
    assert_eq!(optimized.points(), &sample());
    assert_eq!(optimized.timestamp(), 11);
}

#[test]
fn processor_returns_the_cloud() {
    let processor = BrtriProcessor::new(CloudFilter::new(), CloudOptimizer::new(1, 0));
    let result = processor.process_cloud(ProcessedCloud::new(sample(), 5)).unwrap();
    assert_eq!(result.points(), &sample());
    assert_eq!(result.timestamp(), 5);
}
