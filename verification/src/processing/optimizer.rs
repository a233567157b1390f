//! The optimisation stage: noise reduction, then compression.

use crate::processing::point_cloud::ProcessedCloud;
use vstd::prelude::*;

verus! {

/// The optimisation stage of the pipeline. `noise_threshold` is the bit pattern
/// of an `f32`.
pub struct CloudOptimizer {
    compression_level: u8,
    noise_threshold: u32,
}

impl CloudOptimizer {
    /// The compression level.
    pub closed spec fn level(&self) -> u8 {
        self.compression_level
    }

    /// The noise threshold's bit pattern.
    pub closed spec fn threshold(&self) -> u32 {
        self.noise_threshold
    }

    /// An optimizer with the given compression level and noise threshold.
    pub fn new(compression_level: u8, noise_threshold: u32) -> (r: Self)
        ensures
            r.level() == compression_level,
            r.threshold() == noise_threshold,
    {
        CloudOptimizer { compression_level, noise_threshold }
    }

    /// The compression level.
    pub fn compression_level(&self) -> (r: u8)
        ensures
            r == self.level(),
    {
        self.compression_level
    }

    /// The noise threshold's bit pattern.
    pub fn noise_threshold(&self) -> (r: u32)
        ensures
            r == self.threshold(),
    {
        self.noise_threshold
    }

    /// Runs the parallel pass, then noise reduction and compression; when the
    /// parallel pass fails the cloud is returned as it came. No stage changes
    /// points yet, so the result holds the cloud's points and capture time.
    pub fn optimize(&self, cloud: ProcessedCloud) -> (r: ProcessedCloud)
        ensures
            r.points_view() == cloud.points_view(),
            r.time() == cloud.time(),
    {
        match cloud.process_parallel() {
            Ok(c) => self.compress(self.reduce_noise(c)),
            Err(_) => cloud,
        }
    }

    /// Noise reduction; it keeps every point.
    fn reduce_noise(&self, cloud: ProcessedCloud) -> (r: ProcessedCloud)
        ensures
            r.points_view() == cloud.points_view(),
            r.time() == cloud.time(),
    {
        cloud
    }

    /// Compression; it keeps every point.
    fn compress(&self, cloud: ProcessedCloud) -> (r: ProcessedCloud)
        ensures
            r.points_view() == cloud.points_view(),
            r.time() == cloud.time(),
    {
        cloud
    }
}

} // verus!
