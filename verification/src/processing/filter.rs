//! The outlier filters applied to each cloud.

use crate::processing::point_cloud::ProcessedCloud;
use vstd::prelude::*;

verus! {

/// Statistical outlier removal: a point is an outlier when its mean distance to
/// its `mean_k` nearest neighbours exceeds the cloud's mean by more than
/// `std_dev_mul` standard deviations. `std_dev_mul` is the bit pattern of an `f32`.
#[derive(Clone, Copy, Debug, PartialEq, Eq, Structural)]
pub struct StatisticalOutlierRemoval {
    pub std_dev_mul: u32,
    pub mean_k: u32,
}

/// Radius outlier removal: a point is an outlier when fewer than `min_neighbors`
/// points lie within `radius`. `radius` is the bit pattern of an `f32`.
#[derive(Clone, Copy, Debug, PartialEq, Eq, Structural)]
pub struct RadiusOutlierRemoval {
    pub radius: u32,
    pub min_neighbors: u32,
}

/// The bit pattern of the `f32` 2.0.
pub const STD_DEV_MUL_BITS: u32 = 0x4000_0000;

/// The bit pattern of the `f32` 0.1.
pub const RADIUS_BITS: u32 = 0x3DCC_CCCD;

/// The filter stage of the pipeline.
pub struct CloudFilter {
    statistical_outlier_removal: StatisticalOutlierRemoval,
    radius_outlier_removal: RadiusOutlierRemoval,
}

impl CloudFilter {
    /// The statistical filter's settings.
    pub closed spec fn statistical(&self) -> StatisticalOutlierRemoval {
        self.statistical_outlier_removal
    }

    /// The radius filter's settings.
    pub closed spec fn radius(&self) -> RadiusOutlierRemoval {
        self.radius_outlier_removal
    }

    /// The filter with its settings: statistical removal with 2.0 standard
    /// deviations over 50 neighbours, radius removal with radius 0.1 and at least
    /// 5 neighbours.
    pub fn new() -> (r: Self)
        ensures
            r.statistical() == (StatisticalOutlierRemoval { std_dev_mul: STD_DEV_MUL_BITS, mean_k: 50 }),
            r.radius() == (RadiusOutlierRemoval { radius: RADIUS_BITS, min_neighbors: 5 }),
    {
        CloudFilter {
            statistical_outlier_removal: StatisticalOutlierRemoval { std_dev_mul: STD_DEV_MUL_BITS, mean_k: 50 },
            radius_outlier_removal: RadiusOutlierRemoval { radius: RADIUS_BITS, min_neighbors: 5 },
        }
    }

    /// The settings of the statistical filter.
    pub fn statistical_outlier_removal(&self) -> (r: StatisticalOutlierRemoval)
        ensures
            r == self.statistical(),
    {
        self.statistical_outlier_removal
    }

    /// The settings of the radius filter.
    pub fn radius_outlier_removal(&self) -> (r: RadiusOutlierRemoval)
        ensures
            r == self.radius(),
    {
        self.radius_outlier_removal
    }

    /// Applies the filters in sequence. No stage removes points yet, so the
    /// result is the cloud itself.
    pub fn apply(&self, cloud: &ProcessedCloud) -> (r: ProcessedCloud)
        ensures
            r.points_view() == cloud.points_view(),
            r.time() == cloud.time(),
    {
        cloud.clone()
    }
}

} // verus!
