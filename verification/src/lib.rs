//! Verified core of the BRTRI bridge: the frame buffers, counters, wire formats
//! and decision logic that sit between the iPhone LiDAR stream and Blender.

pub mod bridge_core;
pub mod clock;
pub mod config;
pub mod error;
pub mod processing;
pub mod protocols;
pub mod utils;
pub mod wire;

pub use error::{Error, Result as BrtriResult};

use error::Result;
use processing::{CloudFilter, CloudOptimizer, ProcessedCloud};
use vstd::prelude::*;

verus! {

/// The processing pipeline: the filter stage, then the optimizer stage.
pub struct BrtriProcessor {
    filter: CloudFilter,
    optimizer: CloudOptimizer,
}

impl BrtriProcessor {
    /// The filter stage.
    pub closed spec fn filter_stage(&self) -> CloudFilter {
        self.filter
    }

    /// The optimizer stage.
    pub closed spec fn optimizer_stage(&self) -> CloudOptimizer {
        self.optimizer
    }

    /// A processor made of the two stages.
    pub fn new(filter: CloudFilter, optimizer: CloudOptimizer) -> (r: Self)
        ensures
            r.filter_stage() == filter,
            r.optimizer_stage() == optimizer,
    {
        BrtriProcessor { filter, optimizer }
    }

    /// Filters, then optimizes a cloud. Neither stage drops points yet, so the
    /// result is the cloud's points with its capture time.
    pub fn process_cloud(&self, cloud: ProcessedCloud) -> (r: Result<ProcessedCloud>)
        ensures
            r matches Ok(c) && c.points_view() == cloud.points_view() && c.time() == cloud.time(),
    {
        let filtered = self.filter.apply(&cloud);
        Ok(self.optimizer.optimize(filtered))
    }
}

} // verus!
