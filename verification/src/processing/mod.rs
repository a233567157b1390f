pub mod filter;
pub mod optimizer;
pub mod point_cloud;

pub use filter::CloudFilter;
pub use optimizer::CloudOptimizer;
pub use point_cloud::ProcessedCloud;
