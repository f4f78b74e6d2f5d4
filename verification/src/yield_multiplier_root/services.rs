//! The switches of the cluster's operations.

pub use crate::yield_multiplier_weftv2::services::ClusterService;
pub use crate::yield_multiplier_weftv2::services::ClusterServiceManager;
