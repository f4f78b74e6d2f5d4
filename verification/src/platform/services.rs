//! The platform's service switches: its own, and those it keeps for each
//! linked cluster.

pub mod cluster_services;
pub mod platform_services;
