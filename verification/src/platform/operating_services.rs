//! Switches without a lock that the platform keeps for clusters.

pub mod cluster_services;
