//! The switch that governs updates of a user's badge on behalf of a cluster.

use crate::shared::operating_services::OperatingServiceManager;
use crate::shared::operating_services::ServiceValue;
use vstd::prelude::*;

verus! {

/// A call of a cluster into the platform that can be switched off.
#[derive(Debug, Clone, Copy, PartialEq, Eq, Structural)]
pub enum ClusterService {
    UpdateBadge,
}

/// One switch for each call that the platform serves for a cluster.
#[derive(Debug, Clone, Copy, PartialEq, Eq, Structural)]
pub struct ClusterServiceManager {
    pub can_update_badge: ServiceValue,
}

impl OperatingServiceManager for ClusterServiceManager {
    type Service = ClusterService;

    open spec fn enabled(&self, service: ClusterService) -> bool {
        match service {
            ClusterService::UpdateBadge => self.can_update_badge.value,
        }
    }

    fn new() -> (r: Self) {
        ClusterServiceManager { can_update_badge: ServiceValue { value: true } }
    }

    fn update_service(&mut self, service: ClusterService, value: bool) -> (r: Result<(), String>) {
        match service {
            ClusterService::UpdateBadge => self.can_update_badge.value = value,
        };
        Ok(())
    }

    fn get_service(&self, service: ClusterService) -> (r: ServiceValue) {
        match service {
            ClusterService::UpdateBadge => self.can_update_badge,
        }
    }
}

} // verus!
