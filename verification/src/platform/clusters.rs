//! What the platform records of a linked cluster.

use crate::ledger::BlueprintRef;
use crate::ledger::ComponentRef;
use crate::ledger::LocalId;
use crate::platform::services::cluster_services::ClusterServiceManager;
use crate::shared::services::ServiceValue;
use vstd::prelude::*;

verus! {

/// The platform's record of one linked cluster.
#[derive(Debug, Clone, Copy, PartialEq, Eq, Structural)]
pub struct ClusterWrapper {
    /// The cluster.
    pub cluster_address: ComponentRef,
    /// The blueprint the cluster was made from, by which clusters are
    /// grouped into strategies.
    pub blueprint_id: BlueprintRef,
    /// The link badge that was minted for the cluster.
    pub link_id: LocalId,
    /// Which of the cluster's calls the platform serves.
    pub services: ClusterServiceManager,
}

impl ClusterWrapper {
    /// The record of a cluster that was just linked: both calls served.
    pub fn new(cluster_address: ComponentRef, blueprint_id: BlueprintRef, link_id: LocalId) -> (r:
        ClusterWrapper)
        ensures
            r == (ClusterWrapper {
                cluster_address,
                blueprint_id,
                link_id,
                services: ClusterServiceManager {
                    can_open_account: ServiceValue { value: true, locked: false },
                    can_close_account: ServiceValue { value: true, locked: false },
                },
            }),
    {
        ClusterWrapper { cluster_address, blueprint_id, link_id, services: ClusterServiceManager::new() }
    }
}

} // verus!
