//! The switches of the platform's own operations.

use crate::shared::services::ServiceError;
use crate::shared::services::ServiceValue;
use crate::shared::services::SetLock;
use vstd::prelude::*;

verus! {

/// An operation of the platform that can be switched off.
#[derive(Debug, Clone, Copy, PartialEq, Eq, Structural)]
pub enum PlatformService {
    MintBadge,
    OpenAccount,
    CloseAccount,
    LinkCluster,
    UnlinkCluster,
}

/// One switch for each operation of the platform.
#[derive(Debug, Clone, Copy, PartialEq, Eq, Structural)]
pub struct PlatformServiceManager {
    pub can_mint_badge: ServiceValue,
    pub can_open_badge: ServiceValue,
    pub can_close_badge: ServiceValue,
    pub can_link_cluster: ServiceValue,
    pub can_unlink_cluster: ServiceValue,
}

impl PlatformServiceManager {
    /// The switch of `service`.
    pub open spec fn lookup(self, service: PlatformService) -> ServiceValue {
        match service {
            PlatformService::MintBadge => self.can_mint_badge,
            PlatformService::OpenAccount => self.can_open_badge,
            PlatformService::CloseAccount => self.can_close_badge,
            PlatformService::LinkCluster => self.can_link_cluster,
            PlatformService::UnlinkCluster => self.can_unlink_cluster,
        }
    }

    /// The switches with that of `service` replaced by `switch`.
    pub open spec fn with(self, service: PlatformService, switch: ServiceValue) -> Self {
        match service {
            PlatformService::MintBadge => PlatformServiceManager { can_mint_badge: switch, ..self },
            PlatformService::OpenAccount => PlatformServiceManager {
                can_open_badge: switch,
                ..self
            },
            PlatformService::CloseAccount => PlatformServiceManager {
                can_close_badge: switch,
                ..self
            },
            PlatformService::LinkCluster => PlatformServiceManager {
                can_link_cluster: switch,
                ..self
            },
            PlatformService::UnlinkCluster => PlatformServiceManager {
                can_unlink_cluster: switch,
                ..self
            },
        }
    }

    /// The switches after an update of `service`, or the refusal.
    pub open spec fn after_update(self, service: PlatformService, value: bool, lock: SetLock)
        -> Result<Self, ServiceError> {
        match self.lookup(service).after_set(value, lock) {
            Ok(switch) => Ok(self.with(service, switch)),
            Err(e) => Err(e),
        }
    }

    /// Every operation enabled and unlocked.
    pub fn new() -> (r: PlatformServiceManager)
        ensures
            forall|service: PlatformService| #[trigger]
                r.lookup(service) == (ServiceValue { value: true, locked: false }),
    {
        PlatformServiceManager {
            can_mint_badge: ServiceValue::yes(),
            can_open_badge: ServiceValue::yes(),
            can_close_badge: ServiceValue::yes(),
            can_link_cluster: ServiceValue::yes(),
            can_unlink_cluster: ServiceValue::yes(),
        }
    }

    /// Updates the switch of `service` and leaves the others alone. An
    /// ordinary update of a locked switch is refused and changes nothing.
    pub fn update(&mut self, service: PlatformService, value: bool, lock: SetLock) -> (r: Result<
        (),
        ServiceError,
    >)
        ensures
            match old(self).after_update(service, value, lock) {
                Ok(next) => r.is_ok() && *final(self) == next,
                Err(e) => r == Err::<(), ServiceError>(e) && *final(self) == *old(self),
            },
    {
        match service {
            PlatformService::MintBadge => self.can_mint_badge.set(value, lock),
            PlatformService::OpenAccount => self.can_open_badge.set(value, lock),
            PlatformService::CloseAccount => self.can_close_badge.set(value, lock),
            PlatformService::LinkCluster => self.can_link_cluster.set(value, lock),
            PlatformService::UnlinkCluster => self.can_unlink_cluster.set(value, lock),
        }
    }

    /// The switch of `service`.
    pub fn get(&self, service: PlatformService) -> (r: ServiceValue)
        ensures
            r == self.lookup(service),
    {
        match service {
            PlatformService::MintBadge => self.can_mint_badge,
            PlatformService::OpenAccount => self.can_open_badge,
            PlatformService::CloseAccount => self.can_close_badge,
            PlatformService::LinkCluster => self.can_link_cluster,
            PlatformService::UnlinkCluster => self.can_unlink_cluster,
        }
    }

    /// An update touches the switch it names and no other.
    pub proof fn lemma_update_is_local(
        self,
        service: PlatformService,
        value: bool,
        lock: SetLock,
        other: PlatformService,
    )
        requires
            self.after_update(service, value, lock) is Ok,
            other != service,
        ensures
            self.after_update(service, value, lock).unwrap().lookup(other) == self.lookup(other),
            self.after_update(service, value, lock).unwrap().lookup(service).value == value,
    {
    }
}

} // verus!
