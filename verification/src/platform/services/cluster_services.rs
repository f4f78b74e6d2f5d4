//! The switches the platform keeps for each linked cluster: which of the
//! cluster's calls into the platform it serves.

use crate::shared::services::ServiceError;
use crate::shared::services::ServiceValue;
use crate::shared::services::SetLock;
use vstd::prelude::*;

verus! {

/// A call of a cluster into the platform that can be switched off.
#[derive(Debug, Clone, Copy, PartialEq, Eq, Structural)]
pub enum ClusterService {
    OpenAccount,
    CloseAccount,
}

/// One switch for each call that the platform serves for one cluster.
#[derive(Debug, Clone, Copy, PartialEq, Eq, Structural)]
pub struct ClusterServiceManager {
    pub can_open_account: ServiceValue,
    pub can_close_account: ServiceValue,
}

impl ClusterServiceManager {
    /// The switch of `service`.
    pub open spec fn lookup(self, service: ClusterService) -> ServiceValue {
        match service {
            ClusterService::OpenAccount => self.can_open_account,
            ClusterService::CloseAccount => self.can_close_account,
        }
    }

    /// The switches with that of `service` replaced by `switch`.
    pub open spec fn with(self, service: ClusterService, switch: ServiceValue) -> Self {
        match service {
            ClusterService::OpenAccount => ClusterServiceManager {
                can_open_account: switch,
                ..self
            },
            ClusterService::CloseAccount => ClusterServiceManager {
                can_close_account: switch,
                ..self
            },
        }
    }

    /// The switches after an update of `service`, or the refusal.
    pub open spec fn after_update(self, service: ClusterService, value: bool, lock: SetLock)
        -> Result<Self, ServiceError> {
        match self.lookup(service).after_set(value, lock) {
            Ok(switch) => Ok(self.with(service, switch)),
            Err(e) => Err(e),
        }
    }

    /// Both calls enabled and unlocked.
    pub fn new() -> (r: ClusterServiceManager)
        ensures
            r == (ClusterServiceManager {
                can_open_account: ServiceValue { value: true, locked: false },
                can_close_account: ServiceValue { value: true, locked: false },
            }),
    {
        ClusterServiceManager {
            can_open_account: ServiceValue::yes(),
            can_close_account: ServiceValue::yes(),
        }
    }

    /// Updates the switch of `service` and leaves the other alone. An
    /// ordinary update of a locked switch is refused and changes nothing.
    pub fn update_service(&mut self, service: ClusterService, value: bool, lock: SetLock) -> (r:
        Result<(), ServiceError>)
        ensures
            match old(self).after_update(service, value, lock) {
                Ok(next) => r.is_ok() && *final(self) == next,
                Err(e) => r == Err::<(), ServiceError>(e) && *final(self) == *old(self),
            },
    {
        match service {
            ClusterService::OpenAccount => self.can_open_account.set(value, lock),
            ClusterService::CloseAccount => self.can_close_account.set(value, lock),
        }
    }

    /// The switch of `service`.
    pub fn get_service(&self, service: ClusterService) -> (r: ServiceValue)
        ensures
            r == self.lookup(service),
    {
        match service {
            ClusterService::OpenAccount => self.can_open_account,
            ClusterService::CloseAccount => self.can_close_account,
        }
    }
}

} // verus!
