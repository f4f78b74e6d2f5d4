//! The switches of the cluster's operations.

use crate::shared::services::ServiceError;
use crate::shared::services::ServiceValue;
use crate::shared::services::SetLock;
use vstd::prelude::*;

verus! {

/// An operation of the cluster that can be switched off.
#[derive(Debug, Clone, Copy, PartialEq, Eq, Structural)]
pub enum ClusterService {
    OpenAccount,
    CloseAccount,
    Execute,
    Link,
    CallLinked,
}

/// One switch for each operation of the cluster.
#[derive(Debug, Clone, Copy, PartialEq, Eq, Structural)]
pub struct ClusterServiceManager {
    pub open_account: ServiceValue,
    pub close_account: ServiceValue,
    pub execute: ServiceValue,
    pub link: ServiceValue,
    pub call_linked: ServiceValue,
}

impl ClusterServiceManager {
    /// The switch of `service`.
    pub open spec fn lookup(self, service: ClusterService) -> ServiceValue {
        match service {
            ClusterService::OpenAccount => self.open_account,
            ClusterService::CloseAccount => self.close_account,
            ClusterService::Execute => self.execute,
            ClusterService::Link => self.link,
            ClusterService::CallLinked => self.call_linked,
        }
    }

    /// The switches with that of `service` replaced by `switch`.
    pub open spec fn with(self, service: ClusterService, switch: ServiceValue) -> Self {
        match service {
            ClusterService::OpenAccount => ClusterServiceManager { open_account: switch, ..self },
            ClusterService::CloseAccount => ClusterServiceManager { close_account: switch, ..self },
            ClusterService::Execute => ClusterServiceManager { execute: switch, ..self },
            ClusterService::Link => ClusterServiceManager { link: switch, ..self },
            ClusterService::CallLinked => ClusterServiceManager { call_linked: switch, ..self },
        }
    }

    /// The switches after an update of `service`, or the refusal.
    pub open spec fn after_update(self, service: ClusterService, value: bool, lock: SetLock)
        -> Result<Self, ServiceError> {
        match self.lookup(service).after_set(value, lock) {
            Ok(switch) => Ok(self.with(service, switch)),
            Err(e) => Err(e),
        }
    }

    /// Every operation enabled and unlocked.
    pub open spec fn all_enabled() -> Self {
        ClusterServiceManager {
            open_account: ServiceValue { value: true, locked: false },
            close_account: ServiceValue { value: true, locked: false },
            execute: ServiceValue { value: true, locked: false },
            link: ServiceValue { value: true, locked: false },
            call_linked: ServiceValue { value: true, locked: false },
        }
    }

    /// Every operation enabled and unlocked.
    pub fn new() -> (r: ClusterServiceManager)
        ensures
            r == Self::all_enabled(),
    {
        ClusterServiceManager {
            open_account: ServiceValue::yes(),
            close_account: ServiceValue::yes(),
            execute: ServiceValue::yes(),
            link: ServiceValue::yes(),
            call_linked: ServiceValue::yes(),
        }
    }

    /// Updates the switch of `service` and leaves the others alone. An
    /// ordinary update of a locked switch is refused and changes nothing.
    pub fn update(&mut self, service: ClusterService, value: bool, lock: SetLock) -> (r: Result<
        (),
        ServiceError,
    >)
        ensures
            match old(self).after_update(service, value, lock) {
                Ok(next) => r.is_ok() && *final(self) == next,
                Err(e) => r == Err::<(), ServiceError>(e) && *final(self) == *old(self),
            },
    {
        match service {
            ClusterService::OpenAccount => self.open_account.set(value, lock),
            ClusterService::CloseAccount => self.close_account.set(value, lock),
            ClusterService::Execute => self.execute.set(value, lock),
            ClusterService::Link => self.link.set(value, lock),
            ClusterService::CallLinked => self.call_linked.set(value, lock),
        }
    }

    /// Whether `service` is switched on.
    pub fn get(&self, service: ClusterService) -> (r: bool)
        ensures
            r == self.lookup(service).value,
    {
        match service {
            ClusterService::OpenAccount => self.open_account.value,
            ClusterService::CloseAccount => self.close_account.value,
            ClusterService::Execute => self.execute.value,
            ClusterService::Link => self.link.value,
            ClusterService::CallLinked => self.call_linked.value,
        }
    }
}

} // verus!
