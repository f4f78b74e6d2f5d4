//! A service switch: one operation's on/off value, with a lock that freezes it
//! against ordinary updates.

use vstd::prelude::*;

verus! {

/// The state of one service switch.
#[derive(Debug, Clone, Copy, PartialEq, Eq, Structural)]
pub struct ServiceValue {
    /// Whether the operation is enabled.
    pub value: bool,
    /// Whether ordinary updates are refused.
    pub locked: bool,
}

/// What an update does to the lock.
#[derive(Debug, Clone, Copy, PartialEq, Eq, Structural)]
pub enum SetLock {
    /// An ordinary update: refused while the switch is locked.
    Unchanged,
    /// A privileged update: sets the value and the lock together.
    Update(bool),
}

/// Why a switch refused an update.
#[derive(Debug, Clone, Copy, PartialEq, Eq, Structural)]
pub enum ServiceError {
    /// The switch is locked and the update did not carry a new lock state.
    Locked,
}

impl ServiceValue {
    /// The switch after an update, or the refusal.
    pub open spec fn after_set(self, value: bool, lock: SetLock) -> Result<
        ServiceValue,
        ServiceError,
    > {
        match lock {
            SetLock::Unchanged => if self.locked {
                Err(ServiceError::Locked)
            } else {
                Ok(ServiceValue { value, locked: false })
            },
            SetLock::Update(locked) => Ok(ServiceValue { value, locked }),
        }
    }

    /// An enabled, unlocked switch.
    pub fn yes() -> (r: ServiceValue)
        ensures
            r == (ServiceValue { value: true, locked: false }),
    {
        ServiceValue { value: true, locked: false }
    }

    /// A disabled, unlocked switch.
    pub fn no() -> (r: ServiceValue)
        ensures
            r == (ServiceValue { value: false, locked: false }),
    {
        ServiceValue { value: false, locked: false }
    }

    /// Updates the switch. An ordinary update of a locked switch is refused
    /// and changes nothing; a privileged update always goes through.
    pub fn set(&mut self, value: bool, lock: SetLock) -> (r: Result<(), ServiceError>)
        ensures
            match old(self).after_set(value, lock) {
                Ok(next) => r.is_ok() && *final(self) == next,
                Err(e) => r == Err::<(), ServiceError>(e) && *final(self) == *old(self),
            },
    {
        match lock {
            SetLock::Unchanged => {
                if self.locked {
                    return Err(ServiceError::Locked);
                }
                self.value = value;
            },
            SetLock::Update(locked) => {
                self.value = value;
                self.locked = locked;
            },
        }
        Ok(())
    }

    /// A locked switch keeps its value under every ordinary update.
    pub proof fn lemma_locked_value_is_frozen(self, value: bool)
        requires
            self.locked,
        ensures
            self.after_set(value, SetLock::Unchanged) is Err,
    {
    }

    /// A privileged update sets both fields whatever the switch held.
    pub proof fn lemma_privileged_update_always_applies(self, value: bool, locked: bool)
        ensures
            self.after_set(value, SetLock::Update(locked)) == Ok::<ServiceValue, ServiceError>(
                ServiceValue { value, locked },
            ),
    {
    }
}

} // verus!
