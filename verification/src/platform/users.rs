//! The data of a user badge with the user's clusters kept as an unordered
//! set.

use crate::ledger::ComponentRef;
use crate::shared::users::UserError;
use std::collections::HashSet;
use vstd::prelude::*;

verus! {

/// The data of one user badge.
#[derive(Debug)]
pub struct User {
    /// Seconds since the Unix epoch at which the badge was minted.
    pub minted_at: i64,
    /// The clusters in which the user has an open account.
    pub accounts_in: HashSet<u64>,
    /// How many accounts the user has open.
    pub open: u64,
}

impl User {
    /// Why adding an account in `cluster` is refused, if it is.
    pub open spec fn add_refusal(self, cluster: ComponentRef) -> Option<UserError> {
        if self.accounts_in@.contains(cluster.0) {
            Some(UserError::AccountAlreadyExists)
        } else if self.open == u64::MAX {
            Some(UserError::TooManyAccounts)
        } else {
            None
        }
    }

    /// Why removing the account in `cluster` is refused, if it is.
    pub open spec fn remove_refusal(self, cluster: ComponentRef) -> Option<UserError> {
        if !self.accounts_in@.contains(cluster.0) {
            Some(UserError::AccountDoesNotExist)
        } else if self.open == 0 {
            Some(UserError::InvalidState)
        } else {
            None
        }
    }

    /// The data of a badge minted at `minted_at`: no account anywhere.
    pub fn new(minted_at: i64) -> (r: User)
        ensures
            r.minted_at == minted_at,
            r.accounts_in@ == Set::<u64>::empty(),
            r.open == 0,
    {
        User { minted_at, accounts_in: HashSet::new(), open: 0 }
    }

    /// Records an account in `cluster`. Refused, with nothing changed, when
    /// the user already has one there or the count cannot grow.
    pub fn add_account(&mut self, cluster_address: ComponentRef) -> (r: Result<(), UserError>)
        ensures
            match old(self).add_refusal(cluster_address) {
                Some(e) => r == Err::<(), UserError>(e) && *final(self) == *old(self),
                None => r.is_ok() && final(self).accounts_in@ == old(self).accounts_in@.insert(
                    cluster_address.0,
                )
                    && final(self).open == old(self).open + 1
                    && final(self).minted_at == old(self).minted_at,
            },
    {
        if self.accounts_in.contains(&cluster_address.0) {
            return Err(UserError::AccountAlreadyExists);
        }
        if self.open == u64::MAX {
            return Err(UserError::TooManyAccounts);
        }
        self.accounts_in.insert(cluster_address.0);
        self.open += 1;
        Ok(())
    }

    /// Removes the account in `cluster`. Refused, with nothing changed, when
    /// the user has none there.
    pub fn remove_account(&mut self, cluster_address: ComponentRef) -> (r: Result<(), UserError>)
        ensures
            match old(self).remove_refusal(cluster_address) {
                Some(e) => r == Err::<(), UserError>(e) && *final(self) == *old(self),
                None => r.is_ok() && final(self).accounts_in@ == old(self).accounts_in@.remove(
                    cluster_address.0,
                )
                    && final(self).open == old(self).open - 1
                    && final(self).minted_at == old(self).minted_at,
            },
    {
        if !self.accounts_in.contains(&cluster_address.0) {
            return Err(UserError::AccountDoesNotExist);
        }
        if self.open == 0 {
            return Err(UserError::InvalidState);
        }
        self.accounts_in.remove(&cluster_address.0);
        self.open -= 1;
        Ok(())
    }
}

} // verus!
