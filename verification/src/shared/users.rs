//! The data a user badge carries: when it was minted and in which clusters
//! its holder has an open account.

use crate::collections::index_set_contains;
use crate::collections::index_set_insert;
use crate::collections::index_set_keys;
use crate::collections::index_set_new;
use crate::collections::index_set_shift_remove;
use crate::collections::lemma_without_distinct;
use crate::collections::without;
use crate::ledger::ComponentRef;
use crate::ledger::LocalId;
use crate::ledger::NonFungibleProof;
use scrypto::prelude::IndexSet;
use std::hash::RandomState;
use vstd::prelude::*;

verus! {

/// A user badge as a caller may present it.
#[derive(Debug)]
pub enum UserBadge {
    /// A proof that has not been checked yet.
    Raw(NonFungibleProof),
    /// The identifier taken from a checked proof.
    Valid(LocalId),
}

/// Why a user's membership could not be changed.
#[derive(Debug, Clone, Copy, PartialEq, Eq, Structural)]
pub enum UserError {
    /// The user already has an account in the cluster.
    AccountAlreadyExists,
    /// The user's count of open accounts cannot grow further.
    TooManyAccounts,
    /// The user has no account in the cluster.
    AccountDoesNotExist,
    /// The cluster is listed but the count of open accounts is zero.
    InvalidState,
}

/// The data of one user badge.
#[derive(Debug)]
pub struct User {
    /// Seconds since the Unix epoch at which the badge was minted.
    pub minted_at: i64,
    /// The clusters in which the user has an open account.
    pub accounts_in: IndexSet<u64, RandomState>,
    /// How many accounts the user has open.
    pub open: u64,
}

/// A user badge's data as plain mathematics.
pub struct UserView {
    pub minted_at: i64,
    /// The clusters the user has an account in, oldest first.
    pub accounts_in: Seq<u64>,
    pub open: u64,
}

impl View for User {
    type V = UserView;

    open spec fn view(&self) -> UserView {
        UserView {
            minted_at: self.minted_at,
            accounts_in: index_set_keys(self.accounts_in),
            open: self.open,
        }
    }
}

impl UserView {
    /// Why adding an account in `cluster` is refused, if it is.
    pub open spec fn add_refusal(self, cluster: ComponentRef) -> Option<UserError> {
        if self.accounts_in.contains(cluster.0) {
            Some(UserError::AccountAlreadyExists)
        } else if self.open == u64::MAX {
            Some(UserError::TooManyAccounts)
        } else {
            None
        }
    }

    /// The data after an account in `cluster` was added.
    pub open spec fn after_add(self, cluster: ComponentRef) -> UserView {
        UserView {
            accounts_in: self.accounts_in.push(cluster.0),
            open: (self.open + 1) as u64,
            ..self
        }
    }

    /// Why removing the account in `cluster` is refused, if it is.
    pub open spec fn remove_refusal(self, cluster: ComponentRef) -> Option<UserError> {
        if !self.accounts_in.contains(cluster.0) {
            Some(UserError::AccountDoesNotExist)
        } else if self.open == 0 {
            Some(UserError::InvalidState)
        } else {
            None
        }
    }

    /// The data after the account in `cluster` was removed.
    pub open spec fn after_remove(self, cluster: ComponentRef) -> UserView {
        UserView {
            accounts_in: without(self.accounts_in, cluster.0),
            open: (self.open - 1) as u64,
            ..self
        }
    }
}

impl UserView {
    /// Whether the membership is in order: no cluster is listed twice, and
    /// the count of open accounts is the number of clusters listed.
    pub open spec fn consistent(self) -> bool {
        self.accounts_in.no_duplicates() && self.open == self.accounts_in.len()
    }

    /// A new badge's membership is in order.
    pub proof fn lemma_new_is_consistent(minted_at: i64)
        ensures
            (UserView { minted_at, accounts_in: Seq::empty(), open: 0 }).consistent(),
    {
    }

    /// Adding an account keeps the membership in order: the cluster is
    /// listed once.
    pub proof fn lemma_add_keeps_consistency(self, cluster: ComponentRef)
        requires
            self.consistent(),
            self.add_refusal(cluster).is_none(),
        ensures
            self.after_add(cluster).consistent(),
            self.after_add(cluster).accounts_in.contains(cluster.0),
    {
        let listed = self.accounts_in.push(cluster.0);
        assert(listed[self.accounts_in.len() as int] == cluster.0);
        assert forall|i: int, j: int| 0 <= i < listed.len() && 0 <= j < listed.len() && i != j implies listed[i]
            != listed[j] by {
            if i < self.accounts_in.len() && j < self.accounts_in.len() {
            } else if i < self.accounts_in.len() {
                assert(self.accounts_in.contains(self.accounts_in[i]));
            } else {
                assert(self.accounts_in.contains(self.accounts_in[j]));
            }
        }
    }

    /// Removing an account keeps the membership in order: the cluster is
    /// no longer listed.
    pub proof fn lemma_remove_keeps_consistency(self, cluster: ComponentRef)
        requires
            self.consistent(),
            self.remove_refusal(cluster).is_none(),
        ensures
            self.after_remove(cluster).consistent(),
            !self.after_remove(cluster).accounts_in.contains(cluster.0),
    {
        lemma_without_distinct(self.accounts_in, cluster.0);
        crate::collections::lemma_without_contains(self.accounts_in, cluster.0, cluster.0);
    }

    /// With the membership in order, a listed cluster can always be
    /// removed: the count of open accounts is not zero.
    pub proof fn lemma_listed_account_can_be_removed(self, cluster: ComponentRef)
        requires
            self.consistent(),
            self.accounts_in.contains(cluster.0),
        ensures
            self.remove_refusal(cluster).is_none(),
    {
    }
}

impl User {
    /// The data of a badge minted at `minted_at`: no account anywhere.
    pub fn new(minted_at: i64) -> (r: User)
        ensures
            r@ == (UserView { minted_at, accounts_in: Seq::<u64>::empty(), open: 0 }),
    {
        User { minted_at, accounts_in: index_set_new(), open: 0 }
    }

    /// Whether the user has an account in `cluster`.
    pub fn has_account(&self, cluster: ComponentRef) -> (r: bool)
        ensures
            r == self@.accounts_in.contains(cluster.0),
    {
        index_set_contains(&self.accounts_in, cluster.0)
    }

    /// Why `add_account` would be refused, if it would.
    pub fn check_add_account(&self, cluster: ComponentRef) -> (r: Option<UserError>)
        ensures
            r == self@.add_refusal(cluster),
    {
        if index_set_contains(&self.accounts_in, cluster.0) {
            Some(UserError::AccountAlreadyExists)
        } else if self.open == u64::MAX {
            Some(UserError::TooManyAccounts)
        } else {
            None
        }
    }

    /// Why `remove_account` would be refused, if it would.
    pub fn check_remove_account(&self, cluster: ComponentRef) -> (r: Option<UserError>)
        ensures
            r == self@.remove_refusal(cluster),
    {
        if !index_set_contains(&self.accounts_in, cluster.0) {
            Some(UserError::AccountDoesNotExist)
        } else if self.open == 0 {
            Some(UserError::InvalidState)
        } else {
            None
        }
    }

    /// Records an account in `cluster`. Refused, with nothing changed, when
    /// the user already has one there or the count cannot grow.
    pub fn add_account(&mut self, cluster: ComponentRef) -> (r: Result<(), UserError>)
        ensures
            match old(self)@.add_refusal(cluster) {
                Some(e) => r == Err::<(), UserError>(e) && *final(self) == *old(self),
                None => r.is_ok() && final(self)@ == old(self)@.after_add(cluster),
            },
    {
        match self.check_add_account(cluster) {
            Some(e) => Err(e),
            None => {
                index_set_insert(&mut self.accounts_in, cluster.0);
                self.open += 1;
                Ok(())
            },
        }
    }

    /// Removes the account in `cluster`. Refused, with nothing changed, when
    /// the user has none there.
    pub fn remove_account(&mut self, cluster: ComponentRef) -> (r: Result<(), UserError>)
        ensures
            match old(self)@.remove_refusal(cluster) {
                Some(e) => r == Err::<(), UserError>(e) && *final(self) == *old(self),
                None => r.is_ok() && final(self)@ == old(self)@.after_remove(cluster),
            },
    {
        match self.check_remove_account(cluster) {
            Some(e) => Err(e),
            None => {
                index_set_shift_remove(&mut self.accounts_in, cluster.0);
                self.open -= 1;
                Ok(())
            },
        }
    }
}

} // verus!
