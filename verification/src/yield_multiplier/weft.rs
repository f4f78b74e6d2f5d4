//! A cluster that keeps all positions in one vault, with a list of those
//! that no user holds.

pub mod cluster;

use crate::decimal::representable;
use crate::decimal::scale;
use crate::decimal::Decimal;
use crate::ledger::ComponentRef;
use crate::ledger::FungibleVault;
use crate::ledger::LocalId;
use crate::ledger::NonFungibleBucket;
use crate::ledger::NonFungibleVault;
use crate::ledger::ResourceRef;
use crate::ledger::Tokens;
use vstd::prelude::*;

verus! {

/// Why the cluster refused a bucket.
#[derive(Debug, Clone, Copy, PartialEq, Eq, Structural)]
pub enum DepositError {
    /// The bucket holds another resource than expected.
    IncorrectResource,
    /// The bucket does not hold exactly one token.
    IncorrectAmount,
    /// The count of unused positions cannot grow further.
    CounterOverflow,
}

/// The cluster's state.
#[derive(Debug)]
pub struct YieldMultiplierV1Cluster {
    /// The resource type of the owner's badge.
    pub owner_badge_res: ResourceRef,
    /// The platform that the cluster belongs to.
    pub parent_platform: ComponentRef,
    /// The vault of the verification badge that the platform issues.
    pub verification_badge_vault: NonFungibleVault,
    /// The asset supplied on the lending market.
    pub supply_res: ResourceRef,
    /// The asset borrowed on the lending market.
    pub debt_res: ResourceRef,
    /// The resource type of the market's positions.
    pub position_res: ResourceRef,
    /// The vault of all positions.
    pub position_vault: NonFungibleVault,
    /// The positions that no user holds, each under the count at which it
    /// came in.
    pub unused_positions: Vec<(Decimal, LocalId)>,
    /// How many unused positions came in.
    pub unused_positions_count: Decimal,
    /// The fees collected, in the supply asset.
    pub fee_vault: FungibleVault,
}

impl YieldMultiplierV1Cluster {
    /// Whether the cluster is set up as `other` is and has collected the
    /// same fees.
    pub open spec fn same_setup(self, other: Self) -> bool {
        &&& self.owner_badge_res == other.owner_badge_res
        &&& self.parent_platform == other.parent_platform
        &&& self.supply_res == other.supply_res
        &&& self.debt_res == other.debt_res
        &&& self.position_res == other.position_res
        &&& self.fee_vault == other.fee_vault
    }

    /// Why a bucket is not taken as one token of `expected`, if it is not.
    pub open spec fn bucket_refusal(bucket: Tokens, expected: ResourceRef) -> Option<DepositError> {
        if bucket.resource != expected {
            Some(DepositError::IncorrectResource)
        } else if bucket.ids.len() != 1 {
            Some(DepositError::IncorrectAmount)
        } else {
            None
        }
    }

    /// Why `position` is not taken in as an unused position, if it is not:
    /// it must be one position of the market, which the vault holds, and the
    /// count must be able to grow.
    pub open spec fn unused_position_refusal(self, position: Tokens) -> Option<DepositError> {
        if Self::bucket_refusal(position, self.position_res).is_some() {
            Self::bucket_refusal(position, self.position_res)
        } else if position.resource != self.position_vault.resource {
            Some(DepositError::IncorrectResource)
        } else if !representable(self.unused_positions_count.attos() + scale()) {
            Some(DepositError::CounterOverflow)
        } else {
            None
        }
    }

    /// A new cluster for the pair `supply_res` and `debt_res`: no badge, no
    /// position, no fees.
    pub fn instantiate(
        owner_badge_res: ResourceRef,
        parent_platform: ComponentRef,
        verification_badge_res: ResourceRef,
        supply_res: ResourceRef,
        debt_res: ResourceRef,
        position_res: ResourceRef,
    ) -> (r: YieldMultiplierV1Cluster)
        ensures
            r.owner_badge_res == owner_badge_res,
            r.parent_platform == parent_platform,
            r.verification_badge_vault@ == (Tokens {
                resource: verification_badge_res,
                ids: Seq::empty(),
            }),
            r.supply_res == supply_res,
            r.debt_res == debt_res,
            r.position_res == position_res,
            r.position_vault@ == (Tokens { resource: position_res, ids: Seq::empty() }),
            r.unused_positions@ == Seq::<(Decimal, LocalId)>::empty(),
            r.unused_positions_count.attos() == 0,
            r.fee_vault.resource == supply_res,
            r.fee_vault.amount.attos() == 0,
    {
        YieldMultiplierV1Cluster {
            owner_badge_res,
            parent_platform,
            verification_badge_vault: NonFungibleVault::new(verification_badge_res),
            supply_res,
            debt_res,
            position_res,
            position_vault: NonFungibleVault::new(position_res),
            unused_positions: Vec::new(),
            unused_positions_count: Decimal::zero(),
            fee_vault: FungibleVault::new(supply_res),
        }
    }

    /// The platform that the cluster belongs to.
    pub fn get_parent_platform(&self) -> (r: ComponentRef)
        ensures
            r == self.parent_platform,
    {
        self.parent_platform
    }

    /// Takes the platform's verification badge into custody. A bucket of
    /// another resource, or not of exactly one badge, is refused.
    pub fn add_verification(&mut self, verification_badge: NonFungibleBucket) -> (r: Result<
        (),
        DepositError,
    >)
        ensures
            match Self::bucket_refusal(verification_badge@, old(self).verification_badge_vault.resource) {
                Some(e) => r == Err::<(), DepositError>(e) && *final(self) == *old(self),
                None => r.is_ok() && final(self).verification_badge_vault@ == (Tokens {
                    resource: old(self).verification_badge_vault.resource,
                    ids: old(self).verification_badge_vault.ids@ + verification_badge.ids@,
                })
                    && final(self).position_vault == old(self).position_vault
                    && final(self).unused_positions == old(self).unused_positions
                    && final(self).unused_positions_count == old(self).unused_positions_count
                    && final(self).same_setup(
                    *old(self),
                ),
            },
    {
        if verification_badge.resource_address() != self.verification_badge_vault.resource_address() {
            return Err(DepositError::IncorrectResource);
        }
        if verification_badge.amount() != 1 {
            return Err(DepositError::IncorrectAmount);
        }
        let put = self.verification_badge_vault.put(verification_badge);
        Ok(())
    }

    /// Takes a position that no user holds into the vault and lists it under
    /// the current count, which then grows by one.
    pub fn add_unused_position(&mut self, position: NonFungibleBucket) -> (r: Result<(), DepositError>)
        ensures
            match old(self).unused_position_refusal(position@) {
                Some(e) => r == Err::<(), DepositError>(e) && *final(self) == *old(self),
                None => r.is_ok() && final(self).unused_positions@ == old(self).unused_positions@.push(
                    (old(self).unused_positions_count, position.ids@[0]),
                )
                    && final(self).unused_positions_count.attos() == old(self).unused_positions_count.attos() + scale()
                    && final(self).position_vault@ == (Tokens {
                    resource: old(self).position_vault.resource,
                    ids: old(self).position_vault.ids@ + position.ids@,
                }) && final(self).verification_badge_vault == old(self).verification_badge_vault
                    && final(self).same_setup(*old(self)),
            },
    {
        if position.resource_address() != self.position_res {
            return Err(DepositError::IncorrectResource);
        }
        if position.amount() != 1 {
            return Err(DepositError::IncorrectAmount);
        }
        if position.resource_address() != self.position_vault.resource_address() {
            return Err(DepositError::IncorrectResource);
        }
        let local_id = position.non_fungible_local_id();
        let next_count = match self.unused_positions_count.checked_add(Decimal::one()) {
            Some(next_count) => next_count,
            None => {
                return Err(DepositError::CounterOverflow);
            },
        };
        self.unused_positions.push((self.unused_positions_count, local_id));
        self.unused_positions_count = next_count;
        let put = self.position_vault.put(position);
        Ok(())
    }
}

} // verus!
