//! A cluster that keeps each position in a vault of its own, under the
//! position's identifier. It links and opens accounts; closing an account
//! and executing on a position do nothing.

use crate::ledger::ComponentRef;
use crate::ledger::NonFungibleBucket;
use crate::ledger::NonFungibleProof;
use crate::ledger::NonFungibleVault;
use crate::ledger::ResourceRef;
use crate::ledger::Tokens;
use crate::platform::platform::AccountRegistry;
use crate::platform::platform::Platform;
use crate::platform::platform::PlatformView;
use crate::shared::links::LinkError;
use crate::shared::links::LinkReceiver;
use crate::shared::links::LinkState;
use crate::yield_multiplier_weftv2::cluster::ClusterError;
use crate::yield_multiplier_weftv2::weft::is_valid;
use crate::yield_multiplier_weftv2::weft::view_of;
use crate::yield_multiplier_weftv2::weft::CDPData;
use std::collections::HashMap;
use vstd::prelude::*;

verus! {

/// The cluster's state.
#[derive(Debug)]
pub struct YieldMultiplierV1ClusterWeftV2 {
    /// The cluster's own address.
    pub component_address: ComponentRef,
    /// The resource type of the owner's badge.
    pub owner_address: ResourceRef,
    /// The platform the cluster belongs to.
    pub platform_address: ComponentRef,
    /// The vault of the link badge.
    pub link: NonFungibleVault,
    /// The resource type of the platform's user badges.
    pub user_badge_address: ResourceRef,
    /// The asset that positions may supply.
    pub supply: ResourceRef,
    /// The asset that positions may borrow.
    pub debt: ResourceRef,
    /// The vault of each position in custody, by the position's identifier.
    pub accounts: HashMap<u64, NonFungibleVault>,
    /// The resource type of execution-terms badges.
    pub execution_term_manager: ResourceRef,
    /// The resource type of the market's positions.
    pub cdp_manager: ResourceRef,
}

impl YieldMultiplierV1ClusterWeftV2 {
    /// Whether the cluster is set up as `other` is: the same addresses,
    /// resources and pair.
    pub open spec fn same_setup(self, other: Self) -> bool {
        &&& self.component_address == other.component_address
        &&& self.owner_address == other.owner_address
        &&& self.platform_address == other.platform_address
        &&& self.user_badge_address == other.user_badge_address
        &&& self.supply == other.supply
        &&& self.debt == other.debt
        &&& self.execution_term_manager == other.execution_term_manager
        &&& self.cdp_manager == other.cdp_manager
    }

    /// The positions in custody, each under its identifier.
    pub open spec fn custody(self) -> Map<u64, Tokens> {
        self.accounts@.map_values(|vault: NonFungibleVault| vault@)
    }

    /// The platform after the holder of `user_badge` opened an account with
    /// the position `cdp`, or the refusal.
    pub open spec fn open_account_outcome(self, platform: PlatformView, user_badge: Tokens, cdp: Tokens)
        -> Result<PlatformView, ClusterError> {
        if self.link@.ids.len() != 1 {
            Err(ClusterError::NotLinked)
        } else if cdp.ids.len() != 1 {
            Err(ClusterError::InvalidCdpAmount)
        } else if cdp.resource != self.cdp_manager {
            Err(ClusterError::InvalidCdpResource)
        } else if platform.component_address != self.platform_address {
            Err(ClusterError::WrongPlatform)
        } else {
            match platform.validate_user(user_badge.resource, user_badge.ids) {
                Err(e) => Err(ClusterError::Platform(e)),
                Ok(user) => match platform.open_account_outcome(
                    self.link.resource,
                    self.link.ids@,
                    user,
                ) {
                    Err(e) => Err(ClusterError::Platform(e)),
                    Ok(next) => Ok(next),
                },
            }
        }
    }

    /// A new, unlinked cluster without positions.
    pub fn instantiate(
        component_address: ComponentRef,
        owner_address: ResourceRef,
        platform_address: ComponentRef,
        link_resource: ResourceRef,
        user_badge_address: ResourceRef,
        supply: ResourceRef,
        debt: ResourceRef,
        cdp_resource: ResourceRef,
        execution_terms_resource: ResourceRef,
    ) -> (r: YieldMultiplierV1ClusterWeftV2)
        ensures
            r.component_address == component_address,
            r.owner_address == owner_address,
            r.platform_address == platform_address,
            r.link@ == (Tokens { resource: link_resource, ids: Seq::empty() }),
            r.user_badge_address == user_badge_address,
            r.supply == supply,
            r.debt == debt,
            r.custody() == Map::<u64, Tokens>::empty(),
            r.execution_term_manager == execution_terms_resource,
            r.cdp_manager == cdp_resource,
    {
        let cluster = YieldMultiplierV1ClusterWeftV2 {
            component_address,
            owner_address,
            platform_address,
            link: NonFungibleVault::new(link_resource),
            user_badge_address,
            supply,
            debt,
            accounts: HashMap::new(),
            execution_term_manager: execution_terms_resource,
            cdp_manager: cdp_resource,
        };
        proof {
            assert(cluster.custody() =~= Map::<u64, Tokens>::empty());
        }
        cluster
    }

    /// Opens an account: registers it with the platform for the holder of
    /// `user_badge` and takes the position `cdp` into a vault of its own.
    pub fn open_account(
        &mut self,
        platform: &mut Platform,
        user_badge: &NonFungibleProof,
        cdp: NonFungibleBucket,
    ) -> (r: Result<(), ClusterError>)
        ensures
            match old(self).open_account_outcome(old(platform)@, user_badge@, cdp@) {
                Ok(next_platform) => r.is_ok()
                    && final(platform)@ == next_platform
                    && final(self).custody() == old(self).custody().insert(cdp.ids@[0].0, cdp@)
                    && final(self).link
                    == old(self).link && final(self).same_setup(*old(self)),
                Err(e) => r == Err::<(), ClusterError>(e)
                    && *final(self) == *old(self)
                    && final(platform)@ == old(platform)@,
            },
    {
        if self.link.amount() != 1 {
            return Err(ClusterError::NotLinked);
        }
        if cdp.amount() != 1 {
            return Err(ClusterError::InvalidCdpAmount);
        }
        if cdp.resource_address() != self.cdp_manager {
            return Err(ClusterError::InvalidCdpResource);
        }
        if platform.component_address != self.platform_address {
            return Err(ClusterError::WrongPlatform);
        }
        let link_badge = self.link.create_proof_of_all();
        let user_id = match platform.__validate_user(user_badge) {
            Ok(user_id) => user_id,
            Err(e) => {
                return Err(ClusterError::Platform(e));
            },
        };
        match platform.open_account(&link_badge, user_id) {
            Ok(()) => {},
            Err(e) => {
                return Err(ClusterError::Platform(e));
            },
        }
        let cdp_local_id = cdp.non_fungible_local_id();
        let cdp_vault = NonFungibleVault::with_bucket(cdp);
        self.accounts.insert(cdp_local_id.0, cdp_vault);
        proof {
            assert(self.custody() =~= old(self).custody().insert(cdp_local_id.0, cdp@));
        }
        Ok(())
    }

    /// Closes no account: nothing happens.
    pub fn close_account(&mut self, user_badge: &NonFungibleProof)
        ensures
            *final(self) == *old(self),
    {
    }

    /// Executes nothing: nothing happens.
    pub fn execute(&mut self, user_badge: &NonFungibleProof)
        ensures
            *final(self) == *old(self),
    {
    }

    /// Decides whether a position of the contents `cdp` may be held by this
    /// cluster: the contents must be known, with at most one supplied and one
    /// borrowed resource, no unique tokens as collateral, and the resources
    /// those of the cluster's pair.
    pub fn validate_cdp(&self, cdp: Option<&CDPData>) -> (valid: bool)
        ensures
            valid == is_valid(view_of(cdp), self.supply, self.debt),
    {
        crate::yield_multiplier_weftv2::weft::validate_cdp(cdp, self.supply, self.debt)
    }
}

impl LinkReceiver for YieldMultiplierV1ClusterWeftV2 {
    /// The cluster has no link service to switch off.
    open spec fn link_state(&self) -> LinkState {
        LinkState {
            address: self.component_address,
            link_resource: self.link.resource,
            accepting: true,
            held: self.link.ids@,
        }
    }

    open spec fn differs_only_in_link(&self, before: &Self) -> bool {
        *self == (YieldMultiplierV1ClusterWeftV2 { link: self.link, ..*before })
    }

    fn component_address(&self) -> (r: ComponentRef) {
        self.component_address
    }

    fn handle_link(&mut self, bucket: NonFungibleBucket) -> (r: Result<(), LinkError>) {
        if self.link.amount() != 0 {
            return Err(LinkError::AlreadyLinked);
        }
        if bucket.amount() != 1 {
            return Err(LinkError::InvalidAmount);
        }
        if self.link.resource_address() != bucket.resource_address() {
            return Err(LinkError::InvalidResource);
        }
        let put = self.link.put(bucket);
        Ok(())
    }
}

} // verus!
