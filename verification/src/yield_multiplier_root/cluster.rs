//! The cluster component on Root Finance's market: it takes one position per
//! user into custody, registers the account with the platform it is linked
//! to, and hands the position out for one execution session at a time.

use crate::decimal::Decimal;
use crate::yield_multiplier_weftv2::execution::SessionError;
use crate::yield_multiplier_root::root::overflows;
use crate::yield_multiplier_weftv2::execution::needs_prices;
use crate::yield_multiplier_weftv2::fees::valid_points;
use crate::yield_multiplier_weftv2::fees::rates_non_decreasing;
use crate::decimal::scale;
use crate::ledger::AccessRule;
use crate::ledger::ComponentRef;
use crate::ledger::FungibleBucket;
use crate::ledger::FungibleVault;
use crate::ledger::LocalId;
use crate::ledger::NonFungibleBucket;
use crate::ledger::NonFungibleProof;
use crate::ledger::NonFungibleVault;
use crate::ledger::ResourceError;
use crate::ledger::ResourceRef;
use crate::ledger::Tokens;
use crate::platform::platform::AccountRegistry;
use crate::shared::links::LinkError;
use crate::shared::links::LinkReceiver;
use crate::shared::links::LinkState;
use crate::shared::services::SetLock;
use crate::yield_multiplier_root::info::AccountInfo;
use crate::yield_multiplier_root::root::check_cdp;
use crate::yield_multiplier_root::root::read_metrics;
use crate::yield_multiplier_root::root::validate_cdp;
use crate::yield_multiplier_root::root::view_of;
use crate::yield_multiplier_root::root::CollaterizedDebtPositionData;
use crate::yield_multiplier_weftv2::accounts::AccountData;
use crate::yield_multiplier_weftv2::cluster::ClusterError;
use crate::yield_multiplier_weftv2::cluster::ClusterView;
use crate::yield_multiplier_weftv2::execution::compute_liquidity_delta;
use crate::yield_multiplier_weftv2::execution::compute_session_fee;
use crate::yield_multiplier_weftv2::execution::prices_of;
use crate::yield_multiplier_weftv2::execution::ExecutionTerms;
use crate::yield_multiplier_weftv2::fees::points_refusal;
use crate::yield_multiplier_weftv2::fees::FeeCurve;
use crate::yield_multiplier_weftv2::fees::FeePoint;
use crate::yield_multiplier_weftv2::fees::FeeStructure;
use crate::yield_multiplier_weftv2::info::ClusterInfo;
use crate::yield_multiplier_weftv2::info::FeeInfo;
use crate::yield_multiplier_weftv2::services::ClusterService;
use crate::yield_multiplier_weftv2::services::ClusterServiceManager;
use crate::yield_multiplier_weftv2::weft::is_valid;
use crate::yield_multiplier_weftv2::weft::metrics_of;
use crate::yield_multiplier_weftv2::weft::CDPView;
use crate::yield_multiplier_weftv2::weft::Violation;
use scrypto::prelude::IndexMap;
use std::collections::HashMap;
use std::hash::RandomState;
use vstd::prelude::*;

verus! {

/// What the cluster reports about the account of `local_id`, given what the
/// market records of the position and whether an amount of the pair is too
/// large to be reported; or the refusal.
pub open spec fn account_info_outcome(
    cluster: ClusterView,
    local_id: LocalId,
    cdp_data: Option<CDPView>,
    overflows: bool,
) -> Result<AccountInfo, ClusterError> {
    if !cluster.accounts.contains_key(local_id.0) || cluster.accounts[local_id.0].ids.len() != 1 {
        Err(ClusterError::NoOpenAccount)
    } else {
        match cdp_data {
            None => Err(ClusterError::VenueUnavailable),
            Some(cdp_data) => if overflows {
                Err(ClusterError::Session(SessionError::Overflow))
            } else {
                Ok(
                    AccountInfo {
                        cdp_id: cluster.accounts[local_id.0].ids[0],
                        supply_units: metrics_of(cdp_data, cluster.supply, cluster.debt).supply,
                        debt_units: metrics_of(cdp_data, cluster.supply, cluster.debt).debt,
                    },
                )
            },
        }
    }
}

/// The cluster's state.
#[derive(Debug)]
pub struct YieldMultiplierRootCluster {
    /// The cluster's own address.
    pub component_address: ComponentRef,
    /// What the owner of the cluster presents.
    pub owner_rule: AccessRule,
    /// What an admin of the cluster presents.
    pub admin_rule: AccessRule,
    /// The platform the cluster belongs to.
    pub platform_address: ComponentRef,
    /// The vault of the link badge.
    pub link: NonFungibleVault,
    /// The resource type of the platform's user badges.
    pub user_resource: ResourceRef,
    /// The asset that positions may supply.
    pub supply: ResourceRef,
    /// The asset that positions may borrow.
    pub debt: ResourceRef,
    /// The switches of the cluster's operations.
    pub services: ClusterServiceManager,
    /// The resource type of execution-terms badges.
    pub execution_term_manager: ResourceRef,
    /// The terms of each open session, by the identifier of its badge.
    pub execution_terms: HashMap<u64, ExecutionTerms>,
    /// How many execution-terms badges were minted.
    pub execution_count: u64,
    /// Each user's account, by the identifier of the user badge.
    pub accounts: HashMap<u64, AccountData>,
    /// How many accounts are open.
    pub account_count: u64,
    /// The flat fees the cluster quotes.
    pub fee_structure: FeeStructure,
    /// The curve that sets the fee of a session.
    pub fee_curve: FeeCurve,
    /// The fees collected.
    pub fee_vault: FungibleVault,
    /// The resource type of the market's positions.
    pub cdp_manager: ResourceRef,
}

impl View for YieldMultiplierRootCluster {
    type V = ClusterView;

    open spec fn view(&self) -> ClusterView {
        ClusterView {
            component_address: self.component_address,
            owner_rule: self.owner_rule,
            admin_rule: self.admin_rule,
            platform_address: self.platform_address,
            link: self.link@,
            user_resource: self.user_resource,
            supply: self.supply,
            debt: self.debt,
            services: self.services,
            execution_term_manager: self.execution_term_manager,
            execution_terms: self.execution_terms@,
            execution_count: self.execution_count,
            accounts: self.accounts@.map_values(|account: AccountData| account.cdp_vault@),
            account_count: self.account_count,
            fee_structure: self.fee_structure,
            fee_curve: self.fee_curve@,
            fee_resource: self.fee_vault.resource,
            fees: self.fee_vault.amount.attos(),
            market_address: None,
            cdp_manager: self.cdp_manager,
        }
    }
}

impl LinkReceiver for YieldMultiplierRootCluster {
    open spec fn link_state(&self) -> LinkState {
        self@.link_state()
    }

    open spec fn differs_only_in_link(&self, before: &Self) -> bool {
        self@ == (ClusterView { link: self@.link, ..before@ })
    }

    fn component_address(&self) -> (r: ComponentRef) {
        self.component_address
    }

    fn handle_link(&mut self, bucket: NonFungibleBucket) -> (r: Result<(), LinkError>) {
        if !self.services.get(ClusterService::Link) {
            return Err(LinkError::ServiceDisabled);
        }
        if self.link.amount() != 0 {
            return Err(LinkError::AlreadyLinked);
        }
        if bucket.amount() != 1 {
            return Err(LinkError::InvalidAmount);
        }
        if self.link.resource_address() != bucket.resource_address() {
            return Err(LinkError::InvalidResource);
        }
        let put = self.link.put(bucket);
        Ok(())
    }
}

impl YieldMultiplierRootCluster {
    /// A new cluster at `component_address` for the pair `supply` and
    /// `debt`, belonging to the platform at `platform_address`, whose link
    /// and user badges are of `link_resource` and `user_resource`. Its owner
    /// is who meets `owner_rule`, its admins who meet `admin_rule`. It
    /// starts unlinked, without accounts, with every operation switched on
    /// and the default fees.
    pub fn instantiate(
        owner_rule: AccessRule,
        admin_rule: AccessRule,
        component_address: ComponentRef,
        platform_address: ComponentRef,
        link_resource: ResourceRef,
        user_resource: ResourceRef,
        supply: ResourceRef,
        debt: ResourceRef,
        cdp_resource: ResourceRef,
        execution_terms_resource: ResourceRef,
        fee_resource: ResourceRef,
    ) -> (r: YieldMultiplierRootCluster)
        ensures
            r@ == ClusterView::initial(
                owner_rule,
                admin_rule,
                component_address,
                platform_address,
                link_resource,
                user_resource,
                supply,
                debt,
                None,
                cdp_resource,
                execution_terms_resource,
                fee_resource,
                r@.fee_structure,
                r@.fee_curve,
            ),
            r@.fee_structure.open.attos() == 16 * scale(),
            r@.fee_structure.close.attos() == 4 * scale(),
            r@.fee_structure.execute.attos() == 4 * scale(),
            valid_points(r@.fee_curve),
            rates_non_decreasing(r@.fee_curve),
    {
        let cluster = YieldMultiplierRootCluster {
            component_address,
            owner_rule,
            admin_rule,
            platform_address,
            link: NonFungibleVault::new(link_resource),
            user_resource,
            supply,
            debt,
            services: ClusterServiceManager::new(),
            execution_term_manager: execution_terms_resource,
            execution_terms: HashMap::new(),
            execution_count: 0,
            accounts: HashMap::new(),
            account_count: 0,
            fee_structure: FeeStructure::default(),
            fee_curve: FeeCurve::default(),
            fee_vault: FungibleVault::new(fee_resource),
            cdp_manager: cdp_resource,
        };
        proof {
            assert(cluster@.accounts =~= Map::<u64, Tokens>::empty());
        }
        cluster
    }

    /// Presents the link badge for a call into `platform`.
    fn __with_link<R: AccountRegistry>(&self, platform: &R) -> (r: Result<
        NonFungibleProof,
        ClusterError,
    >)
        ensures
            match self@.link_proof(platform.registry_address()) {
                Ok(proof) => r.is_ok() && r.unwrap()@ == proof,
                Err(e) => r == Err::<NonFungibleProof, ClusterError>(e),
            },
    {
        if self.link.amount() != 1 {
            return Err(ClusterError::NotLinked);
        }
        if !self.services.get(ClusterService::CallLinked) {
            return Err(ClusterError::ServiceDisabled(ClusterService::CallLinked));
        }
        if platform.address() != self.platform_address {
            return Err(ClusterError::WrongPlatform);
        }
        Ok(self.link.create_proof_of_all())
    }

    /// General information about the cluster.
    pub fn get_cluster_info(&self) -> (r: ClusterInfo)
        ensures
            r == self@.info(),
    {
        let fee_info = FeeInfo {
            open: self.fee_structure.open,
            close: self.fee_structure.close,
            execute: self.fee_structure.execute,
        };
        ClusterInfo {
            platform_address: self.platform_address,
            cluster_address: self.component_address,
            linked: self.link.amount() > 0,
            supply_res: self.supply,
            debt_res: self.debt,
            account_count: self.account_count,
            execution_term_manager: self.execution_term_manager,
            fee_info,
        }
    }

    /// Switches one of the cluster's operations on or off. Refused while
    /// that switch is locked.
    pub fn update_service(&mut self, auth: &Vec<ResourceRef>, service: ClusterService, value: bool) -> (r:
        Result<
        (),
        ClusterError,
    >)
        ensures
            if old(self)@.may_manage_services(auth@) {
                match old(self)@.update_service_outcome(service, value, SetLock::Unchanged) {
                    Ok(next) => r.is_ok() && final(self)@ == next,
                    Err(e) => r == Err::<(), ClusterError>(e) && final(self)@ == old(self)@,
                }
            } else {
                r == Err::<(), ClusterError>(ClusterError::AccessDenied)
                    && final(self)@ == old(self)@
            },
    {
        if !(self.admin_rule.check(auth) || self.owner_rule.check(auth)) {
            return Err(ClusterError::AccessDenied);
        }
        match self.services.update(service, value, SetLock::Unchanged) {
            Ok(()) => Ok(()),
            Err(_) => Err(ClusterError::ServiceLocked),
        }
    }

    /// Switches one of the cluster's operations on or off and sets whether
    /// that switch is locked from now on.
    pub fn update_service_and_set_lock(&mut self, auth: &Vec<ResourceRef>, service: ClusterService, value: bool, locked: bool)
        -> (r: Result<(), ClusterError>)
        ensures
            if old(self)@.may_lock_services(auth@) {
                match old(self)@.update_service_outcome(service, value, SetLock::Update(locked)) {
                    Ok(next) => r.is_ok() && final(self)@ == next,
                    Err(e) => r == Err::<(), ClusterError>(e) && final(self)@ == old(self)@,
                }
            } else {
                r == Err::<(), ClusterError>(ClusterError::AccessDenied)
                    && final(self)@ == old(self)@
            },
    {
        if !(self.owner_rule.check(auth)) {
            return Err(ClusterError::AccessDenied);
        }
        match self.services.update(service, value, SetLock::Update(locked)) {
            Ok(()) => Ok(()),
            Err(_) => Err(ClusterError::ServiceLocked),
        }
    }

    /// Replaces each quoted fee for which a new amount is given. Refused
    /// to a caller who may not manage fees.
    pub fn set_fee_structure(
        &mut self,
        auth: &Vec<ResourceRef>,
        open: Option<Decimal>,
        close: Option<Decimal>,
        execute: Option<Decimal>,
    ) -> (r: Result<(), ClusterError>)
        ensures
            if old(self)@.may_manage_fees(auth@) {
                r.is_ok() && final(self)@ == (ClusterView {
                    fee_structure: FeeStructure {
                        open: match open {
                            Some(fee) => fee,
                            None => old(self)@.fee_structure.open,
                        },
                        close: match close {
                            Some(fee) => fee,
                            None => old(self)@.fee_structure.close,
                        },
                        execute: match execute {
                            Some(fee) => fee,
                            None => old(self)@.fee_structure.execute,
                        },
                    },
                    ..old(self)@
                })
            } else {
                r == Err::<(), ClusterError>(ClusterError::AccessDenied)
                    && final(self)@ == old(self)@
            },
    {
        if !self.owner_rule.check(auth) {
            return Err(ClusterError::AccessDenied);
        }
        self.fee_structure.set(open, close, execute);
        Ok(())
    }

    /// Replaces the fee curve by the one through `points`, if they form
    /// one; refuses them otherwise and keeps the curve as it was.
    pub fn set_fee_curve(&mut self, auth: &Vec<ResourceRef>, points: Vec<FeePoint>) -> (r: Result<(), ClusterError>)
        ensures
            if old(self)@.may_manage_fees(auth@) {
                match points_refusal(points@) {
                    Some(e) => r == Err::<(), ClusterError>(ClusterError::Fee(e)) && final(self)@
                        == old(self)@,
                    None => r.is_ok() && final(self)@ == (ClusterView {
                        fee_curve: points@,
                        ..old(self)@
                    }),
                }
            } else {
                r == Err::<(), ClusterError>(ClusterError::AccessDenied)
                    && final(self)@ == old(self)@
            },
    {
        if !(self.owner_rule.check(auth)) {
            return Err(ClusterError::AccessDenied);
        }
        match self.fee_curve.set_points(points) {
            Ok(()) => Ok(()),
            Err(e) => Err(ClusterError::Fee(e)),
        }
    }

    /// Empties the fee vault into a bucket. Refused to a caller who may not
    /// manage fees.
    pub fn collect_fees(&mut self, auth: &Vec<ResourceRef>) -> (r: Result<FungibleBucket, ClusterError>)
        ensures
            if old(self)@.may_manage_fees(auth@) {
                r.is_ok()
                    && r.unwrap().resource == old(self)@.fee_resource
                    && r.unwrap().amount.attos() == old(self)@.fees
                    && final(self)@ == (ClusterView { fees: 0, ..old(self)@ })
            } else {
                r == Err::<FungibleBucket, ClusterError>(ClusterError::AccessDenied)
                    && final(self)@ == old(self)@
            },
    {
        if !self.owner_rule.check(auth) {
            return Err(ClusterError::AccessDenied);
        }
        Ok(self.fee_vault.take_all())
    }

    /// Opens an account: takes the position `cdp` into custody for the
    /// holder of `user_badge` and registers the account with the platform.
    /// `cdp_data` is what the market records of the position, if it could be
    /// fetched. On refusal cluster and platform stay as they were.
    pub fn open_account<R: AccountRegistry>(
        &mut self,
        platform: &mut R,
        user_badge: &NonFungibleProof,
        cdp: NonFungibleBucket,
        cdp_data: Option<&CollaterizedDebtPositionData>,
    ) -> (r: Result<(), ClusterError>)
        ensures
            final(platform).registry_address() == old(platform).registry_address(),
            match old(self)@.open_account_check(
                old(platform).registry_address(),
                user_badge@,
                cdp@,
                view_of(cdp_data),
            ) {
                Err(e) => r == Err::<(), ClusterError>(e)
                    && final(self)@ == old(self)@
                    && *final(platform) == *old(platform),
                Ok(user) => match old(platform).open_account_refusal(old(self)@.link, user) {
                    Some(e) => r == Err::<(), ClusterError>(ClusterError::Platform(e))
                        && final(self)@ == old(self)@
                        && *final(platform) == *old(platform),
                    None => r.is_ok() && final(self)@ == old(self)@.after_open_account(user, cdp@)
                        && final(platform).account_opened(old(platform), old(self)@.link, user),
                },
            },
    {
        if !self.services.get(ClusterService::OpenAccount) {
            return Err(ClusterError::ServiceDisabled(ClusterService::OpenAccount));
        }
        if self.link.amount() != 1 {
            return Err(ClusterError::NotLinked);
        }
        if cdp.amount() != 1 {
            return Err(ClusterError::InvalidCdpAmount);
        }
        if cdp.resource_address() != self.cdp_manager {
            return Err(ClusterError::InvalidCdpResource);
        }
        match check_cdp(cdp_data, self.supply, self.debt) {
            Some(violation) => {
                return Err(ClusterError::InvalidCdp(violation));
            },
            None => {},
        }
        let user_id = match self.__validate_user(user_badge) {
            Ok(user_id) => user_id,
            Err(e) => {
                return Err(e);
            },
        };
        if self.has_open_account(user_id) {
            return Err(ClusterError::AccountAlreadyOpen);
        }
        if self.account_count == u64::MAX {
            return Err(ClusterError::CapacityExhausted);
        }
        let link_badge = match self.__with_link(platform) {
            Ok(link_badge) => link_badge,
            Err(e) => {
                return Err(e);
            },
        };
        match platform.open_account(&link_badge, user_id) {
            Ok(()) => {},
            Err(e) => {
                return Err(ClusterError::Platform(e));
            },
        }
        let account = AccountData::new(NonFungibleVault::with_bucket(cdp));
        self.accounts.insert(user_id.0, account);
        self.account_count += 1;
        proof {
            assert(self@.accounts =~= old(self)@.accounts.insert(user_id.0, cdp@));
        }
        Ok(())
    }

    /// Closes the account of the holder of `user_badge`: deregisters it with
    /// the platform and hands the position back. On refusal cluster and
    /// platform stay as they were.
    pub fn close_account<R: AccountRegistry>(&mut self, platform: &mut R, user_badge: &NonFungibleProof)
        -> (r: Result<NonFungibleBucket, ClusterError>)
        ensures
            final(platform).registry_address() == old(platform).registry_address(),
            match old(self)@.close_account_check(old(platform).registry_address(), user_badge@) {
                Err(e) => r == Err::<NonFungibleBucket, ClusterError>(e)
                    && final(self)@ == old(self)@
                    && *final(platform) == *old(platform),
                Ok(user) => match old(platform).close_account_refusal(old(self)@.link, user) {
                    Some(e) => r == Err::<NonFungibleBucket, ClusterError>(
                        ClusterError::Platform(e),
                    ) && final(self)@ == old(self)@ && *final(platform) == *old(platform),
                    None => r.is_ok() && r.unwrap()@ == old(self)@.accounts[user.0] && final(self)@
                        == old(self)@.after_close_account(user) && final(platform).account_closed(
                        old(platform),
                        old(self)@.link,
                        user,
                    ),
                },
            },
    {
        if !self.services.get(ClusterService::CloseAccount) {
            return Err(ClusterError::ServiceDisabled(ClusterService::CloseAccount));
        }
        if self.account_count == 0 {
            return Err(ClusterError::NoAccountsToClose);
        }
        if self.link.amount() != 1 {
            return Err(ClusterError::NotLinked);
        }
        let user_id = match self.__validate_user(user_badge) {
            Ok(user_id) => user_id,
            Err(e) => {
                return Err(e);
            },
        };
        if !self.has_open_account(user_id) {
            return Err(ClusterError::NoOpenAccount);
        }
        let link_badge = match self.__with_link(platform) {
            Ok(link_badge) => link_badge,
            Err(e) => {
                return Err(e);
            },
        };
        match platform.close_account(&link_badge, user_id) {
            Ok(()) => {},
            Err(e) => {
                return Err(ClusterError::Platform(e));
            },
        }
        let mut account = self.accounts.remove(&user_id.0).unwrap();
        let cdp_bucket = account.cdp_vault.take_all();
        self.accounts.insert(user_id.0, account);
        self.account_count -= 1;
        proof {
            assert(self@.accounts =~= old(self)@.accounts.insert(
                user_id.0,
                Tokens { resource: old(self)@.accounts[user_id.0].resource, ids: Seq::empty() },
            ));
        }
        Ok(cdp_bucket)
    }

    /// Reports what the position in the account of `local_id` holds of the
    /// cluster's pair. `cdp_data` is what the market records of the
    /// position, if it could be fetched.
    pub fn get_account_info(
        &self,
        local_id: LocalId,
        cdp_data: Option<&CollaterizedDebtPositionData>,
    ) -> (r: Result<AccountInfo, ClusterError>)
        ensures
            r == account_info_outcome(
                self@,
                local_id,
                view_of(cdp_data),
                overflows(cdp_data, self.supply, self.debt),
            ),
    {
        let cdp_id = match self.accounts.get(&local_id.0) {
            Some(account) => {
                if account.cdp_vault.amount() != 1 {
                    return Err(ClusterError::NoOpenAccount);
                }
                account.cdp_vault.non_fungible_local_id()
            },
            None => {
                return Err(ClusterError::NoOpenAccount);
            },
        };
        let cdp_data = match cdp_data {
            Some(cdp_data) => cdp_data,
            None => {
                return Err(ClusterError::VenueUnavailable);
            },
        };
        match read_metrics(cdp_data, self.supply, self.debt) {
            Some(metrics) => Ok(
                AccountInfo { cdp_id, supply_units: metrics.supply, debt_units: metrics.debt },
            ),
            None => Err(ClusterError::Session(SessionError::Overflow)),
        }
    }

    /// Starts an execution session: hands the position of the holder of
    /// `user_badge` out, together with a fresh execution-terms badge that
    /// binds the user, the position and what the position holds now.
    /// `cdp_data` is what the market records of the position, if it could be
    /// fetched.
    pub fn start_execution(&mut self, user_badge: &NonFungibleProof, cdp_data: Option<&CollaterizedDebtPositionData>) -> (r:
        Result<(NonFungibleBucket, NonFungibleBucket), ClusterError>)
        ensures
            match old(self)@.start_execution_outcome(user_badge@, view_of(cdp_data)) {
                Ok((next, cdp, terms)) => if overflows(cdp_data, old(self)@.supply, old(self)@.debt) {
                    r == Err::<(NonFungibleBucket, NonFungibleBucket), ClusterError>(
                        ClusterError::Session(SessionError::Overflow),
                    ) && final(self)@ == old(self)@
                } else {
                    r.is_ok() && r.unwrap().0@ == cdp && r.unwrap().1@ == terms && final(self)@ == next
                },
                Err(e) => r == Err::<(NonFungibleBucket, NonFungibleBucket), ClusterError>(e)
                    && final(self)@ == old(self)@,
            },
    {
        if !self.services.get(ClusterService::Execute) {
            return Err(ClusterError::ServiceDisabled(ClusterService::Execute));
        }
        let user_id = match self.__validate_user(user_badge) {
            Ok(user_id) => user_id,
            Err(e) => {
                return Err(e);
            },
        };
        let cdp_id = match self.accounts.get(&user_id.0) {
            Some(account) => {
                if account.cdp_vault.amount() != 1 {
                    return Err(ClusterError::NoOpenAccount);
                }
                account.cdp_vault.non_fungible_local_id()
            },
            None => {
                return Err(ClusterError::NoOpenAccount);
            },
        };
        let cdp_data = match cdp_data {
            Some(cdp_data) => cdp_data,
            None => {
                return Err(ClusterError::VenueUnavailable);
            },
        };
        if self.execution_count == u64::MAX {
            return Err(ClusterError::CapacityExhausted);
        }
        let baseline = match read_metrics(cdp_data, self.supply, self.debt) {
            Some(baseline) => baseline,
            None => {
                return Err(ClusterError::Session(SessionError::Overflow));
            },
        };
        let mut account = self.accounts.remove(&user_id.0).unwrap();
        let cdp_bucket = account.cdp_vault.take_all();
        self.accounts.insert(user_id.0, account);
        let terms_id = LocalId(self.execution_count);
        let terms = ExecutionTerms::new(cdp_id, user_id, baseline);
        self.execution_terms.insert(terms_id.0, terms);
        self.execution_count += 1;
        let execution_terms = NonFungibleBucket::single(self.execution_term_manager, terms_id);
        proof {
            assert(self@.accounts =~= old(self)@.accounts.insert(
                user_id.0,
                Tokens { resource: old(self)@.accounts[user_id.0].resource, ids: Seq::empty() },
            ));
        }
        Ok((cdp_bucket, execution_terms))
    }

    /// Ends an execution session: consumes the session's badge, checks the
    /// returned position against the cluster's rules, takes the session's
    /// fee out of `fee_payment` and puts the position back into the vault of
    /// the user that the badge names. What is left of the payment is handed
    /// back. `cdp_data` is what the market records of the position now and
    /// `prices` its prices, as far as they could be fetched. On refusal the
    /// cluster stays as it was and the session stays open.
    pub fn end_execution(
        &mut self,
        cdp_bucket: NonFungibleBucket,
        terms_bucket: NonFungibleBucket,
        fee_payment: FungibleBucket,
        cdp_data: Option<&CollaterizedDebtPositionData>,
        prices: Option<&IndexMap<u64, Decimal, RandomState>>,
    ) -> (r: Result<FungibleBucket, ClusterError>)
        ensures
            if old(self)@.end_execution_precheck(cdp_bucket@, terms_bucket@, view_of(cdp_data)) is Ok
                && overflows(cdp_data, old(self)@.supply, old(self)@.debt) {
                r == Err::<FungibleBucket, ClusterError>(ClusterError::Session(SessionError::Overflow))
                    && final(self)@ == old(self)@
            } else {
                match old(self)@.end_execution_outcome(
                    cdp_bucket@,
                    terms_bucket@,
                    fee_payment,
                    view_of(cdp_data),
                    prices_of(prices),
                ) {
                    Ok((next, change)) => r.is_ok() && r.unwrap().resource == fee_payment.resource
                        && r.unwrap().amount.attos() == change && final(self)@ == next,
                    Err(e) => r == Err::<FungibleBucket, ClusterError>(e) && final(self)@ == old(
                        self,
                    )@,
                }
            },
    {
        if terms_bucket.resource_address() != self.execution_term_manager {
            return Err(ClusterError::InvalidExecutionTerms);
        }
        if terms_bucket.amount() != 1 {
            return Err(ClusterError::InvalidExecutionTermsAmount);
        }
        let terms_id = terms_bucket.non_fungible_local_id();
        let terms = match self.execution_terms.get(&terms_id.0) {
            Some(terms) => *terms,
            None => {
                return Err(ClusterError::UnknownExecutionTerms);
            },
        };
        if cdp_bucket.amount() != 1 {
            return Err(ClusterError::InvalidCdpAmount);
        }
        if cdp_bucket.resource_address() != self.cdp_manager {
            return Err(ClusterError::InvalidCdpResource);
        }
        if cdp_bucket.non_fungible_local_id() != terms.cdp_id {
            return Err(ClusterError::PositionMismatch);
        }
        match check_cdp(cdp_data, self.supply, self.debt) {
            Some(violation) => {
                return Err(ClusterError::InvalidCdp(violation));
            },
            None => {},
        }
        let cdp_data = match cdp_data {
            Some(cdp_data) => cdp_data,
            None => {
                return Err(ClusterError::InvalidCdp(Violation::Unresolvable));
            },
        };
        let current = match read_metrics(cdp_data, self.supply, self.debt) {
            Some(current) => current,
            None => {
                return Err(ClusterError::Session(SessionError::Overflow));
            },
        };
        let delta = match compute_liquidity_delta(
            terms.baseline,
            current,
            self.supply,
            self.debt,
            prices,
        ) {
            Ok(delta) => delta,
            Err(e) => {
                return Err(ClusterError::Session(e));
            },
        };
        let fee = match compute_session_fee(&self.fee_curve, delta) {
            Ok(fee) => fee,
            Err(e) => {
                return Err(ClusterError::Session(e));
            },
        };
        let mut fee_payment = fee_payment;
        if fee_payment.resource_address() != self.fee_vault.resource_address() {
            return Err(ClusterError::InvalidFeePayment(ResourceError::ResourceMismatch));
        }
        if fee.is_negative() {
            return Err(ClusterError::InvalidFeePayment(ResourceError::NegativeAmount));
        }
        if fee_payment.amount().lt(&fee) {
            return Err(ClusterError::InvalidFeePayment(ResourceError::InsufficientBalance));
        }
        match self.accounts.get(&terms.user_local_id.0) {
            Some(account) => {
                if account.cdp_vault.amount() != 0 {
                    return Err(ClusterError::AccountAlreadyOpen);
                }
            },
            None => {
                return Err(ClusterError::NoOpenAccount);
            },
        }
        let fee_bucket = match fee_payment.take(fee) {
            Ok(fee_bucket) => fee_bucket,
            Err(e) => {
                return Err(ClusterError::InvalidFeePayment(e));
            },
        };
        match self.fee_vault.put(fee_bucket) {
            Ok(()) => {},
            Err(e) => {
                return Err(ClusterError::FeeVault(e));
            },
        }
        let account = AccountData::new(NonFungibleVault::with_bucket(cdp_bucket));
        self.accounts.insert(terms.user_local_id.0, account);
        self.execution_terms.remove(&terms_id.0);
        proof {
            assert(self@.accounts =~= old(self)@.accounts.insert(
                terms.user_local_id.0,
                cdp_bucket@,
            ));
        }
        Ok(fee_payment)
    }

    /// Decides whether the market's prices must be fetched before the
    /// session of the badge in `terms_bucket` is ended with a position of
    /// the contents `cdp_data`.
    pub fn session_needs_prices(&self, terms_bucket: &NonFungibleBucket, cdp_data: Option<&CollaterizedDebtPositionData>) -> (r:
        bool)
        ensures
            r == (!overflows(cdp_data, self@.supply, self@.debt) && self@.session_needs_prices(
                terms_bucket@,
                view_of(cdp_data),
            )),
    {
        if terms_bucket.resource_address() != self.execution_term_manager {
            return false;
        }
        if terms_bucket.amount() != 1 {
            return false;
        }
        let terms = match self.execution_terms.get(&terms_bucket.non_fungible_local_id().0) {
            Some(terms) => *terms,
            None => {
                return false;
            },
        };
        match cdp_data {
            Some(cdp_data) => match read_metrics(cdp_data, self.supply, self.debt) {
                Some(current) => needs_prices(terms.baseline, current, self.supply, self.debt),
                None => false,
            },
            None => false,
        }
    }

    /// Whether the user has a position in custody.
    pub fn has_open_account(&self, user_id: LocalId) -> (r: bool)
        ensures
            r == self@.has_open_account(user_id),
    {
        match self.accounts.get(&user_id.0) {
            Some(account) => account.cdp_vault.amount() != 0,
            None => false,
        }
    }

    /// Checks a proof of a user badge and gives the user's identifier.
    pub fn __validate_user(&self, user_badge: &NonFungibleProof) -> (r: Result<LocalId, ClusterError>)
        ensures
            r == self@.validate_user(user_badge@),
    {
        if user_badge.resource_address() != self.user_resource {
            return Err(ClusterError::InvalidUserBadge);
        }
        if user_badge.amount() != 1 {
            return Err(ClusterError::InvalidUserBadgeQuantity);
        }
        Ok(user_badge.non_fungible_local_id())
    }

    /// Decides whether a position of the contents `cdp_data` may be held by
    /// this cluster: the contents must be known, with at most one supplied
    /// and one borrowed resource, no unique tokens as collateral, and the
    /// resources those of the cluster's pair.
    pub fn __validate_cdp(&self, cdp_data: Option<&CollaterizedDebtPositionData>) -> (valid: bool)
        ensures
            valid == is_valid(view_of(cdp_data), self@.supply, self@.debt),
    {
        validate_cdp(cdp_data, self.supply, self.debt)
    }
}

} // verus!
