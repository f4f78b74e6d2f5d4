//! The cluster component: it takes one position per user into custody,
//! registers the account with the platform it is linked to, and hands the
//! position out for one execution session at a time.

use crate::decimal::representable;
use crate::decimal::scale;
use crate::decimal::Decimal;
use crate::ledger::AccessRule;
use crate::ledger::ComponentRef;
use crate::ledger::FungibleBucket;
use crate::ledger::FungibleVault;
use crate::ledger::LocalId;
use crate::ledger::NonFungibleBucket;
use crate::ledger::NonFungibleProof;
use crate::ledger::NonFungibleVault;
use crate::ledger::ResourceError;
use crate::ledger::ResourceRef;
use crate::ledger::Tokens;
use crate::platform::platform::AccountRegistry;
use crate::platform::platform::PlatformError;
use crate::shared::links::LinkError;
use crate::shared::links::LinkReceiver;
use crate::shared::links::LinkState;
use crate::shared::services::SetLock;
use crate::yield_multiplier_weftv2::accounts::AccountData;
use crate::yield_multiplier_weftv2::execution::compute_liquidity_delta;
use crate::yield_multiplier_weftv2::execution::compute_session_fee;
use crate::yield_multiplier_weftv2::execution::liquidity_delta;
use crate::yield_multiplier_weftv2::execution::needs_prices;
use crate::yield_multiplier_weftv2::execution::prices_needed;
use crate::yield_multiplier_weftv2::execution::prices_of;
use crate::yield_multiplier_weftv2::execution::session_fee;
use crate::yield_multiplier_weftv2::execution::ExecutionTerms;
use crate::yield_multiplier_weftv2::execution::SessionError;
use crate::yield_multiplier_weftv2::fees::points_refusal;
use crate::yield_multiplier_weftv2::fees::rates_non_decreasing;
use crate::yield_multiplier_weftv2::fees::valid_points;
use crate::yield_multiplier_weftv2::fees::FeeCurve;
use crate::yield_multiplier_weftv2::fees::FeeError;
use crate::yield_multiplier_weftv2::fees::FeePoint;
use crate::yield_multiplier_weftv2::fees::FeeStructure;
use crate::yield_multiplier_weftv2::info::AccountInfo;
use crate::yield_multiplier_weftv2::info::ClusterInfo;
use crate::yield_multiplier_weftv2::info::FeeInfo;
use crate::yield_multiplier_weftv2::services::ClusterService;
use crate::yield_multiplier_weftv2::services::ClusterServiceManager;
use crate::yield_multiplier_weftv2::weft::check_cdp;
use crate::yield_multiplier_weftv2::weft::first_violation;
use crate::yield_multiplier_weftv2::weft::is_valid;
use crate::yield_multiplier_weftv2::weft::amount_of;
use crate::yield_multiplier_weftv2::weft::health_of;
use crate::yield_multiplier_weftv2::weft::metrics_of;
use crate::yield_multiplier_weftv2::weft::read_amount;
use crate::yield_multiplier_weftv2::weft::HealthView;
use crate::yield_multiplier_weftv2::weft::read_metrics;
use crate::yield_multiplier_weftv2::weft::validate_cdp;
use crate::yield_multiplier_weftv2::weft::view_of;
use crate::yield_multiplier_weftv2::weft::CDPData;
use crate::yield_multiplier_weftv2::weft::CDPHealthChecker;
use crate::yield_multiplier_weftv2::weft::CDPView;
use crate::yield_multiplier_weftv2::weft::Violation;
use scrypto::prelude::IndexMap;
use std::collections::HashMap;
use std::hash::RandomState;
use vstd::prelude::*;

verus! {

/// Why the cluster refused a call.
#[derive(Debug, Clone, Copy, PartialEq, Eq, Structural)]
pub enum ClusterError {
    /// The caller does not hold what the operation asks for.
    AccessDenied,
    /// The cluster has the operation switched off.
    ServiceDisabled(ClusterService),
    /// The switch is locked against ordinary updates.
    ServiceLocked,
    /// The cluster does not hold exactly one link badge.
    NotLinked,
    /// The platform handed in is not the one the cluster belongs to.
    WrongPlatform,
    /// The bucket does not hold exactly one position.
    InvalidCdpAmount,
    /// The bucket does not hold positions of the market the cluster is on.
    InvalidCdpResource,
    /// The position breaks a rule of the cluster.
    InvalidCdp(Violation),
    /// The proof is not of the platform's user badge.
    InvalidUserBadge,
    /// The proof does not cover exactly one user badge.
    InvalidUserBadgeQuantity,
    /// The platform refused the call.
    Platform(PlatformError),
    /// The user already has a position in custody.
    AccountAlreadyOpen,
    /// The cluster has no open account at all.
    NoAccountsToClose,
    /// The user has no position in custody.
    NoOpenAccount,
    /// A counter has reached its maximum.
    CapacityExhausted,
    /// The market gave no answer about the position.
    VenueUnavailable,
    /// The bucket is not of the cluster's execution-terms badge.
    InvalidExecutionTerms,
    /// The bucket does not hold exactly one execution-terms badge.
    InvalidExecutionTermsAmount,
    /// The cluster has no open session under this badge: it never minted
    /// the badge, or the session has ended.
    UnknownExecutionTerms,
    /// The position returned is not the one the session handed out.
    PositionMismatch,
    /// The fee could not be computed.
    Session(SessionError),
    /// The fee could not be taken from the payment.
    InvalidFeePayment(ResourceError),
    /// The fee vault cannot hold the fee.
    FeeVault(ResourceError),
    /// The breakpoints do not form a fee curve.
    Fee(FeeError),
}

/// The cluster's state.
#[derive(Debug)]
pub struct YieldMultiplierWeftV2Cluster {
    /// The cluster's own address.
    pub component_address: ComponentRef,
    /// What the owner of the cluster presents.
    pub owner_rule: AccessRule,
    /// What an admin of the cluster presents.
    pub admin_rule: AccessRule,
    /// The platform the cluster belongs to.
    pub platform_address: ComponentRef,
    /// The vault of the link badge.
    pub link: NonFungibleVault,
    /// The resource type of the platform's user badges.
    pub user_resource: ResourceRef,
    /// The asset that positions may supply.
    pub supply: ResourceRef,
    /// The asset that positions may borrow.
    pub debt: ResourceRef,
    /// The switches of the cluster's operations.
    pub services: ClusterServiceManager,
    /// The resource type of execution-terms badges.
    pub execution_term_manager: ResourceRef,
    /// The terms of each open session, by the identifier of its badge.
    pub execution_terms: HashMap<u64, ExecutionTerms>,
    /// How many execution-terms badges were minted.
    pub execution_count: u64,
    /// Each user's account, by the identifier of the user badge.
    pub accounts: HashMap<u64, AccountData>,
    /// How many accounts are open.
    pub account_count: u64,
    /// The flat fees the cluster quotes.
    pub fee_structure: FeeStructure,
    /// The curve that sets the fee of a session.
    pub fee_curve: FeeCurve,
    /// The fees collected.
    pub fee_vault: FungibleVault,
    /// The lending market.
    pub weft_market_address: ComponentRef,
    /// The resource type of the market's positions.
    pub cdp_manager: ResourceRef,
}

/// The cluster's state as plain mathematics.
pub struct ClusterView {
    pub component_address: ComponentRef,
    pub owner_rule: AccessRule,
    pub admin_rule: AccessRule,
    pub platform_address: ComponentRef,
    pub link: Tokens,
    pub user_resource: ResourceRef,
    pub supply: ResourceRef,
    pub debt: ResourceRef,
    pub services: ClusterServiceManager,
    pub execution_term_manager: ResourceRef,
    pub execution_terms: Map<u64, ExecutionTerms>,
    pub execution_count: u64,
    pub accounts: Map<u64, Tokens>,
    pub account_count: u64,
    pub fee_structure: FeeStructure,
    pub fee_curve: Seq<FeePoint>,
    pub fee_resource: ResourceRef,
    /// The fees collected, in subunits.
    pub fees: int,
    /// The market component that the cluster asks about positions, if it
    /// asks one.
    pub market_address: Option<ComponentRef>,
    pub cdp_manager: ResourceRef,
}

impl View for YieldMultiplierWeftV2Cluster {
    type V = ClusterView;

    open spec fn view(&self) -> ClusterView {
        ClusterView {
            component_address: self.component_address,
            owner_rule: self.owner_rule,
            admin_rule: self.admin_rule,
            platform_address: self.platform_address,
            link: self.link@,
            user_resource: self.user_resource,
            supply: self.supply,
            debt: self.debt,
            services: self.services,
            execution_term_manager: self.execution_term_manager,
            execution_terms: self.execution_terms@,
            execution_count: self.execution_count,
            accounts: self.accounts@.map_values(|account: AccountData| account.cdp_vault@),
            account_count: self.account_count,
            fee_structure: self.fee_structure,
            fee_curve: self.fee_curve@,
            fee_resource: self.fee_vault.resource,
            fees: self.fee_vault.amount.attos(),
            market_address: Some(self.weft_market_address),
            cdp_manager: self.cdp_manager,
        }
    }
}

impl ClusterView {
    /// Whether a caller who presents the `badges` may switch services on
    /// and off: an admin may, and so may the owner.
    pub open spec fn may_manage_services(self, badges: Seq<ResourceRef>) -> bool {
        self.admin_rule.allows(badges) || self.owner_rule.allows(badges)
    }

    /// Whether a caller who presents the `badges` may lock and unlock
    /// services: the owner may.
    pub open spec fn may_lock_services(self, badges: Seq<ResourceRef>) -> bool {
        self.owner_rule.allows(badges)
    }

    /// Whether a caller who presents the `badges` may set and collect fees:
    /// the owner may.
    pub open spec fn may_manage_fees(self, badges: Seq<ResourceRef>) -> bool {
        self.owner_rule.allows(badges)
    }

    /// Whether `service` is switched on.
    pub open spec fn enabled(self, service: ClusterService) -> bool {
        self.services.lookup(service).value
    }

    /// The cluster's side of the link.
    pub open spec fn link_state(self) -> LinkState {
        LinkState {
            address: self.component_address,
            link_resource: self.link.resource,
            accepting: self.enabled(ClusterService::Link),
            held: self.link.ids,
        }
    }

    /// The user a proof of the user badge stands for, or why the proof is
    /// not accepted.
    pub open spec fn validate_user(self, user_badge: Tokens) -> Result<LocalId, ClusterError> {
        if user_badge.resource != self.user_resource {
            Err(ClusterError::InvalidUserBadge)
        } else if user_badge.ids.len() != 1 {
            Err(ClusterError::InvalidUserBadgeQuantity)
        } else {
            Ok(user_badge.ids[0])
        }
    }

    /// Why a bucket is not accepted as a position of the cluster, if it is
    /// not: it must hold one position of the market, and the position must
    /// meet the cluster's rules.
    pub open spec fn cdp_refusal(self, cdp: Tokens, cdp_data: Option<CDPView>) -> Option<
        ClusterError,
    > {
        if cdp.ids.len() != 1 {
            Some(ClusterError::InvalidCdpAmount)
        } else if cdp.resource != self.cdp_manager {
            Some(ClusterError::InvalidCdpResource)
        } else {
            match first_violation(cdp_data, self.supply, self.debt) {
                Some(violation) => Some(ClusterError::InvalidCdp(violation)),
                None => None,
            }
        }
    }

    /// Whether the user has a position in custody.
    pub open spec fn has_open_account(self, user: LocalId) -> bool {
        self.accounts.contains_key(user.0) && self.accounts[user.0].ids.len() != 0
    }

    /// The proof of the link badge that the cluster presents to the
    /// registry at `registry`, or why it cannot call the registry.
    pub open spec fn link_proof(self, registry: ComponentRef) -> Result<Tokens, ClusterError> {
        if self.link.ids.len() != 1 {
            Err(ClusterError::NotLinked)
        } else if !self.enabled(ClusterService::CallLinked) {
            Err(ClusterError::ServiceDisabled(ClusterService::CallLinked))
        } else if registry != self.platform_address {
            Err(ClusterError::WrongPlatform)
        } else {
            Ok(self.link)
        }
    }

    /// The user for whom an account is opened with the position `cdp`, if
    /// the cluster has no objection of its own; the cluster's objection
    /// otherwise. The registry at `registry` is asked after that.
    pub open spec fn open_account_check(
        self,
        registry: ComponentRef,
        user_badge: Tokens,
        cdp: Tokens,
        cdp_data: Option<CDPView>,
    ) -> Result<LocalId, ClusterError> {
        if !self.enabled(ClusterService::OpenAccount) {
            Err(ClusterError::ServiceDisabled(ClusterService::OpenAccount))
        } else if self.link.ids.len() != 1 {
            Err(ClusterError::NotLinked)
        } else if self.cdp_refusal(cdp, cdp_data).is_some() {
            Err(self.cdp_refusal(cdp, cdp_data).unwrap())
        } else {
            match self.validate_user(user_badge) {
                Err(e) => Err(e),
                Ok(user) => if self.has_open_account(user) {
                    Err(ClusterError::AccountAlreadyOpen)
                } else if self.account_count == u64::MAX {
                    Err(ClusterError::CapacityExhausted)
                } else {
                    match self.link_proof(registry) {
                        Err(e) => Err(e),
                        Ok(_) => Ok(user),
                    }
                },
            }
        }
    }

    /// The cluster after it took the position `cdp` into custody for
    /// `user`.
    pub open spec fn after_open_account(self, user: LocalId, cdp: Tokens) -> ClusterView {
        ClusterView {
            accounts: self.accounts.insert(user.0, cdp),
            account_count: (self.account_count + 1) as u64,
            ..self
        }
    }

    /// The user whose account is closed, if the cluster has no objection of
    /// its own; the cluster's objection otherwise. The registry at
    /// `registry` is asked after that.
    pub open spec fn close_account_check(self, registry: ComponentRef, user_badge: Tokens) -> Result<
        LocalId,
        ClusterError,
    > {
        if !self.enabled(ClusterService::CloseAccount) {
            Err(ClusterError::ServiceDisabled(ClusterService::CloseAccount))
        } else if self.account_count == 0 {
            Err(ClusterError::NoAccountsToClose)
        } else if self.link.ids.len() != 1 {
            Err(ClusterError::NotLinked)
        } else {
            match self.validate_user(user_badge) {
                Err(e) => Err(e),
                Ok(user) => if !self.has_open_account(user) {
                    Err(ClusterError::NoOpenAccount)
                } else {
                    match self.link_proof(registry) {
                        Err(e) => Err(e),
                        Ok(_) => Ok(user),
                    }
                },
            }
        }
    }

    /// The cluster after it handed the position of `user` back.
    pub open spec fn after_close_account(self, user: LocalId) -> ClusterView {
        ClusterView {
            accounts: self.accounts.insert(
                user.0,
                Tokens { resource: self.accounts[user.0].resource, ids: Seq::empty() },
            ),
            account_count: (self.account_count - 1) as u64,
            ..self
        }
    }

    /// The badge of the session that would start next.
    pub open spec fn next_terms(self) -> Tokens {
        Tokens { resource: self.execution_term_manager, ids: seq![LocalId(self.execution_count)] }
    }

    /// The cluster after a session started for the user, the position
    /// handed out and the session's badge; or the refusal.
    pub open spec fn start_execution_outcome(self, user_badge: Tokens, cdp_data: Option<CDPView>)
        -> Result<(ClusterView, Tokens, Tokens), ClusterError> {
        if !self.enabled(ClusterService::Execute) {
            Err(ClusterError::ServiceDisabled(ClusterService::Execute))
        } else {
            match self.validate_user(user_badge) {
                Err(e) => Err(e),
                Ok(user) => if !self.accounts.contains_key(user.0) || self.accounts[user.0].ids.len()
                    != 1 {
                    Err(ClusterError::NoOpenAccount)
                } else if cdp_data.is_none() {
                    Err(ClusterError::VenueUnavailable)
                } else if self.execution_count == u64::MAX {
                    Err(ClusterError::CapacityExhausted)
                } else {
                    Ok(
                        (
                            ClusterView {
                                accounts: self.accounts.insert(
                                    user.0,
                                    Tokens {
                                        resource: self.accounts[user.0].resource,
                                        ids: Seq::empty(),
                                    },
                                ),
                                execution_terms: self.execution_terms.insert(
                                    self.execution_count,
                                    ExecutionTerms {
                                        cdp_id: self.accounts[user.0].ids[0],
                                        user_local_id: user,
                                        baseline: metrics_of(cdp_data.unwrap(), self.supply, self.debt),
                                    },
                                ),
                                execution_count: (self.execution_count + 1) as u64,
                                ..self
                            },
                            self.accounts[user.0],
                            self.next_terms(),
                        ),
                    )
                },
            }
        }
    }

    /// The terms of the session that a bucket of the given badge ends, or
    /// why the bucket ends none.
    pub open spec fn consume_terms(self, terms: Tokens) -> Result<ExecutionTerms, ClusterError> {
        if terms.resource != self.execution_term_manager {
            Err(ClusterError::InvalidExecutionTerms)
        } else if terms.ids.len() != 1 {
            Err(ClusterError::InvalidExecutionTermsAmount)
        } else if !self.execution_terms.contains_key(terms.ids[0].0) {
            Err(ClusterError::UnknownExecutionTerms)
        } else {
            Ok(self.execution_terms[terms.ids[0].0])
        }
    }

    /// The fee of a session that started under `terms` and returns a
    /// position of the contents `cdp_data`.
    pub open spec fn fee_due(
        self,
        terms: ExecutionTerms,
        cdp_data: CDPView,
        prices: Option<Seq<(u64, Decimal)>>,
    ) -> Result<int, SessionError> {
        let current = metrics_of(cdp_data, self.supply, self.debt);
        match liquidity_delta(terms.baseline, current, self.supply, self.debt, prices) {
            Err(e) => Err(e),
            Ok(delta) => session_fee(self.fee_curve, delta),
        }
    }

    /// The session that `terms` ends with the position `cdp` of the contents
    /// `cdp_data`, if badge and position are in order; the objection
    /// otherwise. The fee is looked at after that.
    pub open spec fn end_execution_precheck(self, cdp: Tokens, terms: Tokens, cdp_data: Option<CDPView>)
        -> Result<ExecutionTerms, ClusterError> {
        match self.consume_terms(terms) {
            Err(e) => Err(e),
            Ok(session) => if cdp.ids.len() != 1 {
                Err(ClusterError::InvalidCdpAmount)
            } else if cdp.resource != self.cdp_manager {
                Err(ClusterError::InvalidCdpResource)
            } else if cdp.ids[0] != session.cdp_id {
                Err(ClusterError::PositionMismatch)
            } else if first_violation(cdp_data, self.supply, self.debt).is_some() {
                Err(
                    ClusterError::InvalidCdp(
                        first_violation(cdp_data, self.supply, self.debt).unwrap(),
                    ),
                )
            } else {
                Ok(session)
            },
        }
    }

    /// The cluster after a session ended with the position `cdp` returned,
    /// and what is left of the payment in subunits; or the refusal.
    pub open spec fn end_execution_outcome(
        self,
        cdp: Tokens,
        terms: Tokens,
        fee_payment: FungibleBucket,
        cdp_data: Option<CDPView>,
        prices: Option<Seq<(u64, Decimal)>>,
    ) -> Result<(ClusterView, int), ClusterError> {
        match self.end_execution_precheck(cdp, terms, cdp_data) {
            Err(e) => Err(e),
            Ok(session) => match self.fee_due(session, cdp_data.unwrap(), prices) {
                Err(e) => Err(ClusterError::Session(e)),
                Ok(fee) => if fee_payment.resource != self.fee_resource {
                    Err(ClusterError::InvalidFeePayment(ResourceError::ResourceMismatch))
                } else if fee < 0 {
                    Err(ClusterError::InvalidFeePayment(ResourceError::NegativeAmount))
                } else if fee > fee_payment.amount.attos() {
                    Err(ClusterError::InvalidFeePayment(ResourceError::InsufficientBalance))
                } else if !self.accounts.contains_key(session.user_local_id.0) {
                    Err(ClusterError::NoOpenAccount)
                } else if self.accounts[session.user_local_id.0].ids.len() != 0 {
                    Err(ClusterError::AccountAlreadyOpen)
                } else if !representable(self.fees + fee) {
                    Err(ClusterError::FeeVault(ResourceError::Overflow))
                } else {
                    Ok(
                        (
                            ClusterView {
                                accounts: self.accounts.insert(session.user_local_id.0, cdp),
                                execution_terms: self.execution_terms.remove(terms.ids[0].0),
                                fees: self.fees + fee,
                                ..self
                            },
                            fee_payment.amount.attos() - fee,
                        ),
                    )
                },
            },
        }
    }

    /// Whether ending the session of the badge `terms` with a position of
    /// the contents `cdp_data` takes prices: there is such a session, the
    /// contents are known, and the position holds something else of the
    /// pair than when the session started.
    pub open spec fn session_needs_prices(self, terms: Tokens, cdp_data: Option<CDPView>) -> bool {
        match (self.consume_terms(terms), cdp_data) {
            (Ok(session), Some(cdp_data)) => prices_needed(
                session.baseline,
                metrics_of(cdp_data, self.supply, self.debt),
                self.supply,
                self.debt,
            ),
            _ => false,
        }
    }

    /// Whether the session of badge `id` has ended: the badge was minted
    /// and no session is open under it.
    pub open spec fn spent(self, id: u64) -> bool {
        id < self.execution_count && !self.execution_terms.contains_key(id)
    }

    /// Whether every open session runs under a badge that was minted.
    pub open spec fn sessions_minted(self) -> bool {
        forall|id: u64| #[trigger] self.execution_terms.contains_key(id) ==> id < self.execution_count
    }
}

impl ClusterView {
    /// A cluster on which nothing has happened yet.
    pub open spec fn initial(
        owner_rule: AccessRule,
        admin_rule: AccessRule,
        component_address: ComponentRef,
        platform_address: ComponentRef,
        link_resource: ResourceRef,
        user_resource: ResourceRef,
        supply: ResourceRef,
        debt: ResourceRef,
        market_address: Option<ComponentRef>,
        cdp_resource: ResourceRef,
        execution_terms_resource: ResourceRef,
        fee_resource: ResourceRef,
        fee_structure: FeeStructure,
        fee_curve: Seq<FeePoint>,
    ) -> ClusterView {
        ClusterView {
            component_address,
            owner_rule,
            admin_rule,
            platform_address,
            link: Tokens { resource: link_resource, ids: Seq::empty() },
            user_resource,
            supply,
            debt,
            services: ClusterServiceManager::all_enabled(),
            execution_term_manager: execution_terms_resource,
            execution_terms: Map::empty(),
            execution_count: 0,
            accounts: Map::empty(),
            account_count: 0,
            fee_structure,
            fee_curve,
            fee_resource,
            fees: 0,
            market_address,
            cdp_manager: cdp_resource,
        }
    }

    /// What the cluster reports about itself.
    pub open spec fn info(self) -> ClusterInfo {
        ClusterInfo {
            platform_address: self.platform_address,
            cluster_address: self.component_address,
            linked: self.link.ids.len() > 0,
            supply_res: self.supply,
            debt_res: self.debt,
            account_count: self.account_count,
            execution_term_manager: self.execution_term_manager,
            fee_info: FeeInfo {
                open: self.fee_structure.open,
                close: self.fee_structure.close,
                execute: self.fee_structure.execute,
            },
        }
    }

    /// What the cluster reports about the account of `local_id`, given the
    /// market's valuation of the position; or the refusal.
    pub open spec fn account_info_outcome(self, local_id: LocalId, health: Option<HealthView>)
        -> Result<AccountInfo, ClusterError> {
        if !self.accounts.contains_key(local_id.0) || self.accounts[local_id.0].ids.len() != 1 {
            Err(ClusterError::NoOpenAccount)
        } else {
            match health {
                None => Err(ClusterError::VenueUnavailable),
                Some(health) => Ok(
                    AccountInfo {
                        cdp_id: self.accounts[local_id.0].ids[0],
                        supply: amount_of(health.collateral_positions, self.supply),
                        supply_value: health.total_collateral_value,
                        debt: amount_of(health.loan_positions, self.debt),
                        debt_value: health.total_loan_value,
                        health: health.liquidation_ltv,
                    },
                ),
            }
        }
    }

    /// The state after one of the cluster's switches was updated, or the
    /// refusal.
    pub open spec fn update_service_outcome(self, service: ClusterService, value: bool, lock: SetLock)
        -> Result<ClusterView, ClusterError> {
        match self.services.after_update(service, value, lock) {
            Ok(services) => Ok(ClusterView { services, ..self }),
            Err(_) => Err(ClusterError::ServiceLocked),
        }
    }
}

impl LinkReceiver for YieldMultiplierWeftV2Cluster {
    open spec fn link_state(&self) -> LinkState {
        self@.link_state()
    }

    open spec fn differs_only_in_link(&self, before: &Self) -> bool {
        self@ == (ClusterView { link: self@.link, ..before@ })
    }

    fn component_address(&self) -> (r: ComponentRef) {
        self.component_address
    }

    fn handle_link(&mut self, bucket: NonFungibleBucket) -> (r: Result<(), LinkError>) {
        if !self.services.get(ClusterService::Link) {
            return Err(LinkError::ServiceDisabled);
        }
        if self.link.amount() != 0 {
            return Err(LinkError::AlreadyLinked);
        }
        if bucket.amount() != 1 {
            return Err(LinkError::InvalidAmount);
        }
        if self.link.resource_address() != bucket.resource_address() {
            return Err(LinkError::InvalidResource);
        }
        let put = self.link.put(bucket);
        Ok(())
    }
}

impl YieldMultiplierWeftV2Cluster {
    /// A new cluster at `component_address` for the pair `supply` and
    /// `debt`, belonging to the platform at `platform_address`, whose link
    /// and user badges are of `link_resource` and `user_resource`. Its owner
    /// is who meets `owner_rule`, its admins who meet `admin_rule`. It
    /// starts unlinked, without accounts, with every operation switched on
    /// and the default fees.
    pub fn instantiate(
        owner_rule: AccessRule,
        admin_rule: AccessRule,
        component_address: ComponentRef,
        platform_address: ComponentRef,
        link_resource: ResourceRef,
        user_resource: ResourceRef,
        supply: ResourceRef,
        debt: ResourceRef,
        weft_market_address: ComponentRef,
        cdp_resource: ResourceRef,
        execution_terms_resource: ResourceRef,
        fee_resource: ResourceRef,
    ) -> (r: YieldMultiplierWeftV2Cluster)
        ensures
            r@ == ClusterView::initial(
                owner_rule,
                admin_rule,
                component_address,
                platform_address,
                link_resource,
                user_resource,
                supply,
                debt,
                Some(weft_market_address),
                cdp_resource,
                execution_terms_resource,
                fee_resource,
                r@.fee_structure,
                r@.fee_curve,
            ),
            r@.fee_structure.open.attos() == 16 * scale(),
            r@.fee_structure.close.attos() == 4 * scale(),
            r@.fee_structure.execute.attos() == 4 * scale(),
            valid_points(r@.fee_curve),
            rates_non_decreasing(r@.fee_curve),
    {
        let cluster = YieldMultiplierWeftV2Cluster {
            component_address,
            owner_rule,
            admin_rule,
            platform_address,
            link: NonFungibleVault::new(link_resource),
            user_resource,
            supply,
            debt,
            services: ClusterServiceManager::new(),
            execution_term_manager: execution_terms_resource,
            execution_terms: HashMap::new(),
            execution_count: 0,
            accounts: HashMap::new(),
            account_count: 0,
            fee_structure: FeeStructure::default(),
            fee_curve: FeeCurve::default(),
            fee_vault: FungibleVault::new(fee_resource),
            weft_market_address,
            cdp_manager: cdp_resource,
        };
        proof {
            assert(cluster@.accounts =~= Map::<u64, Tokens>::empty());
        }
        cluster
    }

    /// Presents the link badge for a call into `platform`.
    fn __with_link<R: AccountRegistry>(&self, platform: &R) -> (r: Result<
        NonFungibleProof,
        ClusterError,
    >)
        ensures
            match self@.link_proof(platform.registry_address()) {
                Ok(proof) => r.is_ok() && r.unwrap()@ == proof,
                Err(e) => r == Err::<NonFungibleProof, ClusterError>(e),
            },
    {
        if self.link.amount() != 1 {
            return Err(ClusterError::NotLinked);
        }
        if !self.services.get(ClusterService::CallLinked) {
            return Err(ClusterError::ServiceDisabled(ClusterService::CallLinked));
        }
        if platform.address() != self.platform_address {
            return Err(ClusterError::WrongPlatform);
        }
        Ok(self.link.create_proof_of_all())
    }

    /// General information about the cluster.
    pub fn get_cluster_info(&self) -> (r: ClusterInfo)
        ensures
            r == self@.info(),
    {
        let fee_info = FeeInfo {
            open: self.fee_structure.open,
            close: self.fee_structure.close,
            execute: self.fee_structure.execute,
        };
        ClusterInfo {
            platform_address: self.platform_address,
            cluster_address: self.component_address,
            linked: self.link.amount() > 0,
            supply_res: self.supply,
            debt_res: self.debt,
            account_count: self.account_count,
            execution_term_manager: self.execution_term_manager,
            fee_info,
        }
    }

    /// Switches one of the cluster's operations on or off. Refused while
    /// that switch is locked.
    pub fn update_service(&mut self, auth: &Vec<ResourceRef>, service: ClusterService, value: bool) -> (r:
        Result<
        (),
        ClusterError,
    >)
        ensures
            if old(self)@.may_manage_services(auth@) {
                match old(self)@.update_service_outcome(service, value, SetLock::Unchanged) {
                    Ok(next) => r.is_ok() && final(self)@ == next,
                    Err(e) => r == Err::<(), ClusterError>(e) && final(self)@ == old(self)@,
                }
            } else {
                r == Err::<(), ClusterError>(ClusterError::AccessDenied)
                    && final(self)@ == old(self)@
            },
    {
        if !(self.admin_rule.check(auth) || self.owner_rule.check(auth)) {
            return Err(ClusterError::AccessDenied);
        }
        match self.services.update(service, value, SetLock::Unchanged) {
            Ok(()) => Ok(()),
            Err(_) => Err(ClusterError::ServiceLocked),
        }
    }

    /// Switches one of the cluster's operations on or off and sets whether
    /// that switch is locked from now on.
    pub fn update_service_and_set_lock(&mut self, auth: &Vec<ResourceRef>, service: ClusterService, value: bool, locked: bool)
        -> (r: Result<(), ClusterError>)
        ensures
            if old(self)@.may_lock_services(auth@) {
                match old(self)@.update_service_outcome(service, value, SetLock::Update(locked)) {
                    Ok(next) => r.is_ok() && final(self)@ == next,
                    Err(e) => r == Err::<(), ClusterError>(e) && final(self)@ == old(self)@,
                }
            } else {
                r == Err::<(), ClusterError>(ClusterError::AccessDenied)
                    && final(self)@ == old(self)@
            },
    {
        if !(self.owner_rule.check(auth)) {
            return Err(ClusterError::AccessDenied);
        }
        match self.services.update(service, value, SetLock::Update(locked)) {
            Ok(()) => Ok(()),
            Err(_) => Err(ClusterError::ServiceLocked),
        }
    }

    /// Replaces each quoted fee for which a new amount is given. Refused
    /// to a caller who may not manage fees.
    pub fn set_fee_structure(
        &mut self,
        auth: &Vec<ResourceRef>,
        open: Option<Decimal>,
        close: Option<Decimal>,
        execute: Option<Decimal>,
    ) -> (r: Result<(), ClusterError>)
        ensures
            if old(self)@.may_manage_fees(auth@) {
                r.is_ok() && final(self)@ == (ClusterView {
                    fee_structure: FeeStructure {
                        open: match open {
                            Some(fee) => fee,
                            None => old(self)@.fee_structure.open,
                        },
                        close: match close {
                            Some(fee) => fee,
                            None => old(self)@.fee_structure.close,
                        },
                        execute: match execute {
                            Some(fee) => fee,
                            None => old(self)@.fee_structure.execute,
                        },
                    },
                    ..old(self)@
                })
            } else {
                r == Err::<(), ClusterError>(ClusterError::AccessDenied)
                    && final(self)@ == old(self)@
            },
    {
        if !self.owner_rule.check(auth) {
            return Err(ClusterError::AccessDenied);
        }
        self.fee_structure.set(open, close, execute);
        Ok(())
    }

    /// Replaces the fee curve by the one through `points`, if they form
    /// one; refuses them otherwise and keeps the curve as it was.
    pub fn set_fee_curve(&mut self, auth: &Vec<ResourceRef>, points: Vec<FeePoint>) -> (r: Result<(), ClusterError>)
        ensures
            if old(self)@.may_manage_fees(auth@) {
                match points_refusal(points@) {
                    Some(e) => r == Err::<(), ClusterError>(ClusterError::Fee(e)) && final(self)@
                        == old(self)@,
                    None => r.is_ok() && final(self)@ == (ClusterView {
                        fee_curve: points@,
                        ..old(self)@
                    }),
                }
            } else {
                r == Err::<(), ClusterError>(ClusterError::AccessDenied)
                    && final(self)@ == old(self)@
            },
    {
        if !(self.owner_rule.check(auth)) {
            return Err(ClusterError::AccessDenied);
        }
        match self.fee_curve.set_points(points) {
            Ok(()) => Ok(()),
            Err(e) => Err(ClusterError::Fee(e)),
        }
    }

    /// Empties the fee vault into a bucket. Refused to a caller who may not
    /// manage fees.
    pub fn collect_fees(&mut self, auth: &Vec<ResourceRef>) -> (r: Result<FungibleBucket, ClusterError>)
        ensures
            if old(self)@.may_manage_fees(auth@) {
                r.is_ok()
                    && r.unwrap().resource == old(self)@.fee_resource
                    && r.unwrap().amount.attos() == old(self)@.fees
                    && final(self)@ == (ClusterView { fees: 0, ..old(self)@ })
            } else {
                r == Err::<FungibleBucket, ClusterError>(ClusterError::AccessDenied)
                    && final(self)@ == old(self)@
            },
    {
        if !self.owner_rule.check(auth) {
            return Err(ClusterError::AccessDenied);
        }
        Ok(self.fee_vault.take_all())
    }

    /// Opens an account: takes the position `cdp` into custody for the
    /// holder of `user_badge` and registers the account with the platform.
    /// `cdp_data` is what the market records of the position, if it could be
    /// fetched. On refusal cluster and platform stay as they were.
    pub fn open_account<R: AccountRegistry>(
        &mut self,
        platform: &mut R,
        user_badge: &NonFungibleProof,
        cdp: NonFungibleBucket,
        cdp_data: Option<&CDPData>,
    ) -> (r: Result<(), ClusterError>)
        ensures
            final(platform).registry_address() == old(platform).registry_address(),
            match old(self)@.open_account_check(
                old(platform).registry_address(),
                user_badge@,
                cdp@,
                view_of(cdp_data),
            ) {
                Err(e) => r == Err::<(), ClusterError>(e)
                    && final(self)@ == old(self)@
                    && *final(platform) == *old(platform),
                Ok(user) => match old(platform).open_account_refusal(old(self)@.link, user) {
                    Some(e) => r == Err::<(), ClusterError>(ClusterError::Platform(e))
                        && final(self)@ == old(self)@
                        && *final(platform) == *old(platform),
                    None => r.is_ok() && final(self)@ == old(self)@.after_open_account(user, cdp@)
                        && final(platform).account_opened(old(platform), old(self)@.link, user),
                },
            },
    {
        if !self.services.get(ClusterService::OpenAccount) {
            return Err(ClusterError::ServiceDisabled(ClusterService::OpenAccount));
        }
        if self.link.amount() != 1 {
            return Err(ClusterError::NotLinked);
        }
        if cdp.amount() != 1 {
            return Err(ClusterError::InvalidCdpAmount);
        }
        if cdp.resource_address() != self.cdp_manager {
            return Err(ClusterError::InvalidCdpResource);
        }
        match check_cdp(cdp_data, self.supply, self.debt) {
            Some(violation) => {
                return Err(ClusterError::InvalidCdp(violation));
            },
            None => {},
        }
        let user_id = match self.__validate_user(user_badge) {
            Ok(user_id) => user_id,
            Err(e) => {
                return Err(e);
            },
        };
        if self.has_open_account(user_id) {
            return Err(ClusterError::AccountAlreadyOpen);
        }
        if self.account_count == u64::MAX {
            return Err(ClusterError::CapacityExhausted);
        }
        let link_badge = match self.__with_link(platform) {
            Ok(link_badge) => link_badge,
            Err(e) => {
                return Err(e);
            },
        };
        match platform.open_account(&link_badge, user_id) {
            Ok(()) => {},
            Err(e) => {
                return Err(ClusterError::Platform(e));
            },
        }
        let account = AccountData::new(NonFungibleVault::with_bucket(cdp));
        self.accounts.insert(user_id.0, account);
        self.account_count += 1;
        proof {
            assert(self@.accounts =~= old(self)@.accounts.insert(user_id.0, cdp@));
        }
        Ok(())
    }

    /// Closes the account of the holder of `user_badge`: deregisters it with
    /// the platform and hands the position back. On refusal cluster and
    /// platform stay as they were.
    pub fn close_account<R: AccountRegistry>(&mut self, platform: &mut R, user_badge: &NonFungibleProof)
        -> (r: Result<NonFungibleBucket, ClusterError>)
        ensures
            final(platform).registry_address() == old(platform).registry_address(),
            match old(self)@.close_account_check(old(platform).registry_address(), user_badge@) {
                Err(e) => r == Err::<NonFungibleBucket, ClusterError>(e)
                    && final(self)@ == old(self)@
                    && *final(platform) == *old(platform),
                Ok(user) => match old(platform).close_account_refusal(old(self)@.link, user) {
                    Some(e) => r == Err::<NonFungibleBucket, ClusterError>(
                        ClusterError::Platform(e),
                    ) && final(self)@ == old(self)@ && *final(platform) == *old(platform),
                    None => r.is_ok() && r.unwrap()@ == old(self)@.accounts[user.0] && final(self)@
                        == old(self)@.after_close_account(user) && final(platform).account_closed(
                        old(platform),
                        old(self)@.link,
                        user,
                    ),
                },
            },
    {
        if !self.services.get(ClusterService::CloseAccount) {
            return Err(ClusterError::ServiceDisabled(ClusterService::CloseAccount));
        }
        if self.account_count == 0 {
            return Err(ClusterError::NoAccountsToClose);
        }
        if self.link.amount() != 1 {
            return Err(ClusterError::NotLinked);
        }
        let user_id = match self.__validate_user(user_badge) {
            Ok(user_id) => user_id,
            Err(e) => {
                return Err(e);
            },
        };
        if !self.has_open_account(user_id) {
            return Err(ClusterError::NoOpenAccount);
        }
        let link_badge = match self.__with_link(platform) {
            Ok(link_badge) => link_badge,
            Err(e) => {
                return Err(e);
            },
        };
        match platform.close_account(&link_badge, user_id) {
            Ok(()) => {},
            Err(e) => {
                return Err(ClusterError::Platform(e));
            },
        }
        let mut account = self.accounts.remove(&user_id.0).unwrap();
        let cdp_bucket = account.cdp_vault.take_all();
        self.accounts.insert(user_id.0, account);
        self.account_count -= 1;
        proof {
            assert(self@.accounts =~= old(self)@.accounts.insert(
                user_id.0,
                Tokens { resource: old(self)@.accounts[user_id.0].resource, ids: Seq::empty() },
            ));
        }
        Ok(cdp_bucket)
    }

    /// Reports the market's valuation of the position in the account of
    /// `local_id`. `cdp_health` is the market's answer for that position, if
    /// it gave one.
    pub fn get_account_info(&self, local_id: LocalId, cdp_health: Option<&CDPHealthChecker>) -> (r:
        Result<AccountInfo, ClusterError>)
        ensures
            r == self@.account_info_outcome(local_id, health_of(cdp_health)),
    {
        let cdp_id = match self.accounts.get(&local_id.0) {
            Some(account) => {
                if account.cdp_vault.amount() != 1 {
                    return Err(ClusterError::NoOpenAccount);
                }
                account.cdp_vault.non_fungible_local_id()
            },
            None => {
                return Err(ClusterError::NoOpenAccount);
            },
        };
        let cdp_health = match cdp_health {
            Some(cdp_health) => cdp_health,
            None => {
                return Err(ClusterError::VenueUnavailable);
            },
        };
        let supply = read_amount(&cdp_health.collateral_positions, self.supply);
        let debt = read_amount(&cdp_health.loan_positions, self.debt);
        Ok(
            AccountInfo {
                cdp_id,
                supply,
                supply_value: cdp_health.total_collateral_value,
                debt,
                debt_value: cdp_health.total_loan_value,
                health: cdp_health.liquidation_ltv,
            },
        )
    }

    /// Starts an execution session: hands the position of the holder of
    /// `user_badge` out, together with a fresh execution-terms badge that
    /// binds the user, the position and what the position holds now.
    /// `cdp_data` is what the market records of the position, if it could be
    /// fetched.
    pub fn start_execution(&mut self, user_badge: &NonFungibleProof, cdp_data: Option<&CDPData>) -> (r:
        Result<(NonFungibleBucket, NonFungibleBucket), ClusterError>)
        ensures
            match old(self)@.start_execution_outcome(user_badge@, view_of(cdp_data)) {
                Ok((next, cdp, terms)) => r.is_ok() && r.unwrap().0@ == cdp && r.unwrap().1@ == terms
                    && final(self)@ == next,
                Err(e) => r == Err::<(NonFungibleBucket, NonFungibleBucket), ClusterError>(e)
                    && final(self)@ == old(self)@,
            },
    {
        if !self.services.get(ClusterService::Execute) {
            return Err(ClusterError::ServiceDisabled(ClusterService::Execute));
        }
        let user_id = match self.__validate_user(user_badge) {
            Ok(user_id) => user_id,
            Err(e) => {
                return Err(e);
            },
        };
        let cdp_id = match self.accounts.get(&user_id.0) {
            Some(account) => {
                if account.cdp_vault.amount() != 1 {
                    return Err(ClusterError::NoOpenAccount);
                }
                account.cdp_vault.non_fungible_local_id()
            },
            None => {
                return Err(ClusterError::NoOpenAccount);
            },
        };
        let cdp_data = match cdp_data {
            Some(cdp_data) => cdp_data,
            None => {
                return Err(ClusterError::VenueUnavailable);
            },
        };
        if self.execution_count == u64::MAX {
            return Err(ClusterError::CapacityExhausted);
        }
        let baseline = read_metrics(cdp_data, self.supply, self.debt);
        let mut account = self.accounts.remove(&user_id.0).unwrap();
        let cdp_bucket = account.cdp_vault.take_all();
        self.accounts.insert(user_id.0, account);
        let terms_id = LocalId(self.execution_count);
        let terms = ExecutionTerms::new(cdp_id, user_id, baseline);
        self.execution_terms.insert(terms_id.0, terms);
        self.execution_count += 1;
        let execution_terms = NonFungibleBucket::single(self.execution_term_manager, terms_id);
        proof {
            assert(self@.accounts =~= old(self)@.accounts.insert(
                user_id.0,
                Tokens { resource: old(self)@.accounts[user_id.0].resource, ids: Seq::empty() },
            ));
        }
        Ok((cdp_bucket, execution_terms))
    }

    /// Ends an execution session: consumes the session's badge, checks the
    /// returned position against the cluster's rules, takes the session's
    /// fee out of `fee_payment` and puts the position back into the vault of
    /// the user that the badge names. What is left of the payment is handed
    /// back. `cdp_data` is what the market records of the position now and
    /// `prices` its prices, as far as they could be fetched. On refusal the
    /// cluster stays as it was and the session stays open.
    pub fn end_execution(
        &mut self,
        cdp_bucket: NonFungibleBucket,
        terms_bucket: NonFungibleBucket,
        fee_payment: FungibleBucket,
        cdp_data: Option<&CDPData>,
        prices: Option<&IndexMap<u64, Decimal, RandomState>>,
    ) -> (r: Result<FungibleBucket, ClusterError>)
        ensures
            match old(self)@.end_execution_outcome(
                cdp_bucket@,
                terms_bucket@,
                fee_payment,
                view_of(cdp_data),
                prices_of(prices),
            ) {
                Ok((next, change)) => r.is_ok() && r.unwrap().resource == fee_payment.resource
                    && r.unwrap().amount.attos() == change && final(self)@ == next,
                Err(e) => r == Err::<FungibleBucket, ClusterError>(e) && final(self)@ == old(self)@,
            },
    {
        if terms_bucket.resource_address() != self.execution_term_manager {
            return Err(ClusterError::InvalidExecutionTerms);
        }
        if terms_bucket.amount() != 1 {
            return Err(ClusterError::InvalidExecutionTermsAmount);
        }
        let terms_id = terms_bucket.non_fungible_local_id();
        let terms = match self.execution_terms.get(&terms_id.0) {
            Some(terms) => *terms,
            None => {
                return Err(ClusterError::UnknownExecutionTerms);
            },
        };
        if cdp_bucket.amount() != 1 {
            return Err(ClusterError::InvalidCdpAmount);
        }
        if cdp_bucket.resource_address() != self.cdp_manager {
            return Err(ClusterError::InvalidCdpResource);
        }
        if cdp_bucket.non_fungible_local_id() != terms.cdp_id {
            return Err(ClusterError::PositionMismatch);
        }
        match check_cdp(cdp_data, self.supply, self.debt) {
            Some(violation) => {
                return Err(ClusterError::InvalidCdp(violation));
            },
            None => {},
        }
        let cdp_data = match cdp_data {
            Some(cdp_data) => cdp_data,
            None => {
                return Err(ClusterError::InvalidCdp(Violation::Unresolvable));
            },
        };
        let current = read_metrics(cdp_data, self.supply, self.debt);
        let delta = match compute_liquidity_delta(
            terms.baseline,
            current,
            self.supply,
            self.debt,
            prices,
        ) {
            Ok(delta) => delta,
            Err(e) => {
                return Err(ClusterError::Session(e));
            },
        };
        let fee = match compute_session_fee(&self.fee_curve, delta) {
            Ok(fee) => fee,
            Err(e) => {
                return Err(ClusterError::Session(e));
            },
        };
        let mut fee_payment = fee_payment;
        if fee_payment.resource_address() != self.fee_vault.resource_address() {
            return Err(ClusterError::InvalidFeePayment(ResourceError::ResourceMismatch));
        }
        if fee.is_negative() {
            return Err(ClusterError::InvalidFeePayment(ResourceError::NegativeAmount));
        }
        if fee_payment.amount().lt(&fee) {
            return Err(ClusterError::InvalidFeePayment(ResourceError::InsufficientBalance));
        }
        match self.accounts.get(&terms.user_local_id.0) {
            Some(account) => {
                if account.cdp_vault.amount() != 0 {
                    return Err(ClusterError::AccountAlreadyOpen);
                }
            },
            None => {
                return Err(ClusterError::NoOpenAccount);
            },
        }
        let fee_bucket = match fee_payment.take(fee) {
            Ok(fee_bucket) => fee_bucket,
            Err(e) => {
                return Err(ClusterError::InvalidFeePayment(e));
            },
        };
        match self.fee_vault.put(fee_bucket) {
            Ok(()) => {},
            Err(e) => {
                return Err(ClusterError::FeeVault(e));
            },
        }
        let account = AccountData::new(NonFungibleVault::with_bucket(cdp_bucket));
        self.accounts.insert(terms.user_local_id.0, account);
        self.execution_terms.remove(&terms_id.0);
        proof {
            assert(self@.accounts =~= old(self)@.accounts.insert(
                terms.user_local_id.0,
                cdp_bucket@,
            ));
        }
        Ok(fee_payment)
    }

    /// Decides whether the market's prices must be fetched before the
    /// session of the badge in `terms_bucket` is ended with a position of
    /// the contents `cdp_data`.
    pub fn session_needs_prices(&self, terms_bucket: &NonFungibleBucket, cdp_data: Option<&CDPData>) -> (r:
        bool)
        ensures
            r == self@.session_needs_prices(terms_bucket@, view_of(cdp_data)),
    {
        if terms_bucket.resource_address() != self.execution_term_manager {
            return false;
        }
        if terms_bucket.amount() != 1 {
            return false;
        }
        let terms = match self.execution_terms.get(&terms_bucket.non_fungible_local_id().0) {
            Some(terms) => *terms,
            None => {
                return false;
            },
        };
        match cdp_data {
            Some(cdp_data) => {
                let current = read_metrics(cdp_data, self.supply, self.debt);
                needs_prices(terms.baseline, current, self.supply, self.debt)
            },
            None => false,
        }
    }

    /// Whether the user has a position in custody.
    pub fn has_open_account(&self, user_id: LocalId) -> (r: bool)
        ensures
            r == self@.has_open_account(user_id),
    {
        match self.accounts.get(&user_id.0) {
            Some(account) => account.cdp_vault.amount() != 0,
            None => false,
        }
    }

    /// Checks a proof of a user badge and gives the user's identifier.
    pub fn __validate_user(&self, user_badge: &NonFungibleProof) -> (r: Result<LocalId, ClusterError>)
        ensures
            r == self@.validate_user(user_badge@),
    {
        if user_badge.resource_address() != self.user_resource {
            return Err(ClusterError::InvalidUserBadge);
        }
        if user_badge.amount() != 1 {
            return Err(ClusterError::InvalidUserBadgeQuantity);
        }
        Ok(user_badge.non_fungible_local_id())
    }

    /// Decides whether a position of the contents `cdp_data` may be held by
    /// this cluster: the contents must be known, with at most one supplied
    /// and one borrowed resource, no unique tokens as collateral, and the
    /// resources those of the cluster's pair.
    pub fn __validate_cdp(&self, cdp_data: Option<&CDPData>) -> (valid: bool)
        ensures
            valid == is_valid(view_of(cdp_data), self@.supply, self@.debt),
    {
        validate_cdp(cdp_data, self.supply, self.debt)
    }
}

/// A call of one of the cluster's operations, with what is handed in and,
/// where the cluster asks its platform, with the platform's answer.
pub enum ClusterEvent {
    /// A call of `handle_link`.
    HandleLink { bucket: Tokens },
    /// A call of `open_account` beside the registry at `registry`, which
    /// refuses with `registry_refusal` if it refuses.
    OpenAccount {
        registry: ComponentRef,
        registry_refusal: Option<PlatformError>,
        user_badge: Tokens,
        cdp: Tokens,
        cdp_data: Option<CDPView>,
    },
    /// A call of `close_account` beside the registry at `registry`, which
    /// refuses with `registry_refusal` if it refuses.
    CloseAccount { registry: ComponentRef, registry_refusal: Option<PlatformError>, user_badge: Tokens },
    /// A call of `start_execution`.
    Start { user_badge: Tokens, cdp_data: Option<CDPView> },
    /// A call of `end_execution`.
    End {
        cdp: Tokens,
        terms: Tokens,
        fee_payment: FungibleBucket,
        cdp_data: Option<CDPView>,
        prices: Option<Seq<(u64, Decimal)>>,
    },
    /// A call of `update_service`, or with `SetLock::Update` of
    /// `update_service_and_set_lock`, by a caller who presents `badges`.
    UpdateService { badges: Seq<ResourceRef>, service: ClusterService, value: bool, lock: SetLock },
    /// A call of `set_fee_structure` by a caller who presents `badges`,
    /// after which the cluster quotes `fee_structure`.
    SetFeeStructure { badges: Seq<ResourceRef>, fee_structure: FeeStructure },
    /// A call of `set_fee_curve` by a caller who presents `badges`.
    SetFeeCurve { badges: Seq<ResourceRef>, points: Seq<FeePoint> },
    /// A call of `collect_fees` by a caller who presents `badges`.
    CollectFees { badges: Seq<ResourceRef> },
}

impl ClusterView {
    /// Whether every vault of the cluster is in order: at most one link
    /// badge, and in each account at most one position, of the market's
    /// resource.
    pub open spec fn custody_in_order(self) -> bool {
        &&& self.link.ids.len() <= 1
        &&& forall|user: u64| #[trigger]
            self.accounts.contains_key(user) ==> self.accounts[user].ids.len() <= 1
                && self.accounts[user].resource == self.cdp_manager
    }

    /// Whether the cluster is in order: its custody is, and every open
    /// session runs under a badge that was minted.
    pub open spec fn in_order(self) -> bool {
        self.custody_in_order() && self.sessions_minted()
    }

    /// The cluster after `event`. A refused call changes nothing.
    pub open spec fn after_event(self, event: ClusterEvent) -> ClusterView {
        match event {
            ClusterEvent::HandleLink { bucket } => if self.link_state().refusal(
                bucket.resource,
                bucket.ids,
            ).is_none() {
                ClusterView {
                    link: Tokens { resource: self.link.resource, ids: self.link.ids + bucket.ids },
                    ..self
                }
            } else {
                self
            },
            ClusterEvent::OpenAccount {
                registry,
                registry_refusal,
                user_badge,
                cdp,
                cdp_data,
            } => match self.open_account_check(registry, user_badge, cdp, cdp_data) {
                Ok(user) => if registry_refusal.is_none() {
                    self.after_open_account(user, cdp)
                } else {
                    self
                },
                Err(_) => self,
            },
            ClusterEvent::CloseAccount {
                registry,
                registry_refusal,
                user_badge,
            } => match self.close_account_check(registry, user_badge) {
                Ok(user) => if registry_refusal.is_none() {
                    self.after_close_account(user)
                } else {
                    self
                },
                Err(_) => self,
            },
            ClusterEvent::Start { user_badge, cdp_data } => match self.start_execution_outcome(
                user_badge,
                cdp_data,
            ) {
                Ok((next, _, _)) => next,
                Err(_) => self,
            },
            ClusterEvent::End {
                cdp,
                terms,
                fee_payment,
                cdp_data,
                prices,
            } => match self.end_execution_outcome(cdp, terms, fee_payment, cdp_data, prices) {
                Ok((next, _)) => next,
                Err(_) => self,
            },
            ClusterEvent::UpdateService { badges, service, value, lock } => if match lock {
                SetLock::Unchanged => self.may_manage_services(badges),
                SetLock::Update(_) => self.may_lock_services(badges),
            } {
                match self.update_service_outcome(service, value, lock) {
                    Ok(next) => next,
                    Err(_) => self,
                }
            } else {
                self
            },
            ClusterEvent::SetFeeStructure { badges, fee_structure } => if self.may_manage_fees(badges) {
                ClusterView { fee_structure, ..self }
            } else {
                self
            },
            ClusterEvent::SetFeeCurve { badges, points } => if self.may_manage_fees(badges)
                && points_refusal(points).is_none() {
                ClusterView { fee_curve: points, ..self }
            } else {
                self
            },
            ClusterEvent::CollectFees { badges } => if self.may_manage_fees(badges) {
                ClusterView { fees: 0, ..self }
            } else {
                self
            },
        }
    }

    /// The cluster after each of `events` in turn.
    pub open spec fn after_events(self, events: Seq<ClusterEvent>) -> ClusterView
        decreases events.len(),
    {
        if events.len() == 0 {
            self
        } else {
            self.after_events(events.drop_last()).after_event(events.last())
        }
    }

    /// Whether a payment covers the fee of a session that started under
    /// `session` and returns a position of the contents `cdp_data`: the fee
    /// can be computed, is not below zero, is in the payment's resource and
    /// within its amount, and the fee vault can hold it.
    pub open spec fn covered(
        self,
        session: ExecutionTerms,
        cdp_data: CDPView,
        prices: Option<Seq<(u64, Decimal)>>,
        fee_payment: FungibleBucket,
    ) -> bool {
        match self.fee_due(session, cdp_data, prices) {
            Ok(fee) => fee_payment.resource == self.fee_resource && 0 <= fee
                <= fee_payment.amount.attos() && representable(self.fees + fee),
            Err(_) => false,
        }
    }

    /// A new cluster is in order.
    pub proof fn lemma_initial_is_in_order(
        owner_rule: AccessRule,
        admin_rule: AccessRule,
        component_address: ComponentRef,
        platform_address: ComponentRef,
        link_resource: ResourceRef,
        user_resource: ResourceRef,
        supply: ResourceRef,
        debt: ResourceRef,
        market_address: Option<ComponentRef>,
        cdp_resource: ResourceRef,
        execution_terms_resource: ResourceRef,
        fee_resource: ResourceRef,
        fee_structure: FeeStructure,
        fee_curve: Seq<FeePoint>,
    )
        ensures
            Self::initial(
                owner_rule,
                admin_rule,
                component_address,
                platform_address,
                link_resource,
                user_resource,
                supply,
                debt,
                market_address,
                cdp_resource,
                execution_terms_resource,
                fee_resource,
                fee_structure,
                fee_curve,
            ).in_order(),
    {
    }

    /// Every operation keeps a cluster in order, whoever calls it with
    /// whatever.
    pub proof fn lemma_event_keeps_order(self, event: ClusterEvent)
        requires
            self.in_order(),
        ensures
            self.after_event(event).in_order(),
    {
    }

    /// A cluster that is in order stays in order through every sequence of
    /// calls: it never holds two link badges, and no account ever holds two
    /// positions or a token that is not a position of the market.
    pub proof fn lemma_events_keep_order(self, events: Seq<ClusterEvent>)
        requires
            self.in_order(),
        ensures
            self.after_events(events).in_order(),
        decreases events.len(),
    {
        if events.len() > 0 {
            self.lemma_events_keep_order(events.drop_last());
            self.after_events(events.drop_last()).lemma_event_keeps_order(events.last());
        }
    }

    /// Opening an account leaves the user with exactly the one position
    /// taken in, which is valid.
    pub proof fn lemma_open_account_keeps_order(
        self,
        registry: ComponentRef,
        user_badge: Tokens,
        cdp: Tokens,
        cdp_data: Option<CDPView>,
    )
        requires
            self.custody_in_order(),
            self.open_account_check(registry, user_badge, cdp, cdp_data) is Ok,
        ensures
            self.after_open_account(
                self.open_account_check(registry, user_badge, cdp, cdp_data).unwrap(),
                cdp,
            ).custody_in_order(),
            self.after_open_account(
                self.open_account_check(registry, user_badge, cdp, cdp_data).unwrap(),
                cdp,
            ).has_open_account(user_badge.ids[0]),
            is_valid(cdp_data, self.supply, self.debt),
    {
    }

    /// Closing an account keeps the custody in order, leaves the user's
    /// vault empty, and hands exactly one position back.
    pub proof fn lemma_close_account_keeps_order(self, registry: ComponentRef, user_badge: Tokens)
        requires
            self.custody_in_order(),
            self.close_account_check(registry, user_badge) is Ok,
        ensures
            self.after_close_account(
                self.close_account_check(registry, user_badge).unwrap(),
            ).custody_in_order(),
            !self.after_close_account(
                self.close_account_check(registry, user_badge).unwrap(),
            ).has_open_account(user_badge.ids[0]),
            self.accounts[user_badge.ids[0].0].ids.len() == 1,
    {
    }

    /// A user who has a position in custody cannot open a second account.
    pub proof fn lemma_no_second_account(
        self,
        registry: ComponentRef,
        user_badge: Tokens,
        cdp: Tokens,
        cdp_data: Option<CDPView>,
    )
        requires
            self.validate_user(user_badge) is Ok,
            self.has_open_account(self.validate_user(user_badge).unwrap()),
        ensures
            self.open_account_check(registry, user_badge, cdp, cdp_data) is Err,
    {
    }

    /// A session that ends leaves its badge spent.
    pub proof fn lemma_badge_is_spent_after_use(
        self,
        cdp: Tokens,
        terms: Tokens,
        fee_payment: FungibleBucket,
        cdp_data: Option<CDPView>,
        prices: Option<Seq<(u64, Decimal)>>,
    )
        requires
            self.sessions_minted(),
            self.end_execution_outcome(cdp, terms, fee_payment, cdp_data, prices) is Ok,
        ensures
            self.end_execution_outcome(cdp, terms, fee_payment, cdp_data, prices).unwrap().0.spent(
                terms.ids[0].0,
            ),
    {
    }

    /// No session can be ended with a spent badge, whatever else is handed
    /// in with it.
    pub proof fn lemma_spent_badge_is_refused(
        self,
        cdp: Tokens,
        terms: Tokens,
        fee_payment: FungibleBucket,
        cdp_data: Option<CDPView>,
        prices: Option<Seq<(u64, Decimal)>>,
    )
        requires
            terms.ids.len() == 1 ==> self.spent(terms.ids[0].0),
        ensures
            self.end_execution_outcome(cdp, terms, fee_payment, cdp_data, prices) is Err,
    {
    }

    /// A spent badge stays spent through every later call: badges are
    /// minted under fresh identifiers only.
    pub proof fn lemma_spent_badge_stays_spent(self, id: u64, events: Seq<ClusterEvent>)
        requires
            self.spent(id),
            self.in_order(),
        ensures
            self.after_events(events).spent(id),
            self.after_events(events).in_order(),
        decreases events.len(),
    {
        if events.len() > 0 {
            self.lemma_spent_badge_stays_spent(id, events.drop_last());
            self.after_events(events.drop_last()).lemma_event_keeps_order(events.last());
        }
    }

    /// A session that has just been started can be ended: handed the
    /// position and the badge that the start gave out, the position still
    /// valid and the payment covering the fee, `end_execution` succeeds,
    /// spends the badge and puts the position back into the user's vault.
    pub proof fn lemma_started_session_can_end(
        self,
        user_badge: Tokens,
        cdp_data_at_start: Option<CDPView>,
        fee_payment: FungibleBucket,
        cdp_data: CDPView,
        prices: Option<Seq<(u64, Decimal)>>,
    )
        requires
            self.in_order(),
            self.start_execution_outcome(user_badge, cdp_data_at_start) is Ok,
            is_valid(Some(cdp_data), self.supply, self.debt),
            self.start_execution_outcome(user_badge, cdp_data_at_start).unwrap().0.covered(
                self.start_execution_outcome(
                    user_badge,
                    cdp_data_at_start,
                ).unwrap().0.execution_terms[self.execution_count],
                cdp_data,
                prices,
                fee_payment,
            ),
        ensures
            ({
                let (started, cdp, terms) = self.start_execution_outcome(
                    user_badge,
                    cdp_data_at_start,
                ).unwrap();
                let ended = started.end_execution_outcome(
                    cdp,
                    terms,
                    fee_payment,
                    Some(cdp_data),
                    prices,
                );
                &&& started.in_order()
                &&& ended is Ok
                &&& ended.unwrap().0.in_order()
                &&& ended.unwrap().0.spent(terms.ids[0].0)
                &&& ended.unwrap().0.accounts[user_badge.ids[0].0] == self.accounts[user_badge.ids[0].0]
                &&& ended.unwrap().0.execution_terms == self.execution_terms
            }),
    {
        let (started, cdp, terms) = self.start_execution_outcome(
            user_badge,
            cdp_data_at_start,
        ).unwrap();
        let ended = started.end_execution_outcome(cdp, terms, fee_payment, Some(cdp_data), prices);
        let user = user_badge.ids[0];
        assert(self.accounts.contains_key(user.0));
        assert(cdp == self.accounts[user.0]);
        assert(terms.ids[0] == LocalId(self.execution_count));
        assert(started.execution_terms.contains_key(self.execution_count));
        assert(started.consume_terms(terms) is Ok);
        assert(ended is Ok);
        assert(ended.unwrap().0.accounts[user.0] == self.accounts[user.0]);
        assert(ended.unwrap().0.execution_terms =~= self.execution_terms);
    }

    /// Session exactly-once: after a session was ended with a badge, every
    /// further attempt to end a session with that badge fails, whatever was
    /// called in between and whatever else is handed in with the badge.
    pub proof fn lemma_session_ends_exactly_once(
        self,
        cdp: Tokens,
        terms: Tokens,
        fee_payment: FungibleBucket,
        cdp_data: Option<CDPView>,
        prices: Option<Seq<(u64, Decimal)>>,
        between: Seq<ClusterEvent>,
        later_cdp: Tokens,
        later_fee_payment: FungibleBucket,
        later_cdp_data: Option<CDPView>,
        later_prices: Option<Seq<(u64, Decimal)>>,
    )
        requires
            self.in_order(),
            self.end_execution_outcome(cdp, terms, fee_payment, cdp_data, prices) is Ok,
        ensures
            self.end_execution_outcome(
                cdp,
                terms,
                fee_payment,
                cdp_data,
                prices,
            ).unwrap().0.after_events(between).end_execution_outcome(
                later_cdp,
                terms,
                later_fee_payment,
                later_cdp_data,
                later_prices,
            ) is Err,
    {
        let ended = self.end_execution_outcome(cdp, terms, fee_payment, cdp_data, prices).unwrap().0;
        self.lemma_badge_is_spent_after_use(cdp, terms, fee_payment, cdp_data, prices);
        self.lemma_event_keeps_order(ClusterEvent::End { cdp, terms, fee_payment, cdp_data, prices });
        assert(ended == self.after_event(ClusterEvent::End { cdp, terms, fee_payment, cdp_data, prices }));
        ended.lemma_spent_badge_stays_spent(terms.ids[0].0, between);
        ended.after_events(between).lemma_spent_badge_is_refused(
            later_cdp,
            terms,
            later_fee_payment,
            later_cdp_data,
            later_prices,
        );
    }

    /// Session exactly-once, from the cluster's first day: whatever was
    /// called on a new cluster before, the badge of a session that starts
    /// ends that session, handed in with the position while it is valid
    /// and with a payment that covers the fee; and after that, whatever is
    /// called in between, it ends no session again.
    pub proof fn lemma_session_badge_ends_one_session(
        new: ClusterView,
        history: Seq<ClusterEvent>,
        user_badge: Tokens,
        cdp_data_at_start: Option<CDPView>,
        fee_payment: FungibleBucket,
        cdp_data: CDPView,
        prices: Option<Seq<(u64, Decimal)>>,
        between: Seq<ClusterEvent>,
        later_cdp: Tokens,
        later_fee_payment: FungibleBucket,
        later_cdp_data: Option<CDPView>,
        later_prices: Option<Seq<(u64, Decimal)>>,
    )
        requires
            new.link.ids.len() == 0,
            new.accounts == Map::<u64, Tokens>::empty(),
            new.execution_terms == Map::<u64, ExecutionTerms>::empty(),
            new.after_events(history).start_execution_outcome(user_badge, cdp_data_at_start) is Ok,
            is_valid(Some(cdp_data), new.supply, new.debt),
            new.after_events(history).start_execution_outcome(
                user_badge,
                cdp_data_at_start,
            ).unwrap().0.covered(
                new.after_events(history).start_execution_outcome(
                    user_badge,
                    cdp_data_at_start,
                ).unwrap().0.execution_terms[new.after_events(history).execution_count],
                cdp_data,
                prices,
                fee_payment,
            ),
        ensures
            ({
                let (started, cdp, terms) = new.after_events(history).start_execution_outcome(
                    user_badge,
                    cdp_data_at_start,
                ).unwrap();
                let ended = started.end_execution_outcome(
                    cdp,
                    terms,
                    fee_payment,
                    Some(cdp_data),
                    prices,
                );
                &&& ended is Ok
                &&& ended.unwrap().0.after_events(between).end_execution_outcome(
                    later_cdp,
                    terms,
                    later_fee_payment,
                    later_cdp_data,
                    later_prices,
                ) is Err
            }),
    {
        assert(new.in_order());
        new.lemma_events_keep_order(history);
        new.lemma_pair_is_fixed(history);
        let state = new.after_events(history);
        state.lemma_started_session_can_end(
            user_badge,
            cdp_data_at_start,
            fee_payment,
            cdp_data,
            prices,
        );
        let (started, cdp, terms) = state.start_execution_outcome(user_badge, cdp_data_at_start).unwrap();
        started.lemma_session_ends_exactly_once(
            cdp,
            terms,
            fee_payment,
            Some(cdp_data),
            prices,
            between,
            later_cdp,
            later_fee_payment,
            later_cdp_data,
            later_prices,
        );
    }

    /// No call changes the pair of assets that the cluster admits.
    pub proof fn lemma_pair_is_fixed(self, events: Seq<ClusterEvent>)
        ensures
            self.after_events(events).supply == self.supply,
            self.after_events(events).debt == self.debt,
            self.after_events(events).cdp_manager == self.cdp_manager,
        decreases events.len(),
    {
        if events.len() > 0 {
            self.lemma_pair_is_fixed(events.drop_last());
        }
    }

    /// Where ending a session takes no prices, it ends the same with and
    /// without them.
    pub proof fn lemma_prices_matter_only_when_needed(
        self,
        cdp: Tokens,
        terms: Tokens,
        fee_payment: FungibleBucket,
        cdp_data: Option<CDPView>,
        prices: Option<Seq<(u64, Decimal)>>,
    )
        requires
            !self.session_needs_prices(terms, cdp_data),
        ensures
            self.end_execution_outcome(cdp, terms, fee_payment, cdp_data, prices)
                == self.end_execution_outcome(cdp, terms, fee_payment, cdp_data, None),
    {
    }

    /// A position that breaks a rule of the cluster cannot end a session:
    /// the call is refused and the session stays open.
    pub proof fn lemma_invalid_position_cannot_return(
        self,
        cdp: Tokens,
        terms: Tokens,
        fee_payment: FungibleBucket,
        cdp_data: Option<CDPView>,
        prices: Option<Seq<(u64, Decimal)>>,
    )
        requires
            !is_valid(cdp_data, self.supply, self.debt),
        ensures
            self.end_execution_outcome(cdp, terms, fee_payment, cdp_data, prices) is Err,
    {
    }

    /// Without a link badge no account can be opened, whatever the
    /// position.
    pub proof fn lemma_unlinked_cluster_opens_no_account(
        self,
        registry: ComponentRef,
        user_badge: Tokens,
        cdp: Tokens,
        cdp_data: Option<CDPView>,
    )
        requires
            self.link.ids.len() == 0,
            self.enabled(ClusterService::OpenAccount),
        ensures
            self.open_account_check(registry, user_badge, cdp, cdp_data) == Err::<
                LocalId,
                ClusterError,
            >(ClusterError::NotLinked),
    {
    }
}

} // verus!
