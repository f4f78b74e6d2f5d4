//! The platform component: badge issuance, cluster links, and the record of
//! which user has an account in which cluster.

use crate::ledger::AccessRule;
use crate::ledger::BlueprintRef;
use crate::ledger::ComponentRef;
use crate::ledger::FungibleBucket;
use crate::ledger::LocalId;
use crate::ledger::NonFungibleBucket;
use crate::ledger::NonFungibleProof;
use crate::ledger::ResourceRef;
use crate::ledger::Tokens;
use crate::platform::clusters::ClusterWrapper;
use crate::platform::services::cluster_services::ClusterService;
use crate::platform::services::cluster_services::ClusterServiceManager;
use crate::platform::services::platform_services::PlatformService;
use crate::platform::services::platform_services::PlatformServiceManager;
use crate::decimal::Decimal;
use crate::shared::links::Link;
use crate::shared::links::LinkError;
use crate::shared::links::LinkReceiver;
use crate::shared::links::LinkState;
use crate::shared::services::ServiceValue;
use crate::shared::services::SetLock;
use crate::shared::users::User;
use crate::shared::users::UserError;
use crate::shared::users::UserView;
use std::collections::HashMap;
use vstd::prelude::*;

verus! {

/// Why the platform refused a call.
#[derive(Debug, Clone, Copy, PartialEq, Eq, Structural)]
pub enum PlatformError {
    /// The caller does not hold what the operation asks for.
    AccessDenied,
    /// The platform has the operation switched off.
    ServiceDisabled(PlatformService),
    /// The platform does not serve this call for the calling cluster.
    ClusterServiceDisabled(ClusterService),
    /// The switch is locked against ordinary updates.
    ServiceLocked,
    /// A badge counter has reached its maximum.
    CapacityExhausted,
    /// The cluster is linked already.
    ClusterAlreadyLinked,
    /// The cluster is not linked.
    ClusterNotLinked,
    /// The cluster refused the link badge.
    LinkRejected(LinkError),
    /// The proof is not of the platform's link badge.
    InvalidLinkBadge,
    /// The proof does not cover exactly one link badge.
    InvalidLinkBadgeQuantity,
    /// The platform has not minted a link badge of this identifier.
    UnknownLinkBadge,
    /// The link badge was minted by another platform.
    LinkNotIssuedByPlatform,
    /// The proof is not of the platform's user badge.
    InvalidUserBadge,
    /// The proof does not cover exactly one user badge.
    InvalidUserBadgeQuantity,
    /// The platform has not minted a user badge of this identifier.
    UnknownUser,
    /// The user's membership could not be changed.
    User(UserError),
}

/// The platform's state.
#[derive(Debug)]
pub struct Platform {
    /// The platform's own address.
    pub component_address: ComponentRef,
    /// What the owner of the platform presents.
    pub owner_rule: AccessRule,
    /// What an admin of the platform presents.
    pub admin_rule: AccessRule,
    /// The resource type of admin badges.
    pub admin_badge_manager: ResourceRef,
    /// How many admin badges were minted.
    pub admin_count: u64,
    /// The resource type of user badges.
    pub user_badge_manager: ResourceRef,
    /// How many user badges were minted.
    pub user_count: u64,
    /// The data of each user badge, by its identifier.
    pub users: HashMap<u64, User>,
    /// The switches of the platform's operations.
    pub services: PlatformServiceManager,
    /// The resource type of link badges.
    pub link_badge_manager: ResourceRef,
    /// The data of each link badge, by its identifier.
    pub links: HashMap<u64, Link>,
    /// The record of each linked cluster, by the cluster's address.
    pub linked_clusters: HashMap<u64, ClusterWrapper>,
    /// How many link badges were minted.
    pub linked_count: u64,
}

/// The platform's state as plain mathematics.
pub struct PlatformView {
    pub component_address: ComponentRef,
    pub owner_rule: AccessRule,
    pub admin_rule: AccessRule,
    pub admin_badge: ResourceRef,
    pub admin_count: u64,
    pub user_badge: ResourceRef,
    pub user_count: u64,
    pub users: Map<u64, UserView>,
    pub services: PlatformServiceManager,
    pub link_badge: ResourceRef,
    pub links: Map<u64, Link>,
    pub linked_clusters: Map<u64, ClusterWrapper>,
    pub linked_count: u64,
}

impl View for Platform {
    type V = PlatformView;

    open spec fn view(&self) -> PlatformView {
        PlatformView {
            component_address: self.component_address,
            owner_rule: self.owner_rule,
            admin_rule: self.admin_rule,
            admin_badge: self.admin_badge_manager,
            admin_count: self.admin_count,
            user_badge: self.user_badge_manager,
            user_count: self.user_count,
            users: self.users@.map_values(|user: User| user@),
            services: self.services,
            link_badge: self.link_badge_manager,
            links: self.links@,
            linked_clusters: self.linked_clusters@,
            linked_count: self.linked_count,
        }
    }
}

impl PlatformView {
    /// A platform on which nothing has happened yet. Its admins are those
    /// who present an admin badge.
    pub open spec fn initial(
        owner_rule: AccessRule,
        component_address: ComponentRef,
        admin_badge: ResourceRef,
        user_badge: ResourceRef,
        link_badge: ResourceRef,
    ) -> PlatformView {
        PlatformView {
            component_address,
            owner_rule,
            admin_rule: AccessRule::Require(admin_badge),
            admin_badge,
            admin_count: 0,
            user_badge,
            user_count: 0,
            users: Map::empty(),
            services: PlatformServiceManager {
                can_mint_badge: ServiceValue { value: true, locked: false },
                can_open_badge: ServiceValue { value: true, locked: false },
                can_close_badge: ServiceValue { value: true, locked: false },
                can_link_cluster: ServiceValue { value: true, locked: false },
                can_unlink_cluster: ServiceValue { value: true, locked: false },
            },
            link_badge,
            links: Map::empty(),
            linked_clusters: Map::empty(),
            linked_count: 0,
        }
    }

    /// Whether a caller who presents the `badges` is the owner.
    pub open spec fn is_owner(self, badges: Seq<ResourceRef>) -> bool {
        self.owner_rule.allows(badges)
    }

    /// Whether a caller who presents the `badges` may link and unlink
    /// clusters: the owner may.
    pub open spec fn may_manage_links(self, badges: Seq<ResourceRef>) -> bool {
        self.owner_rule.allows(badges)
    }

    /// Whether a caller who presents the `badges` may switch services on
    /// and off: an admin may, and so may the owner.
    pub open spec fn may_update_services(self, badges: Seq<ResourceRef>) -> bool {
        self.admin_rule.allows(badges) || self.owner_rule.allows(badges)
    }

    /// Whether a caller who presents the `badges` may lock and unlock
    /// services: the owner may.
    pub open spec fn may_lock_services(self, badges: Seq<ResourceRef>) -> bool {
        self.owner_rule.allows(badges)
    }

    /// Whether `service` is switched on.
    pub open spec fn enabled(self, service: PlatformService) -> bool {
        self.services.lookup(service).value
    }

    /// The state after a user badge was minted at time `now`, or the
    /// refusal.
    pub open spec fn new_user_outcome(self, now: i64) -> Result<PlatformView, PlatformError> {
        if !self.enabled(PlatformService::MintBadge) {
            Err(PlatformError::ServiceDisabled(PlatformService::MintBadge))
        } else if self.user_count == u64::MAX {
            Err(PlatformError::CapacityExhausted)
        } else {
            Ok(
                PlatformView {
                    user_count: (self.user_count + 1) as u64,
                    users: self.users.insert(
                        self.user_count,
                        UserView { minted_at: now, accounts_in: Seq::empty(), open: 0 },
                    ),
                    ..self
                },
            )
        }
    }

    /// The state after an admin badge was minted, or the refusal.
    pub open spec fn new_admin_badge_outcome(self) -> Result<PlatformView, PlatformError> {
        if !self.enabled(PlatformService::MintBadge) {
            Err(PlatformError::ServiceDisabled(PlatformService::MintBadge))
        } else if self.admin_count == u64::MAX {
            Err(PlatformError::CapacityExhausted)
        } else {
            Ok(PlatformView { admin_count: (self.admin_count + 1) as u64, ..self })
        }
    }

    /// The identifier a proof of the platform's user badge stands for, or
    /// why the proof is not accepted.
    pub open spec fn validate_user(self, resource: ResourceRef, ids: Seq<LocalId>) -> Result<
        LocalId,
        PlatformError,
    > {
        if resource != self.user_badge {
            Err(PlatformError::InvalidUserBadge)
        } else if ids.len() != 1 {
            Err(PlatformError::InvalidUserBadgeQuantity)
        } else {
            Ok(ids[0])
        }
    }

    /// The record of the cluster that presents a proof of `ids` of
    /// `resource` as its link badge, or why the proof is not accepted.
    pub open spec fn validate_link(self, resource: ResourceRef, ids: Seq<LocalId>) -> Result<
        ClusterWrapper,
        PlatformError,
    > {
        if resource != self.link_badge {
            Err(PlatformError::InvalidLinkBadge)
        } else if ids.len() != 1 {
            Err(PlatformError::InvalidLinkBadgeQuantity)
        } else if !self.links.contains_key(ids[0].0) {
            Err(PlatformError::UnknownLinkBadge)
        } else if !self.linked_clusters.contains_key(self.links[ids[0].0].linked_cluster.0) {
            Err(PlatformError::ClusterNotLinked)
        } else if self.links[ids[0].0].issuing_platform != self.component_address {
            Err(PlatformError::LinkNotIssuedByPlatform)
        } else {
            Ok(self.linked_clusters[self.links[ids[0].0].linked_cluster.0])
        }
    }

    /// The state after the cluster that presents the link badge opened an
    /// account for `user_id`, or the refusal.
    pub open spec fn open_account_outcome(
        self,
        link_resource: ResourceRef,
        link_ids: Seq<LocalId>,
        user_id: LocalId,
    ) -> Result<PlatformView, PlatformError> {
        if !self.enabled(PlatformService::OpenAccount) {
            Err(PlatformError::ServiceDisabled(PlatformService::OpenAccount))
        } else {
            match self.validate_link(link_resource, link_ids) {
                Err(e) => Err(e),
                Ok(wrapper) => if !wrapper.services.lookup(ClusterService::OpenAccount).value {
                    Err(PlatformError::ClusterServiceDisabled(ClusterService::OpenAccount))
                } else if !self.users.contains_key(user_id.0) {
                    Err(PlatformError::UnknownUser)
                } else {
                    match self.users[user_id.0].add_refusal(wrapper.cluster_address) {
                        Some(e) => Err(PlatformError::User(e)),
                        None => Ok(
                            PlatformView {
                                users: self.users.insert(
                                    user_id.0,
                                    self.users[user_id.0].after_add(wrapper.cluster_address),
                                ),
                                ..self
                            },
                        ),
                    }
                },
            }
        }
    }

    /// The state after the cluster that presents the link badge closed the
    /// account of `user_id`, or the refusal.
    pub open spec fn close_account_outcome(
        self,
        link_resource: ResourceRef,
        link_ids: Seq<LocalId>,
        user_id: LocalId,
    ) -> Result<PlatformView, PlatformError> {
        if !self.enabled(PlatformService::CloseAccount) {
            Err(PlatformError::ServiceDisabled(PlatformService::CloseAccount))
        } else {
            match self.validate_link(link_resource, link_ids) {
                Err(e) => Err(e),
                Ok(wrapper) => if !wrapper.services.lookup(ClusterService::CloseAccount).value {
                    Err(PlatformError::ClusterServiceDisabled(ClusterService::CloseAccount))
                } else if !self.users.contains_key(user_id.0) {
                    Err(PlatformError::UnknownUser)
                } else {
                    match self.users[user_id.0].remove_refusal(wrapper.cluster_address) {
                        Some(e) => Err(PlatformError::User(e)),
                        None => Ok(
                            PlatformView {
                                users: self.users.insert(
                                    user_id.0,
                                    self.users[user_id.0].after_remove(wrapper.cluster_address),
                                ),
                                ..self
                            },
                        ),
                    }
                },
            }
        }
    }

    /// The link badge the platform would mint next.
    pub open spec fn next_link_id(self) -> LocalId {
        LocalId(self.linked_count)
    }

    /// The state after `cluster` was linked, or the refusal.
    pub open spec fn link_outcome(self, cluster: LinkState, blueprint_id: BlueprintRef) -> Result<
        PlatformView,
        PlatformError,
    > {
        if !self.enabled(PlatformService::LinkCluster) {
            Err(PlatformError::ServiceDisabled(PlatformService::LinkCluster))
        } else if self.linked_clusters.contains_key(cluster.address.0) {
            Err(PlatformError::ClusterAlreadyLinked)
        } else if self.linked_count == u64::MAX {
            Err(PlatformError::CapacityExhausted)
        } else {
            match cluster.refusal(self.link_badge, seq![self.next_link_id()]) {
                Some(e) => Err(PlatformError::LinkRejected(e)),
                None => Ok(
                    PlatformView {
                        links: self.links.insert(
                            self.linked_count,
                            Link {
                                issuing_platform: self.component_address,
                                linked_cluster: cluster.address,
                            },
                        ),
                        linked_count: (self.linked_count + 1) as u64,
                        linked_clusters: self.linked_clusters.insert(
                            cluster.address.0,
                            ClusterWrapper {
                                cluster_address: cluster.address,
                                blueprint_id,
                                link_id: self.next_link_id(),
                                services: ClusterServiceManager {
                                    can_open_account: ServiceValue { value: true, locked: false },
                                    can_close_account: ServiceValue { value: true, locked: false },
                                },
                            },
                        ),
                        ..self
                    },
                ),
            }
        }
    }

    /// The state after the cluster at `cluster_address` was unlinked, or the
    /// refusal.
    pub open spec fn unlink_outcome(self, cluster_address: ComponentRef) -> Result<
        PlatformView,
        PlatformError,
    > {
        if !self.enabled(PlatformService::UnlinkCluster) {
            Err(PlatformError::ServiceDisabled(PlatformService::UnlinkCluster))
        } else if !self.linked_clusters.contains_key(cluster_address.0) {
            Err(PlatformError::ClusterNotLinked)
        } else {
            Ok(
                PlatformView {
                    linked_clusters: self.linked_clusters.remove(cluster_address.0),
                    ..self
                },
            )
        }
    }

    /// The state after one of the platform's own switches was updated, or
    /// the refusal.
    pub open spec fn update_service_outcome(
        self,
        service: PlatformService,
        value: bool,
        lock: SetLock,
    ) -> Result<PlatformView, PlatformError> {
        match self.services.after_update(service, value, lock) {
            Ok(services) => Ok(PlatformView { services, ..self }),
            Err(_) => Err(PlatformError::ServiceLocked),
        }
    }

    /// The state after one of the switches kept for the cluster at
    /// `cluster_address` was updated, or the refusal.
    pub open spec fn update_cluster_service_outcome(
        self,
        cluster_address: ComponentRef,
        service: ClusterService,
        value: bool,
        lock: SetLock,
    ) -> Result<PlatformView, PlatformError> {
        if !self.linked_clusters.contains_key(cluster_address.0) {
            Err(PlatformError::ClusterNotLinked)
        } else {
            let wrapper = self.linked_clusters[cluster_address.0];
            match wrapper.services.after_update(service, value, lock) {
                Ok(services) => Ok(
                    PlatformView {
                        linked_clusters: self.linked_clusters.insert(
                            cluster_address.0,
                            ClusterWrapper { services, ..wrapper },
                        ),
                        ..self
                    },
                ),
                Err(_) => Err(PlatformError::ServiceLocked),
            }
        }
    }
}

impl Platform {
    /// A new platform together with the badge of its owner, who is whoever
    /// presents that badge.
    pub fn instantiate(
        owner_badge: ResourceRef,
        component_address: ComponentRef,
        admin_badge: ResourceRef,
        user_badge: ResourceRef,
        link_badge: ResourceRef,
    ) -> (r: (Platform, FungibleBucket))
        ensures
            r.0@ == PlatformView::initial(
                AccessRule::Require(owner_badge),
                component_address,
                admin_badge,
                user_badge,
                link_badge,
            ),
            r.1.resource == owner_badge,
            r.1.amount.attos() == crate::decimal::scale(),
    {
        let platform = Platform::instantiate_advanced(
            AccessRule::Require(owner_badge),
            component_address,
            admin_badge,
            user_badge,
            link_badge,
        );
        (platform, FungibleBucket::new(owner_badge, Decimal::one()))
    }

    /// A new platform at `component_address` that mints the given badges
    /// and whose owner meets `owner_rule`: nothing minted, nothing linked,
    /// every operation switched on.
    pub fn instantiate_advanced(
        owner_rule: AccessRule,
        component_address: ComponentRef,
        admin_badge: ResourceRef,
        user_badge: ResourceRef,
        link_badge: ResourceRef,
    ) -> (r: Platform)
        ensures
            r@ == PlatformView::initial(
                owner_rule,
                component_address,
                admin_badge,
                user_badge,
                link_badge,
            ),
    {
        let platform = Platform {
            component_address,
            owner_rule,
            admin_rule: AccessRule::Require(admin_badge),
            admin_badge_manager: admin_badge,
            admin_count: 0,
            user_badge_manager: user_badge,
            user_count: 0,
            users: HashMap::new(),
            services: PlatformServiceManager::new(),
            link_badge_manager: link_badge,
            links: HashMap::new(),
            linked_clusters: HashMap::new(),
            linked_count: 0,
        };
        proof {
            let initial = PlatformView::initial(
                owner_rule,
                component_address,
                admin_badge,
                user_badge,
                link_badge,
            );
            assert(platform@.users =~= initial.users);
            assert(platform.services.lookup(PlatformService::MintBadge).value);
            assert(platform.services.lookup(PlatformService::OpenAccount).value);
            assert(platform.services.lookup(PlatformService::CloseAccount).value);
            assert(platform.services.lookup(PlatformService::LinkCluster).value);
            assert(platform.services.lookup(PlatformService::UnlinkCluster).value);
            assert(platform.services == initial.services);
        }
        platform
    }

    /// Mints a user badge with no account anywhere. Refused when minting is
    /// switched off or every identifier has been used.
    pub fn new_user(&mut self, now: i64) -> (r: Result<NonFungibleBucket, PlatformError>)
        ensures
            match old(self)@.new_user_outcome(now) {
                Ok(next) => r.is_ok() && r.unwrap().resource == old(self)@.user_badge && r.unwrap().ids@
                    == seq![LocalId(old(self)@.user_count)] && final(self)@ == next,
                Err(e) => r == Err::<NonFungibleBucket, PlatformError>(e) && final(self)@ == old(self)@,
            },
    {
        if !self.services.get(PlatformService::MintBadge).value {
            return Err(PlatformError::ServiceDisabled(PlatformService::MintBadge));
        }
        if self.user_count == u64::MAX {
            return Err(PlatformError::CapacityExhausted);
        }
        let badge_data = User::new(now);
        let badge_id = LocalId(self.user_count);
        self.user_count += 1;
        self.users.insert(badge_id.0, badge_data);
        proof {
            assert(final(self)@.users =~= old(self)@.users.insert(
                badge_id.0,
                UserView { minted_at: now, accounts_in: Seq::empty(), open: 0 },
            ));
        }
        Ok(NonFungibleBucket::single(self.user_badge_manager, badge_id))
    }

    /// Checks a proof of a user badge and gives the user's identifier.
    pub fn __validate_user(&self, user_badge: &NonFungibleProof) -> (r: Result<
        LocalId,
        PlatformError,
    >)
        ensures
            r == self@.validate_user(user_badge.resource, user_badge.ids@),
    {
        if user_badge.resource_address() != self.user_badge_manager {
            return Err(PlatformError::InvalidUserBadge);
        }
        if user_badge.amount() != 1 {
            return Err(PlatformError::InvalidUserBadgeQuantity);
        }
        Ok(user_badge.non_fungible_local_id())
    }

    /// Links `cluster`: mints a link badge for it, hands the badge over, and
    /// records the cluster. When the cluster refuses the badge nothing is
    /// minted and nothing recorded.
    pub fn link_cluster<C: LinkReceiver>(
        &mut self,
        auth: &Vec<ResourceRef>,
        cluster: &mut C,
        blueprint_id: BlueprintRef,
    ) -> (r: Result<(), PlatformError>)
        ensures
            if old(self)@.may_manage_links(auth@) {
                match old(self)@.link_outcome(old(cluster).link_state(), blueprint_id) {
                    Ok(next) => r.is_ok()
                        && final(self)@ == next
                        && final(cluster).link_state() == old(cluster).link_state().after(
                        seq![old(self)@.next_link_id()],
                    )
                        && final(cluster).differs_only_in_link(old(cluster)),
                    Err(e) => r == Err::<(), PlatformError>(e)
                        && final(self)@ == old(self)@
                        && *final(cluster) == *old(cluster),
                }
            } else {
                r == Err::<(), PlatformError>(PlatformError::AccessDenied)
                    && final(self)@ == old(self)@
                    && *final(cluster) == *old(cluster)
            },
    {
        if !(self.owner_rule.check(auth)) {
            return Err(PlatformError::AccessDenied);
        }
        if !self.services.get(PlatformService::LinkCluster).value {
            return Err(PlatformError::ServiceDisabled(PlatformService::LinkCluster));
        }
        let cluster_address = cluster.component_address();
        if self.linked_clusters.contains_key(&cluster_address.0) {
            return Err(PlatformError::ClusterAlreadyLinked);
        }
        if self.linked_count == u64::MAX {
            return Err(PlatformError::CapacityExhausted);
        }
        let link_data = Link::new(self.component_address, cluster_address);
        let link_id = LocalId(self.linked_count);
        let link_badge = NonFungibleBucket::single(self.link_badge_manager, link_id);
        match cluster.handle_link(link_badge) {
            Ok(()) => {},
            Err(e) => {
                return Err(PlatformError::LinkRejected(e));
            },
        }
        self.links.insert(link_id.0, link_data);
        self.linked_count += 1;
        let wrapper = ClusterWrapper::new(cluster_address, blueprint_id, link_id);
        self.linked_clusters.insert(cluster_address.0, wrapper);
        Ok(())
    }

    /// Forgets the cluster at `cluster_address`. The badge minted for it
    /// stays where it is and is no longer honoured.
    pub fn unlink_cluster(&mut self, auth: &Vec<ResourceRef>, cluster_address: ComponentRef) -> (r: Result<
        (),
        PlatformError,
    >)
        ensures
            if old(self)@.may_manage_links(auth@) {
                match old(self)@.unlink_outcome(cluster_address) {
                    Ok(next) => r.is_ok() && final(self)@ == next,
                    Err(e) => r == Err::<(), PlatformError>(e) && final(self)@ == old(self)@,
                }
            } else {
                r == Err::<(), PlatformError>(PlatformError::AccessDenied)
                    && final(self)@ == old(self)@
            },
    {
        if !(self.owner_rule.check(auth)) {
            return Err(PlatformError::AccessDenied);
        }
        if !self.services.get(PlatformService::UnlinkCluster).value {
            return Err(PlatformError::ServiceDisabled(PlatformService::UnlinkCluster));
        }
        if !self.linked_clusters.contains_key(&cluster_address.0) {
            return Err(PlatformError::ClusterNotLinked);
        }
        self.linked_clusters.remove(&cluster_address.0);
        Ok(())
    }

    /// Sets whether the platform serves `service` for the cluster at
    /// `cluster_address`. Refused while that switch is locked.
    pub fn update_cluster_service(
        &mut self,
        auth: &Vec<ResourceRef>,
        cluster_address: ComponentRef,
        service: ClusterService,
        value: bool,
    ) -> (r: Result<(), PlatformError>)
        ensures
            if old(self)@.may_update_services(auth@) {
                match old(self)@.update_cluster_service_outcome(
                    cluster_address,
                    service,
                    value,
                    SetLock::Unchanged,
                ) {
                    Ok(next) => r.is_ok() && final(self)@ == next,
                    Err(e) => r == Err::<(), PlatformError>(e) && final(self)@ == old(self)@,
                }
            } else {
                r == Err::<(), PlatformError>(PlatformError::AccessDenied)
                    && final(self)@ == old(self)@
            },
    {
        if !(self.admin_rule.check(auth) || self.owner_rule.check(auth)) {
            return Err(PlatformError::AccessDenied);
        }
        self.set_cluster_service(cluster_address, service, value, SetLock::Unchanged)
    }

    /// Sets whether the platform serves `service` for the cluster at
    /// `cluster_address`, and whether that switch is locked from now on.
    pub fn update_cluster_service_and_set_lock(
        &mut self,
        auth: &Vec<ResourceRef>,
        cluster_address: ComponentRef,
        service: ClusterService,
        value: bool,
        locked: bool,
    ) -> (r: Result<(), PlatformError>)
        ensures
            if old(self)@.may_lock_services(auth@) {
                match old(self)@.update_cluster_service_outcome(
                    cluster_address,
                    service,
                    value,
                    SetLock::Update(locked),
                ) {
                    Ok(next) => r.is_ok() && final(self)@ == next,
                    Err(e) => r == Err::<(), PlatformError>(e) && final(self)@ == old(self)@,
                }
            } else {
                r == Err::<(), PlatformError>(PlatformError::AccessDenied)
                    && final(self)@ == old(self)@
            },
    {
        if !(self.owner_rule.check(auth)) {
            return Err(PlatformError::AccessDenied);
        }
        self.set_cluster_service(cluster_address, service, value, SetLock::Update(locked))
    }

    /// Updates one of the switches kept for a linked cluster.
    fn set_cluster_service(
        &mut self,
        cluster_address: ComponentRef,
        service: ClusterService,
        value: bool,
        lock: SetLock,
    ) -> (r: Result<(), PlatformError>)
        ensures
            match old(self)@.update_cluster_service_outcome(cluster_address, service, value, lock) {
                Ok(next) => r.is_ok() && final(self)@ == next,
                Err(e) => r == Err::<(), PlatformError>(e) && final(self)@ == old(self)@,
            },
    {
        let mut wrapper = match self.linked_clusters.get(&cluster_address.0) {
            Some(wrapper) => *wrapper,
            None => {
                return Err(PlatformError::ClusterNotLinked);
            },
        };
        match wrapper.services.update_service(service, value, lock) {
            Ok(()) => {
                self.linked_clusters.insert(cluster_address.0, wrapper);
                Ok(())
            },
            Err(_) => Err(PlatformError::ServiceLocked),
        }
    }

    /// Checks the link badge that a cluster presents and gives the record of
    /// that cluster.
    pub fn __validate_link(&self, link_badge: &NonFungibleProof) -> (r: Result<
        ClusterWrapper,
        PlatformError,
    >)
        ensures
            r == self@.validate_link(link_badge.resource, link_badge.ids@),
    {
        if link_badge.resource_address() != self.link_badge_manager {
            return Err(PlatformError::InvalidLinkBadge);
        }
        if link_badge.amount() != 1 {
            return Err(PlatformError::InvalidLinkBadgeQuantity);
        }
        let link_id = link_badge.non_fungible_local_id();
        let link = match self.links.get(&link_id.0) {
            Some(link) => *link,
            None => {
                return Err(PlatformError::UnknownLinkBadge);
            },
        };
        let wrapper = match self.linked_clusters.get(&link.linked_cluster.0) {
            Some(wrapper) => *wrapper,
            None => {
                return Err(PlatformError::ClusterNotLinked);
            },
        };
        if link.issuing_platform != self.component_address {
            return Err(PlatformError::LinkNotIssuedByPlatform);
        }
        Ok(wrapper)
    }

    /// The resource type of user badges.
    pub fn get_user_badge_address(&self) -> (r: ResourceRef)
        ensures
            r == self@.user_badge,
    {
        self.user_badge_manager
    }

    /// The resource type of link badges.
    pub fn get_link_badge_address(&self) -> (r: ResourceRef)
        ensures
            r == self@.link_badge,
    {
        self.link_badge_manager
    }

    /// Mints an admin badge. Refused when minting is switched off or every
    /// identifier has been used.
    pub fn new_admin_badge(&mut self, auth: &Vec<ResourceRef>) -> (r: Result<NonFungibleBucket, PlatformError>)
        ensures
            if old(self)@.is_owner(auth@) {
                match old(self)@.new_admin_badge_outcome() {
                    Ok(next) => r.is_ok() && r.unwrap().resource == old(self)@.admin_badge
                        && r.unwrap().ids@ == seq![LocalId(old(self)@.admin_count)] && final(self)@
                        == next,
                    Err(e) => r == Err::<NonFungibleBucket, PlatformError>(e) && final(self)@ == old(self)@,
                }
            } else {
                r == Err::<NonFungibleBucket, PlatformError>(PlatformError::AccessDenied)
                    && final(self)@ == old(self)@
            },
    {
        if !(self.owner_rule.check(auth)) {
            return Err(PlatformError::AccessDenied);
        }
        if !self.services.get(PlatformService::MintBadge).value {
            return Err(PlatformError::ServiceDisabled(PlatformService::MintBadge));
        }
        if self.admin_count == u64::MAX {
            return Err(PlatformError::CapacityExhausted);
        }
        let badge_id = LocalId(self.admin_count);
        self.admin_count += 1;
        Ok(NonFungibleBucket::single(self.admin_badge_manager, badge_id))
    }

    /// Switches one of the platform's operations on or off. Refused while
    /// that switch is locked.
    pub fn update_service(&mut self, auth: &Vec<ResourceRef>, service: PlatformService, value: bool) -> (r: Result<
        (),
        PlatformError,
    >)
        ensures
            if old(self)@.may_update_services(auth@) {
                match old(self)@.update_service_outcome(service, value, SetLock::Unchanged) {
                    Ok(next) => r.is_ok() && final(self)@ == next,
                    Err(e) => r == Err::<(), PlatformError>(e) && final(self)@ == old(self)@,
                }
            } else {
                r == Err::<(), PlatformError>(PlatformError::AccessDenied)
                    && final(self)@ == old(self)@
            },
    {
        if !(self.admin_rule.check(auth) || self.owner_rule.check(auth)) {
            return Err(PlatformError::AccessDenied);
        }
        match self.services.update(service, value, SetLock::Unchanged) {
            Ok(()) => Ok(()),
            Err(_) => Err(PlatformError::ServiceLocked),
        }
    }

    /// Switches one of the platform's operations on or off and sets whether
    /// that switch is locked from now on.
    pub fn update_service_and_set_lock(
        &mut self,
        auth: &Vec<ResourceRef>,
        service: PlatformService,
        value: bool,
        locked: bool,
    ) -> (r: Result<(), PlatformError>)
        ensures
            if old(self)@.may_lock_services(auth@) {
                match old(self)@.update_service_outcome(service, value, SetLock::Update(locked)) {
                    Ok(next) => r.is_ok() && final(self)@ == next,
                    Err(e) => r == Err::<(), PlatformError>(e) && final(self)@ == old(self)@,
                }
            } else {
                r == Err::<(), PlatformError>(PlatformError::AccessDenied)
                    && final(self)@ == old(self)@
            },
    {
        if !(self.owner_rule.check(auth)) {
            return Err(PlatformError::AccessDenied);
        }
        match self.services.update(service, value, SetLock::Update(locked)) {
            Ok(()) => Ok(()),
            Err(_) => Err(PlatformError::ServiceLocked),
        }
    }
}

/// The platform as a linked cluster sees it: the registry in which the
/// cluster records which user has an account with it. A cluster presents its
/// link badge with every call.
pub trait AccountRegistry: Sized {
    /// The registry's address.
    spec fn registry_address(&self) -> ComponentRef;

    /// Why the registry refuses to record an account of `user_id` for the
    /// cluster that presents `link_badge`, if it does.
    spec fn open_account_refusal(&self, link_badge: Tokens, user_id: LocalId) -> Option<
        PlatformError,
    >;

    /// Whether the registry is as it was in `before`, but for the account
    /// of `user_id` now on record for the cluster that presented
    /// `link_badge`.
    spec fn account_opened(&self, before: &Self, link_badge: Tokens, user_id: LocalId) -> bool;

    /// Why the registry refuses to strike the account of `user_id` for the
    /// cluster that presents `link_badge`, if it does.
    spec fn close_account_refusal(&self, link_badge: Tokens, user_id: LocalId) -> Option<
        PlatformError,
    >;

    /// Whether the registry is as it was in `before`, but for the account
    /// of `user_id` no longer on record for the cluster that presented
    /// `link_badge`.
    spec fn account_closed(&self, before: &Self, link_badge: Tokens, user_id: LocalId) -> bool;

    /// The registry's address.
    fn address(&self) -> (r: ComponentRef)
        ensures
            r == self.registry_address(),
    ;

    /// Records that `user_id` has an account in the cluster that presents
    /// `link_badge`. A refusal changes nothing.
    fn open_account(&mut self, link_badge: &NonFungibleProof, user_id: LocalId) -> (r: Result<
        (),
        PlatformError,
    >)
        ensures
            final(self).registry_address() == old(self).registry_address(),
            match old(self).open_account_refusal(link_badge@, user_id) {
                Some(e) => r == Err::<(), PlatformError>(e) && *final(self) == *old(self),
                None => r.is_ok() && final(self).account_opened(old(self), link_badge@, user_id),
            },
    ;

    /// Records that `user_id` no longer has an account in the cluster that
    /// presents `link_badge`. A refusal changes nothing.
    fn close_account(&mut self, link_badge: &NonFungibleProof, user_id: LocalId) -> (r: Result<
        (),
        PlatformError,
    >)
        ensures
            final(self).registry_address() == old(self).registry_address(),
            match old(self).close_account_refusal(link_badge@, user_id) {
                Some(e) => r == Err::<(), PlatformError>(e) && *final(self) == *old(self),
                None => r.is_ok() && final(self).account_closed(old(self), link_badge@, user_id),
            },
    ;
}

impl AccountRegistry for Platform {
    open spec fn registry_address(&self) -> ComponentRef {
        self.component_address
    }

    open spec fn open_account_refusal(&self, link_badge: Tokens, user_id: LocalId) -> Option<
        PlatformError,
    > {
        match self@.open_account_outcome(link_badge.resource, link_badge.ids, user_id) {
            Ok(_) => None,
            Err(e) => Some(e),
        }
    }

    open spec fn account_opened(&self, before: &Self, link_badge: Tokens, user_id: LocalId) -> bool {
        before@.open_account_outcome(link_badge.resource, link_badge.ids, user_id) == Ok::<
            PlatformView,
            PlatformError,
        >(self@)
    }

    open spec fn close_account_refusal(&self, link_badge: Tokens, user_id: LocalId) -> Option<
        PlatformError,
    > {
        match self@.close_account_outcome(link_badge.resource, link_badge.ids, user_id) {
            Ok(_) => None,
            Err(e) => Some(e),
        }
    }

    open spec fn account_closed(&self, before: &Self, link_badge: Tokens, user_id: LocalId) -> bool {
        before@.close_account_outcome(link_badge.resource, link_badge.ids, user_id) == Ok::<
            PlatformView,
            PlatformError,
        >(self@)
    }

    fn address(&self) -> (r: ComponentRef) {
        self.component_address
    }

    fn open_account(&mut self, link_badge: &NonFungibleProof, user_id: LocalId) -> (r: Result<
        (),
        PlatformError,
    >)
        ensures
            match old(self)@.open_account_outcome(link_badge.resource, link_badge.ids@, user_id) {
                Ok(next) => r.is_ok() && final(self)@ == next,
                Err(e) => r == Err::<(), PlatformError>(e) && final(self)@ == old(self)@,
            },
    {
        if !self.services.get(PlatformService::OpenAccount).value {
            return Err(PlatformError::ServiceDisabled(PlatformService::OpenAccount));
        }
        let wrapper = match self.__validate_link(link_badge) {
            Ok(wrapper) => wrapper,
            Err(e) => {
                return Err(e);
            },
        };
        if !wrapper.services.get_service(ClusterService::OpenAccount).value {
            return Err(PlatformError::ClusterServiceDisabled(ClusterService::OpenAccount));
        }
        let refusal = match self.users.get(&user_id.0) {
            Some(user) => user.check_add_account(wrapper.cluster_address),
            None => {
                return Err(PlatformError::UnknownUser);
            },
        };
        match refusal {
            Some(e) => Err(PlatformError::User(e)),
            None => {
                let mut user = self.users.remove(&user_id.0).unwrap();
                let added = user.add_account(wrapper.cluster_address);
                self.users.insert(user_id.0, user);
                proof {
                    assert(self@.users =~= old(self)@.users.insert(
                        user_id.0,
                        old(self)@.users[user_id.0].after_add(wrapper.cluster_address),
                    ));
                }
                Ok(())
            },
        }
    }

    fn close_account(&mut self, link_badge: &NonFungibleProof, user_id: LocalId) -> (r: Result<
        (),
        PlatformError,
    >)
        ensures
            match old(self)@.close_account_outcome(link_badge.resource, link_badge.ids@, user_id) {
                Ok(next) => r.is_ok() && final(self)@ == next,
                Err(e) => r == Err::<(), PlatformError>(e) && final(self)@ == old(self)@,
            },
    {
        if !self.services.get(PlatformService::CloseAccount).value {
            return Err(PlatformError::ServiceDisabled(PlatformService::CloseAccount));
        }
        let wrapper = match self.__validate_link(link_badge) {
            Ok(wrapper) => wrapper,
            Err(e) => {
                return Err(e);
            },
        };
        if !wrapper.services.get_service(ClusterService::CloseAccount).value {
            return Err(PlatformError::ClusterServiceDisabled(ClusterService::CloseAccount));
        }
        let refusal = match self.users.get(&user_id.0) {
            Some(user) => user.check_remove_account(wrapper.cluster_address),
            None => {
                return Err(PlatformError::UnknownUser);
            },
        };
        match refusal {
            Some(e) => Err(PlatformError::User(e)),
            None => {
                let mut user = self.users.remove(&user_id.0).unwrap();
                let removed = user.remove_account(wrapper.cluster_address);
                self.users.insert(user_id.0, user);
                proof {
                    assert(self@.users =~= old(self)@.users.insert(
                        user_id.0,
                        old(self)@.users[user_id.0].after_remove(wrapper.cluster_address),
                    ));
                }
                Ok(())
            },
        }
    }
}

/// A registry that keeps no record and refuses nothing. It stands for a
/// platform whose answer is had elsewhere: a cluster asks it for what the
/// cluster alone decides, and calls the platform itself afterwards.
#[derive(Debug, Clone, Copy, PartialEq, Eq, Structural)]
pub struct UncheckedRegistry {
    /// The platform's address.
    pub address: ComponentRef,
}

impl UncheckedRegistry {
    /// The stand-in for the platform at `address`.
    pub fn new(address: ComponentRef) -> (r: UncheckedRegistry)
        ensures
            r.address == address,
    {
        UncheckedRegistry { address }
    }
}

impl AccountRegistry for UncheckedRegistry {
    open spec fn registry_address(&self) -> ComponentRef {
        self.address
    }

    open spec fn open_account_refusal(&self, link_badge: Tokens, user_id: LocalId) -> Option<
        PlatformError,
    > {
        None
    }

    open spec fn account_opened(&self, before: &Self, link_badge: Tokens, user_id: LocalId) -> bool {
        *self == *before
    }

    open spec fn close_account_refusal(&self, link_badge: Tokens, user_id: LocalId) -> Option<
        PlatformError,
    > {
        None
    }

    open spec fn account_closed(&self, before: &Self, link_badge: Tokens, user_id: LocalId) -> bool {
        *self == *before
    }

    fn address(&self) -> (r: ComponentRef) {
        self.address
    }

    fn open_account(&mut self, link_badge: &NonFungibleProof, user_id: LocalId) -> (r: Result<
        (),
        PlatformError,
    >) {
        Ok(())
    }

    fn close_account(&mut self, link_badge: &NonFungibleProof, user_id: LocalId) -> (r: Result<
        (),
        PlatformError,
    >) {
        Ok(())
    }
}

/// Something that happens between a platform and one cluster it may link.
pub enum LinkEvent {
    /// A caller who presents `badges` asks the platform to link the
    /// cluster.
    Link { badges: Seq<ResourceRef>, blueprint_id: BlueprintRef },
    /// A caller who presents `badges` asks the platform to link some other
    /// cluster.
    LinkOther { badges: Seq<ResourceRef>, other: LinkState, blueprint_id: BlueprintRef },
    /// A caller who presents `badges` asks the platform to unlink the
    /// cluster at an address.
    Unlink { badges: Seq<ResourceRef>, cluster_address: ComponentRef },
    /// Someone hands the cluster a bucket as if it were a link badge.
    Offer { bucket: Tokens },
}

/// A platform together with the link side of one cluster.
pub struct Linkage {
    pub platform: PlatformView,
    pub cluster: LinkState,
}

impl PlatformView {
    /// Whether every linked cluster is recorded under its own address, so
    /// that no cluster has two records.
    pub open spec fn one_record_per_cluster(self) -> bool {
        forall|address: u64| #[trigger]
            self.linked_clusters.contains_key(address) ==> self.linked_clusters[address].cluster_address.0
                == address
    }

    /// Whether every link badge on record was minted by this platform and
    /// counted.
    pub open spec fn badges_are_own(self) -> bool {
        forall|id: u64| #[trigger]
            self.links.contains_key(id) ==> id < self.linked_count && self.links[id].issuing_platform
                == self.component_address
    }

    /// A new platform has no record and no badge.
    pub proof fn lemma_initial_is_consistent(
        owner_rule: AccessRule,
        component_address: ComponentRef,
        admin_badge: ResourceRef,
        user_badge: ResourceRef,
        link_badge: ResourceRef,
    )
        ensures
            Self::initial(
                owner_rule,
                component_address,
                admin_badge,
                user_badge,
                link_badge,
            ).one_record_per_cluster(),
            Self::initial(
                owner_rule,
                component_address,
                admin_badge,
                user_badge,
                link_badge,
            ).badges_are_own(),
    {
    }

    /// Whether every user's membership is in order: no cluster listed
    /// twice, and the count of open accounts equal to the number listed.
    pub open spec fn memberships_in_order(self) -> bool {
        forall|user: u64| #[trigger] self.users.contains_key(user) ==> self.users[user].consistent()
    }

    /// Minting a badge and opening and closing accounts keep every user's
    /// membership in order.
    pub proof fn lemma_memberships_stay_in_order(
        self,
        now: i64,
        link_resource: ResourceRef,
        link_ids: Seq<LocalId>,
        user_id: LocalId,
    )
        requires
            self.memberships_in_order(),
        ensures
            self.new_user_outcome(now) is Ok ==> self.new_user_outcome(
                now,
            ).unwrap().memberships_in_order(),
            self.open_account_outcome(link_resource, link_ids, user_id) is Ok
                ==> self.open_account_outcome(
                link_resource,
                link_ids,
                user_id,
            ).unwrap().memberships_in_order(),
            self.close_account_outcome(link_resource, link_ids, user_id) is Ok
                ==> self.close_account_outcome(
                link_resource,
                link_ids,
                user_id,
            ).unwrap().memberships_in_order(),
    {
        UserView::lemma_new_is_consistent(now);
        if self.open_account_outcome(link_resource, link_ids, user_id) is Ok {
            let wrapper = self.validate_link(link_resource, link_ids).unwrap();
            self.users[user_id.0].lemma_add_keeps_consistency(wrapper.cluster_address);
        }
        if self.close_account_outcome(link_resource, link_ids, user_id) is Ok {
            let wrapper = self.validate_link(link_resource, link_ids).unwrap();
            self.users[user_id.0].lemma_remove_keeps_consistency(wrapper.cluster_address);
        }
    }

    /// Once a cluster is unlinked, the badge that was minted for it is no
    /// longer honoured: the cluster can neither open nor close an account.
    pub proof fn lemma_unlinked_cluster_is_refused(
        self,
        cluster_address: ComponentRef,
        link_id: LocalId,
        user_id: LocalId,
    )
        requires
            self.links.contains_key(link_id.0),
            self.links[link_id.0].linked_cluster == cluster_address,
            self.unlink_outcome(cluster_address) is Ok,
        ensures
            self.unlink_outcome(cluster_address).unwrap().open_account_outcome(
                self.link_badge,
                seq![link_id],
                user_id,
            ) is Err,
            self.unlink_outcome(cluster_address).unwrap().close_account_outcome(
                self.link_badge,
                seq![link_id],
                user_id,
            ) is Err,
    {
    }

    /// Linking a cluster that is linked already is refused, whatever else
    /// holds.
    pub proof fn lemma_no_second_link(self, cluster: LinkState, blueprint_id: BlueprintRef)
        requires
            self.linked_clusters.contains_key(cluster.address.0),
        ensures
            self.link_outcome(cluster, blueprint_id) is Err,
    {
    }
}

impl Linkage {
    /// Whether the cluster holds at most one link badge and the platform
    /// has at most one record per cluster and only badges of its own.
    pub open spec fn consistent(self) -> bool {
        self.cluster.at_most_one_link() && self.platform.one_record_per_cluster()
            && self.platform.badges_are_own()
    }

    /// The pair after `event`. A refused call changes nothing, and a call
    /// by someone who may not manage links is refused.
    pub open spec fn after(self, event: LinkEvent) -> Linkage {
        match event {
            LinkEvent::Link { badges, blueprint_id } => if !self.platform.may_manage_links(badges) {
                self
            } else {
                match self.platform.link_outcome(self.cluster, blueprint_id) {
                    Ok(platform) => Linkage {
                        platform,
                        cluster: self.cluster.after(seq![self.platform.next_link_id()]),
                    },
                    Err(_) => self,
                }
            },
            LinkEvent::LinkOther { badges, other, blueprint_id } => if !self.platform.may_manage_links(
                badges,
            ) {
                self
            } else {
                match self.platform.link_outcome(other, blueprint_id) {
                    Ok(platform) => Linkage { platform, ..self },
                    Err(_) => self,
                }
            },
            LinkEvent::Unlink { badges, cluster_address } => if !self.platform.may_manage_links(
                badges,
            ) {
                self
            } else {
                match self.platform.unlink_outcome(cluster_address) {
                    Ok(platform) => Linkage { platform, ..self },
                    Err(_) => self,
                }
            },
            LinkEvent::Offer { bucket } => Linkage { cluster: self.cluster.offered(bucket), ..self },
        }
    }

    /// The pair after each of `events` in turn.
    pub open spec fn after_all(self, events: Seq<LinkEvent>) -> Linkage
        decreases events.len(),
    {
        if events.len() == 0 {
            self
        } else {
            self.after_all(events.drop_last()).after(events.last())
        }
    }

    /// One event keeps a consistent pair consistent.
    pub proof fn lemma_event_keeps_consistency(self, event: LinkEvent)
        requires
            self.consistent(),
        ensures
            self.after(event).consistent(),
    {
        match event {
            LinkEvent::Link { badges, blueprint_id } => {
                self.cluster.lemma_single_link(
                    self.platform.link_badge,
                    seq![self.platform.next_link_id()],
                );
            },
            LinkEvent::LinkOther { badges, other, blueprint_id } => {},
            LinkEvent::Unlink { badges, cluster_address } => {},
            LinkEvent::Offer { bucket } => {
                self.cluster.lemma_single_link(bucket.resource, bucket.ids);
            },
        }
    }

    /// The single-link invariant: through every sequence of link, unlink
    /// and hand-over calls, the cluster never holds more than one link
    /// badge and the platform never has two records of one cluster.
    pub proof fn lemma_single_link_invariant(self, events: Seq<LinkEvent>)
        requires
            self.consistent(),
        ensures
            self.after_all(events).consistent(),
        decreases events.len(),
    {
        if events.len() > 0 {
            self.lemma_single_link_invariant(events.drop_last());
            self.after_all(events.drop_last()).lemma_event_keeps_consistency(events.last());
        }
    }
}

} // verus!
