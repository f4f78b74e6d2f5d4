use lattic3::decimal::Decimal;
use lattic3::ledger::{AccessRule, BlueprintRef, ComponentRef, ResourceRef};
use lattic3::platform::platform::{Platform, PlatformError};
use lattic3::platform::services::cluster_services::ClusterService as PlatformClusterService;
use lattic3::platform::services::platform_services::PlatformService;
use lattic3::shared::links::ClusterLink;
use lattic3::shared::services::ServiceValue;
use lattic3::yield_multiplier_weftv2::cluster::{ClusterError, YieldMultiplierWeftV2Cluster};
use lattic3::yield_multiplier_weftv2::fees::{FeeCurve, FeePoint};
use lattic3::yield_multiplier_weftv2::services::ClusterService;

const OWNER_BADGE: ResourceRef = ResourceRef(1);
const ADMIN_BADGE: ResourceRef = ResourceRef(2);
const USER_BADGE: ResourceRef = ResourceRef(3);
const LINK_BADGE: ResourceRef = ResourceRef(4);
const PLATFORM: ComponentRef = ComponentRef(100);
const CLUSTER: ComponentRef = ComponentRef(101);

fn owner() -> Vec<ResourceRef> {
    vec![USER_BADGE, OWNER_BADGE]
}

fn admin() -> Vec<ResourceRef> {
    vec![ADMIN_BADGE]
}

fn stranger() -> Vec<ResourceRef> {
    vec![USER_BADGE, LINK_BADGE]
}

#[test]
fn access_rules() {
    assert!(AccessRule::AllowAll.check(&vec![]));
    assert!(AccessRule::AllowAll.check(&stranger()));
    assert!(!AccessRule::DenyAll.check(&vec![]));
    assert!(!AccessRule::DenyAll.check(&owner()));
    assert!(AccessRule::Require(OWNER_BADGE).check(&owner()));
    assert!(AccessRule::Require(OWNER_BADGE).check(&vec![OWNER_BADGE]));
    assert!(!AccessRule::Require(OWNER_BADGE).check(&stranger()));
    assert!(!AccessRule::Require(OWNER_BADGE).check(&vec![]));
}

#[test]
fn only_the_owner_manages_links() {
    let mut platform = Platform::instantiate(OWNER_BADGE, PLATFORM, ADMIN_BADGE, USER_BADGE, LINK_BADGE).0;
    let mut cluster = ClusterLink::new(CLUSTER, LINK_BADGE);

    assert_eq!(platform.link_cluster(&stranger(), &mut cluster, BlueprintRef(1)), Err(PlatformError::AccessDenied));
    assert_eq!(platform.link_cluster(&admin(), &mut cluster, BlueprintRef(1)), Err(PlatformError::AccessDenied));
    assert_eq!(platform.linked_count, 0);
    assert!(cluster.link.ids.is_empty());
    assert_eq!(platform.link_cluster(&owner(), &mut cluster, BlueprintRef(1)), Ok(()));

    assert_eq!(platform.unlink_cluster(&stranger(), CLUSTER), Err(PlatformError::AccessDenied));
    assert_eq!(platform.unlink_cluster(&admin(), CLUSTER), Err(PlatformError::AccessDenied));
    assert_eq!(platform.linked_clusters.len(), 1);
    assert_eq!(platform.unlink_cluster(&owner(), CLUSTER), Ok(()));
}

#[test]
fn admins_switch_services_and_the_owner_locks_them() {
    let mut platform = Platform::instantiate(OWNER_BADGE, PLATFORM, ADMIN_BADGE, USER_BADGE, LINK_BADGE).0;
    let mut cluster = ClusterLink::new(CLUSTER, LINK_BADGE);
    platform.link_cluster(&owner(), &mut cluster, BlueprintRef(1)).unwrap();

    assert_eq!(platform.update_service(&stranger(), PlatformService::MintBadge, false), Err(PlatformError::AccessDenied));
    assert_eq!(platform.services.get(PlatformService::MintBadge), ServiceValue::yes());
    assert_eq!(platform.update_service(&admin(), PlatformService::MintBadge, false), Ok(()));
    assert_eq!(platform.update_service(&owner(), PlatformService::MintBadge, true), Ok(()));
    assert_eq!(
        platform.update_service_and_set_lock(&admin(), PlatformService::MintBadge, false, true),
        Err(PlatformError::AccessDenied)
    );
    assert_eq!(platform.update_service_and_set_lock(&owner(), PlatformService::MintBadge, false, true), Ok(()));
    // Access is decided before anything else.
    assert_eq!(platform.update_service(&stranger(), PlatformService::MintBadge, true), Err(PlatformError::AccessDenied));
    assert_eq!(platform.update_service(&admin(), PlatformService::MintBadge, true), Err(PlatformError::ServiceLocked));

    assert_eq!(
        platform.update_cluster_service(&stranger(), CLUSTER, PlatformClusterService::OpenAccount, false),
        Err(PlatformError::AccessDenied)
    );
    assert_eq!(platform.update_cluster_service(&admin(), CLUSTER, PlatformClusterService::OpenAccount, false), Ok(()));
    assert_eq!(
        platform.update_cluster_service_and_set_lock(&admin(), CLUSTER, PlatformClusterService::OpenAccount, true, true),
        Err(PlatformError::AccessDenied)
    );
    assert_eq!(
        platform.update_cluster_service_and_set_lock(&owner(), CLUSTER, PlatformClusterService::OpenAccount, true, true),
        Ok(())
    );
    let wrapper = platform.linked_clusters.get(&CLUSTER.0).unwrap();
    assert_eq!(wrapper.services.can_open_account, ServiceValue { value: true, locked: true });
    assert_eq!(wrapper.services.can_close_account, ServiceValue::yes());
    assert_eq!(
        platform.update_cluster_service(&admin(), CLUSTER, PlatformClusterService::OpenAccount, false),
        Err(PlatformError::ServiceLocked)
    );

    assert_eq!(platform.new_admin_badge(&admin()).unwrap_err(), PlatformError::AccessDenied);
    assert_eq!(platform.new_admin_badge(&stranger()).unwrap_err(), PlatformError::AccessDenied);
    assert_eq!(platform.admin_count, 0);
    // The owner is admitted and then meets the switch, which is off.
    assert_eq!(
        platform.new_admin_badge(&owner()).unwrap_err(),
        PlatformError::ServiceDisabled(PlatformService::MintBadge)
    );
    platform.update_service_and_set_lock(&owner(), PlatformService::MintBadge, true, false).unwrap();
    assert!(platform.new_admin_badge(&owner()).is_ok());
    assert_eq!(platform.admin_count, 1);
    // Minting user badges is open to everyone.
    assert!(platform.new_user(0).is_ok());
}

#[test]
fn the_cluster_guards_its_services_and_fees() {
    let mut cluster = YieldMultiplierWeftV2Cluster::instantiate(
        AccessRule::Require(OWNER_BADGE),
        AccessRule::Require(ADMIN_BADGE),
        CLUSTER,
        PLATFORM,
        LINK_BADGE,
        USER_BADGE,
        ResourceRef(10),
        ResourceRef(12),
        ComponentRef(102),
        ResourceRef(20),
        ResourceRef(21),
        ResourceRef(13),
    );
    let points = || {
        vec![
            FeePoint { x: Decimal::zero(), y: Decimal::zero() },
            FeePoint { x: Decimal::from_units(1), y: Decimal::from_units(1) },
        ]
    };

    assert_eq!(cluster.update_service(&stranger(), ClusterService::Execute, false), Err(ClusterError::AccessDenied));
    assert!(cluster.services.get(ClusterService::Execute));
    assert_eq!(cluster.update_service(&admin(), ClusterService::Execute, false), Ok(()));
    assert_eq!(
        cluster.update_service_and_set_lock(&admin(), ClusterService::Execute, true, true),
        Err(ClusterError::AccessDenied)
    );
    assert_eq!(cluster.update_service_and_set_lock(&owner(), ClusterService::Execute, true, true), Ok(()));
    assert_eq!(cluster.update_service(&owner(), ClusterService::Execute, false), Err(ClusterError::ServiceLocked));

    assert_eq!(cluster.set_fee_structure(&admin(), Some(Decimal::zero()), None, None), Err(ClusterError::AccessDenied));
    assert_eq!(cluster.fee_structure.open, Decimal::from_units(16));
    assert_eq!(cluster.set_fee_structure(&owner(), Some(Decimal::zero()), None, None), Ok(()));
    assert_eq!(cluster.fee_structure.open, Decimal::zero());
    assert_eq!(cluster.fee_structure.close, Decimal::from_units(4));

    assert_eq!(cluster.set_fee_curve(&admin(), points()), Err(ClusterError::AccessDenied));
    assert_eq!(cluster.fee_curve.points(), FeeCurve::default().points());
    assert_eq!(cluster.set_fee_curve(&owner(), points()), Ok(()));
    assert_eq!(cluster.fee_curve.points(), &points());

    assert_eq!(cluster.collect_fees(&stranger()).unwrap_err(), ClusterError::AccessDenied);
    assert_eq!(cluster.collect_fees(&admin()).unwrap_err(), ClusterError::AccessDenied);
    assert_eq!(cluster.collect_fees(&owner()).unwrap().amount, Decimal::zero());
}

#[test]
fn a_platform_open_to_all() {
    let mut platform = Platform::instantiate_advanced(AccessRule::AllowAll, PLATFORM, ADMIN_BADGE, USER_BADGE, LINK_BADGE);
    let mut cluster = ClusterLink::new(CLUSTER, LINK_BADGE);
    assert_eq!(platform.link_cluster(&vec![], &mut cluster, BlueprintRef(1)), Ok(()));

    let mut closed = Platform::instantiate_advanced(AccessRule::DenyAll, PLATFORM, ADMIN_BADGE, USER_BADGE, LINK_BADGE);
    let mut cluster = ClusterLink::new(CLUSTER, LINK_BADGE);
    assert_eq!(closed.link_cluster(&owner(), &mut cluster, BlueprintRef(1)), Err(PlatformError::AccessDenied));
    // Admins still switch services.
    assert_eq!(closed.update_service(&admin(), PlatformService::LinkCluster, false), Ok(()));
}
