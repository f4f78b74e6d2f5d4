use lattic3::ledger::AccessRule;
use lattic3::ledger::{BlueprintRef, ComponentRef, LocalId, NonFungibleBucket, ResourceRef};
use lattic3::platform::platform::{Platform, PlatformError};
use lattic3::platform::services::platform_services::PlatformService;
use lattic3::shared::links::{Link, LinkError, LinkReceiver};
use lattic3::yield_multiplier_weftv2::cluster::YieldMultiplierWeftV2Cluster;
use lattic3::yield_multiplier_weftv2::services::ClusterService as YMWeftV2ClusterService;

const OWNER_BADGE: ResourceRef = ResourceRef(1);
const ADMIN_BADGE: ResourceRef = ResourceRef(2);
const USER_BADGE: ResourceRef = ResourceRef(3);
const LINK_BADGE: ResourceRef = ResourceRef(4);
const USDT: ResourceRef = ResourceRef(10);
const XWBTC: ResourceRef = ResourceRef(12);
const XRD: ResourceRef = ResourceRef(13);
const CDP: ResourceRef = ResourceRef(20);
const EXECUTION_TERMS: ResourceRef = ResourceRef(21);
const PLATFORM: ComponentRef = ComponentRef(100);
const CLUSTER: ComponentRef = ComponentRef(101);
const WEFT_MARKET: ComponentRef = ComponentRef(102);
const CLUSTER_BLUEPRINT: BlueprintRef = BlueprintRef(7);

/// What the owner presents.
fn owner() -> Vec<ResourceRef> {
    vec![OWNER_BADGE]
}

fn new_base() -> Platform {
    Platform::instantiate(OWNER_BADGE, PLATFORM, ADMIN_BADGE, USER_BADGE, LINK_BADGE).0
}

fn instantiate_cluster(platform: &Platform) -> YieldMultiplierWeftV2Cluster {
    YieldMultiplierWeftV2Cluster::instantiate(
        AccessRule::Require(OWNER_BADGE), AccessRule::Require(ADMIN_BADGE), CLUSTER,
        platform.component_address,
        platform.get_link_badge_address(),
        platform.get_user_badge_address(),
        USDT,
        XWBTC,
        WEFT_MARKET,
        CDP,
        EXECUTION_TERMS,
        XRD,
    )
}

#[test]
fn test_valid_link_and_unlink() {
    let mut platform = new_base();
    let mut cluster = instantiate_cluster(&platform);

    platform.link_cluster(&owner(), &mut cluster, CLUSTER_BLUEPRINT).unwrap();
    assert_eq!(cluster.link.ids, vec![LocalId(0)]);
    assert_eq!(platform.linked_count, 1);
    assert_eq!(platform.links.get(&0), Some(&Link::new(PLATFORM, CLUSTER)));
    let wrapper = platform.linked_clusters.get(&CLUSTER.0).unwrap();
    assert_eq!(wrapper.cluster_address, CLUSTER);
    assert_eq!(wrapper.blueprint_id, CLUSTER_BLUEPRINT);
    assert_eq!(wrapper.link_id, LocalId(0));

    platform.unlink_cluster(&owner(), CLUSTER).unwrap();
    assert!(platform.linked_clusters.is_empty());
    // The badge is not recalled.
    assert_eq!(cluster.link.ids, vec![LocalId(0)]);
}

#[test]
#[should_panic]
fn test_invalid_double_link() {
    let mut platform = new_base();
    let mut cluster = instantiate_cluster(&platform);

    platform.link_cluster(&owner(), &mut cluster, CLUSTER_BLUEPRINT).expect("first link");

    platform.link_cluster(&owner(), &mut cluster, CLUSTER_BLUEPRINT).unwrap();
}

#[test]
#[should_panic]
fn test_invalid_link_from_other() {
    let platform = new_base();
    let mut cluster = instantiate_cluster(&platform);

    let mut other_platform =
        Platform::instantiate(OWNER_BADGE, ComponentRef(200), ResourceRef(32), ResourceRef(33), ResourceRef(34)).0;

    other_platform.link_cluster(&owner(), &mut cluster, CLUSTER_BLUEPRINT).unwrap();
}

#[test]
#[should_panic]
fn test_invalid_link_when_platform_service_disabled() {
    let mut platform = new_base();
    let mut cluster = instantiate_cluster(&platform);

    platform.update_service(&owner(), PlatformService::LinkCluster, false).expect("update_service");

    platform.link_cluster(&owner(), &mut cluster, CLUSTER_BLUEPRINT).unwrap();
}

#[test]
#[should_panic]
fn test_invalid_unlink_when_platform_service_disabled() {
    let mut platform = new_base();
    let mut cluster = instantiate_cluster(&platform);
    platform.link_cluster(&owner(), &mut cluster, CLUSTER_BLUEPRINT).expect("link");

    platform.update_service(&owner(), PlatformService::UnlinkCluster, false).expect("update_service");

    platform.unlink_cluster(&owner(), CLUSTER).unwrap();
}

#[test]
#[should_panic]
fn test_invalid_link_when_cluster_service_disabled() {
    let mut platform = new_base();
    let mut cluster = instantiate_cluster(&platform);

    cluster.update_service(&owner(), YMWeftV2ClusterService::Link, false).expect("update_service");

    platform.link_cluster(&owner(), &mut cluster, CLUSTER_BLUEPRINT).unwrap();
}

#[test]
fn link_names_the_reason_of_each_refusal_and_changes_nothing() {
    let mut platform = new_base();
    let mut cluster = instantiate_cluster(&platform);

    platform.update_service(&owner(), PlatformService::LinkCluster, false).unwrap();
    assert_eq!(
        platform.link_cluster(&owner(), &mut cluster, CLUSTER_BLUEPRINT),
        Err(PlatformError::ServiceDisabled(PlatformService::LinkCluster))
    );
    platform.update_service(&owner(), PlatformService::LinkCluster, true).unwrap();

    cluster.update_service(&owner(), YMWeftV2ClusterService::Link, false).unwrap();
    assert_eq!(
        platform.link_cluster(&owner(), &mut cluster, CLUSTER_BLUEPRINT),
        Err(PlatformError::LinkRejected(LinkError::ServiceDisabled))
    );
    // The cluster refused: no badge was minted, nothing recorded.
    assert_eq!(platform.linked_count, 0);
    assert!(platform.links.is_empty());
    assert!(platform.linked_clusters.is_empty());
    assert!(cluster.link.ids.is_empty());
    cluster.update_service(&owner(), YMWeftV2ClusterService::Link, true).unwrap();

    let mut other_platform =
        Platform::instantiate_advanced(AccessRule::Require(OWNER_BADGE), ComponentRef(200), ResourceRef(32), ResourceRef(33), ResourceRef(34));
    assert_eq!(
        other_platform.link_cluster(&owner(), &mut cluster, CLUSTER_BLUEPRINT),
        Err(PlatformError::LinkRejected(LinkError::InvalidResource))
    );
    assert_eq!(other_platform.linked_count, 0);

    assert_eq!(platform.link_cluster(&owner(), &mut cluster, CLUSTER_BLUEPRINT), Ok(()));
    assert_eq!(platform.link_cluster(&owner(), &mut cluster, CLUSTER_BLUEPRINT), Err(PlatformError::ClusterAlreadyLinked));
    assert_eq!(platform.linked_count, 1);

    assert_eq!(platform.unlink_cluster(&owner(), ComponentRef(555)), Err(PlatformError::ClusterNotLinked));
    assert_eq!(platform.unlink_cluster(&owner(), CLUSTER), Ok(()));
    assert_eq!(platform.unlink_cluster(&owner(), CLUSTER), Err(PlatformError::ClusterNotLinked));
    // The cluster still holds its badge and takes no second one.
    assert_eq!(
        platform.link_cluster(&owner(), &mut cluster, CLUSTER_BLUEPRINT),
        Err(PlatformError::LinkRejected(LinkError::AlreadyLinked))
    );
    assert_eq!(platform.linked_count, 1);
    assert_eq!(cluster.link.ids.len(), 1);
}

#[test]
fn a_cluster_never_holds_two_link_badges() {
    let platform = new_base();
    let mut cluster = instantiate_cluster(&platform);

    assert_eq!(
        cluster.handle_link(NonFungibleBucket::new(LINK_BADGE, vec![LocalId(0), LocalId(1)])),
        Err(LinkError::InvalidAmount)
    );
    assert_eq!(cluster.handle_link(NonFungibleBucket::new(LINK_BADGE, vec![])), Err(LinkError::InvalidAmount));
    assert_eq!(cluster.handle_link(NonFungibleBucket::single(USER_BADGE, LocalId(0))), Err(LinkError::InvalidResource));
    assert_eq!(cluster.link.ids.len(), 0);
    assert_eq!(cluster.handle_link(NonFungibleBucket::single(LINK_BADGE, LocalId(0))), Ok(()));
    assert_eq!(cluster.handle_link(NonFungibleBucket::single(LINK_BADGE, LocalId(1))), Err(LinkError::AlreadyLinked));
    assert_eq!(cluster.link.ids, vec![LocalId(0)]);
    assert_eq!(cluster.component_address(), CLUSTER);
}
