use lattic3::decimal::Decimal;
use lattic3::ledger::{ComponentRef, LocalId, NonFungibleProof, ResourceRef};
use lattic3::platform::platform::{AccountRegistry, Platform, PlatformError};
use lattic3::platform::services::cluster_services::ClusterService;
use lattic3::platform::services::platform_services::PlatformService;
use lattic3::shared::services::ServiceValue;

const OWNER_BADGE: ResourceRef = ResourceRef(1);
const ADMIN_BADGE: ResourceRef = ResourceRef(2);
const USER_BADGE: ResourceRef = ResourceRef(3);
const LINK_BADGE: ResourceRef = ResourceRef(4);
const PLATFORM: ComponentRef = ComponentRef(100);

/// What the owner presents.
fn owner() -> Vec<ResourceRef> {
    vec![OWNER_BADGE]
}

fn new_base() -> Platform {
    Platform::instantiate(OWNER_BADGE, PLATFORM, ADMIN_BADGE, USER_BADGE, LINK_BADGE).0
}

#[test]
fn test_platform_instantiates() {
    let (platform, badge) = Platform::instantiate(OWNER_BADGE, PLATFORM, ADMIN_BADGE, USER_BADGE, LINK_BADGE);

    assert_eq!(platform.component_address, PLATFORM);
    assert_eq!(badge.resource, OWNER_BADGE);
    assert_eq!(badge.amount, Decimal::one());
    assert_eq!(platform.admin_count, 0);
    assert_eq!(platform.user_count, 0);
    assert_eq!(platform.linked_count, 0);
    assert!(platform.users.is_empty());
    assert!(platform.links.is_empty());
    assert!(platform.linked_clusters.is_empty());
    assert_eq!(platform.get_user_badge_address(), USER_BADGE);
    assert_eq!(platform.get_link_badge_address(), LINK_BADGE);
    for service in [
        PlatformService::MintBadge,
        PlatformService::OpenAccount,
        PlatformService::CloseAccount,
        PlatformService::LinkCluster,
        PlatformService::UnlinkCluster,
    ] {
        assert_eq!(platform.services.get(service), ServiceValue { value: true, locked: false });
    }
}

#[test]
fn test_valid_mint_new_user_badge() {
    let mut platform = new_base();

    let alice_resources = platform.new_user(1_700_000_000).unwrap();

    assert_eq!(alice_resources.ids.len(), 1);
    assert_eq!(alice_resources.resource, USER_BADGE);
    assert_eq!(alice_resources.ids, vec![LocalId(0)]);
    assert_eq!(platform.user_count, 1);
    let user = platform.users.get(&0).unwrap();
    assert_eq!(user.minted_at, 1_700_000_000);
    assert_eq!(user.open, 0);
    assert!(user.accounts_in.is_empty());
}

#[test]
#[should_panic]
fn test_invalid_new_user_when_service_disabled() {
    let mut platform = new_base();

    platform.update_service(&owner(), PlatformService::MintBadge, false).expect("update_service");

    let alice_resources = platform.new_user(0).unwrap();

    assert_eq!(alice_resources.ids.len(), 1);
}

#[test]
fn badges_are_numbered_in_the_order_of_minting() {
    let mut platform = new_base();

    assert_eq!(platform.new_user(0).unwrap().ids, vec![LocalId(0)]);
    assert_eq!(platform.new_user(0).unwrap().ids, vec![LocalId(1)]);
    let admin = platform.new_admin_badge(&owner()).unwrap();
    assert_eq!(admin.resource, ADMIN_BADGE);
    assert_eq!(admin.ids, vec![LocalId(0)]);
    assert_eq!(platform.new_admin_badge(&owner()).unwrap().ids, vec![LocalId(1)]);
    assert_eq!(platform.user_count, 2);
    assert_eq!(platform.admin_count, 2);

    platform.update_service(&owner(), PlatformService::MintBadge, false).unwrap();
    assert_eq!(platform.new_user(0).unwrap_err(), PlatformError::ServiceDisabled(PlatformService::MintBadge));
    assert_eq!(platform.new_admin_badge(&owner()).unwrap_err(), PlatformError::ServiceDisabled(PlatformService::MintBadge));
    assert_eq!(platform.user_count, 2);
    assert_eq!(platform.admin_count, 2);
}

#[test]
fn counters_at_their_maximum_mint_nothing() {
    let mut platform = new_base();
    platform.user_count = u64::MAX;
    platform.admin_count = u64::MAX;

    assert_eq!(platform.new_user(0).unwrap_err(), PlatformError::CapacityExhausted);
    assert_eq!(platform.new_admin_badge(&owner()).unwrap_err(), PlatformError::CapacityExhausted);
    assert_eq!(platform.user_count, u64::MAX);
    assert!(platform.users.is_empty());
}

#[test]
fn a_locked_service_takes_privileged_updates_only() {
    let mut platform = new_base();

    assert_eq!(platform.update_service_and_set_lock(&owner(), PlatformService::LinkCluster, false, true), Ok(()));
    assert_eq!(platform.services.get(PlatformService::LinkCluster), ServiceValue { value: false, locked: true });
    assert_eq!(platform.update_service(&owner(), PlatformService::LinkCluster, true), Err(PlatformError::ServiceLocked));
    assert_eq!(platform.services.get(PlatformService::LinkCluster), ServiceValue { value: false, locked: true });
    // The other switches are not touched.
    assert_eq!(platform.services.get(PlatformService::UnlinkCluster), ServiceValue { value: true, locked: false });
    assert_eq!(platform.update_service_and_set_lock(&owner(), PlatformService::LinkCluster, true, false), Ok(()));
    assert_eq!(platform.update_service(&owner(), PlatformService::LinkCluster, false), Ok(()));
    assert_eq!(platform.services.get(PlatformService::LinkCluster), ServiceValue { value: false, locked: false });
}

#[test]
fn cluster_services_are_kept_per_linked_cluster() {
    let mut platform = new_base();

    assert_eq!(
        platform.update_cluster_service(&owner(), ComponentRef(101), ClusterService::OpenAccount, false),
        Err(PlatformError::ClusterNotLinked)
    );
    assert_eq!(
        platform.update_cluster_service_and_set_lock(&owner(), ComponentRef(101), ClusterService::OpenAccount, false, true),
        Err(PlatformError::ClusterNotLinked)
    );
}

#[test]
fn validating_badges() {
    let mut platform = new_base();
    platform.new_user(0).unwrap();

    assert_eq!(platform.__validate_user(&NonFungibleProof::single(USER_BADGE, LocalId(0))), Ok(LocalId(0)));
    assert_eq!(
        platform.__validate_user(&NonFungibleProof::single(LINK_BADGE, LocalId(0))),
        Err(PlatformError::InvalidUserBadge)
    );
    assert_eq!(
        platform.__validate_user(&NonFungibleProof::new(USER_BADGE, vec![])),
        Err(PlatformError::InvalidUserBadgeQuantity)
    );
    assert_eq!(
        platform.__validate_link(&NonFungibleProof::single(USER_BADGE, LocalId(0))),
        Err(PlatformError::InvalidLinkBadge)
    );
    assert_eq!(
        platform.__validate_link(&NonFungibleProof::new(LINK_BADGE, vec![LocalId(0), LocalId(1)])),
        Err(PlatformError::InvalidLinkBadgeQuantity)
    );
    assert_eq!(
        platform.__validate_link(&NonFungibleProof::single(LINK_BADGE, LocalId(0))),
        Err(PlatformError::UnknownLinkBadge)
    );
    assert_eq!(
        platform.open_account(&NonFungibleProof::single(LINK_BADGE, LocalId(0)), LocalId(0)),
        Err(PlatformError::UnknownLinkBadge)
    );
}
