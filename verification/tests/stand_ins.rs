use lattic3::ledger::AccessRule;
use lattic3::decimal::Decimal;
use lattic3::ledger::{BlueprintRef, ComponentRef, LocalId, NonFungibleBucket, NonFungibleProof, ResourceRef};
use lattic3::platform::platform::{AccountRegistry, Platform, PlatformError, UncheckedRegistry};
use lattic3::shared::links::{ClusterLink, LinkError, LinkReceiver};
use lattic3::yield_multiplier_weftv2::cluster::{ClusterError, YieldMultiplierWeftV2Cluster};
use lattic3::yield_multiplier_weftv2::weft::CDPData;
use scrypto::prelude::{index_map_new, index_set_new};

const OWNER_BADGE: ResourceRef = ResourceRef(1);
const ADMIN_BADGE: ResourceRef = ResourceRef(2);
const USER_BADGE: ResourceRef = ResourceRef(3);
const LINK_BADGE: ResourceRef = ResourceRef(4);
const PLATFORM: ComponentRef = ComponentRef(100);
const CLUSTER: ComponentRef = ComponentRef(101);
const CDP: ResourceRef = ResourceRef(20);

/// What the owner presents.
fn owner() -> Vec<ResourceRef> {
    vec![OWNER_BADGE]
}

#[test]
fn a_cluster_link_takes_one_badge() {
    let mut link = ClusterLink::new(CLUSTER, LINK_BADGE);
    assert_eq!(link.component_address(), CLUSTER);
    assert!(link.accepting);
    assert!(link.link.ids.is_empty());

    assert_eq!(link.handle_link(NonFungibleBucket::single(USER_BADGE, LocalId(0))), Err(LinkError::InvalidResource));
    assert_eq!(link.handle_link(NonFungibleBucket::new(LINK_BADGE, vec![])), Err(LinkError::InvalidAmount));
    assert_eq!(link.handle_link(NonFungibleBucket::single(LINK_BADGE, LocalId(4))), Ok(()));
    assert_eq!(link.link.ids, vec![LocalId(4)]);
    assert_eq!(link.handle_link(NonFungibleBucket::single(LINK_BADGE, LocalId(5))), Err(LinkError::AlreadyLinked));

    let mut closed = ClusterLink::new(CLUSTER, LINK_BADGE);
    closed.accepting = false;
    assert_eq!(closed.handle_link(NonFungibleBucket::single(LINK_BADGE, LocalId(4))), Err(LinkError::ServiceDisabled));
}

#[test]
fn the_platform_links_a_cluster_link() {
    let mut platform = Platform::instantiate_advanced(AccessRule::Require(OWNER_BADGE), PLATFORM, ADMIN_BADGE, USER_BADGE, LINK_BADGE);
    let mut first = ClusterLink::new(CLUSTER, LINK_BADGE);
    let mut second = ClusterLink::new(ComponentRef(102), LINK_BADGE);

    assert_eq!(platform.link_cluster(&owner(), &mut first, BlueprintRef(1)), Ok(()));
    assert_eq!(platform.link_cluster(&owner(), &mut second, BlueprintRef(1)), Ok(()));
    assert_eq!(first.link.ids, vec![LocalId(0)]);
    assert_eq!(second.link.ids, vec![LocalId(1)]);
    assert_eq!(platform.linked_count, 2);
    assert_eq!(platform.linked_clusters.len(), 2);
    assert_eq!(platform.link_cluster(&owner(), &mut first, BlueprintRef(1)), Err(PlatformError::ClusterAlreadyLinked));

    // Each cluster's badge is honoured for that cluster.
    platform.new_user(0).unwrap();
    assert_eq!(platform.open_account(&first.link.create_proof_of_all(), LocalId(0)), Ok(()));
    assert_eq!(platform.open_account(&second.link.create_proof_of_all(), LocalId(0)), Ok(()));
    let user = platform.users.get(&0).unwrap();
    assert!(user.has_account(CLUSTER));
    assert!(user.has_account(ComponentRef(102)));
    assert_eq!(user.open, 2);
}

#[test]
fn an_unchecked_registry_refuses_nothing() {
    let mut registry = UncheckedRegistry::new(PLATFORM);
    assert_eq!(registry.address(), PLATFORM);
    let badge = NonFungibleProof::single(LINK_BADGE, LocalId(0));
    assert_eq!(registry.open_account(&badge, LocalId(0)), Ok(()));
    assert_eq!(registry.open_account(&badge, LocalId(0)), Ok(()));
    assert_eq!(registry.close_account(&badge, LocalId(9)), Ok(()));
    assert_eq!(registry, UncheckedRegistry::new(PLATFORM));
}

#[test]
fn a_cluster_decides_for_itself_beside_an_unchecked_registry() {
    let empty = CDPData { loans: index_map_new(), collaterals: index_map_new(), nft_collaterals: index_set_new() };
    let mut cluster = YieldMultiplierWeftV2Cluster::instantiate(
        AccessRule::Require(OWNER_BADGE), AccessRule::Require(ADMIN_BADGE), CLUSTER,
        PLATFORM,
        LINK_BADGE,
        USER_BADGE,
        ResourceRef(10),
        ResourceRef(12),
        ComponentRef(102),
        CDP,
        ResourceRef(21),
        ResourceRef(13),
    );
    let mut registry = UncheckedRegistry::new(PLATFORM);
    let alice = NonFungibleProof::single(USER_BADGE, LocalId(0));

    assert_eq!(
        cluster.open_account(&mut registry, &alice, NonFungibleBucket::single(CDP, LocalId(1)), Some(&empty)),
        Err(ClusterError::NotLinked)
    );
    cluster.handle_link(NonFungibleBucket::single(LINK_BADGE, LocalId(0))).unwrap();
    assert_eq!(
        cluster.open_account(
            &mut UncheckedRegistry::new(ComponentRef(7)),
            &alice,
            NonFungibleBucket::single(CDP, LocalId(1)),
            Some(&empty)
        ),
        Err(ClusterError::WrongPlatform)
    );
    assert_eq!(
        cluster.open_account(&mut registry, &alice, NonFungibleBucket::single(CDP, LocalId(1)), Some(&empty)),
        Ok(())
    );
    assert_eq!(
        cluster.open_account(&mut registry, &alice, NonFungibleBucket::single(CDP, LocalId(2)), Some(&empty)),
        Err(ClusterError::AccountAlreadyOpen)
    );
    assert_eq!(cluster.close_account(&mut registry, &alice).unwrap().ids, vec![LocalId(1)]);
    assert_eq!(cluster.account_count, 0);
    assert_eq!(cluster.fee_vault.amount, Decimal::zero());
}
