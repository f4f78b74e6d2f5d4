use lattic3::ledger::AccessRule;
use lattic3::decimal::Decimal;
use lattic3::ledger::{BlueprintRef, ComponentRef, LocalId, NonFungibleBucket, NonFungibleProof, ResourceRef};
use lattic3::platform::platform::Platform;
use lattic3::yield_multiplier_weftv2::cluster::{ClusterError, YieldMultiplierWeftV2Cluster};
use lattic3::yield_multiplier_weftv2::info::{AccountInfo, ClusterInfo, FeeInfo};
use lattic3::yield_multiplier_weftv2::weft::{CDPData, CDPHealthChecker};
use scrypto::prelude::{index_map_new, index_set_new};

const OWNER_BADGE: ResourceRef = ResourceRef(1);
const ADMIN_BADGE: ResourceRef = ResourceRef(2);
const USER_BADGE: ResourceRef = ResourceRef(3);
const LINK_BADGE: ResourceRef = ResourceRef(4);
const USDT: ResourceRef = ResourceRef(10);
const XWBTC: ResourceRef = ResourceRef(12);
const XRD: ResourceRef = ResourceRef(13);
const CDP: ResourceRef = ResourceRef(20);
const EXECUTION_TERMS: ResourceRef = ResourceRef(21);
const PLATFORM: ComponentRef = ComponentRef(100);
const CLUSTER: ComponentRef = ComponentRef(101);
const WEFT_MARKET: ComponentRef = ComponentRef(102);
const CLUSTER_BLUEPRINT: BlueprintRef = BlueprintRef(7);

/// What the owner presents.
fn owner() -> Vec<ResourceRef> {
    vec![OWNER_BADGE]
}

fn new_base() -> Platform {
    Platform::instantiate(OWNER_BADGE, PLATFORM, ADMIN_BADGE, USER_BADGE, LINK_BADGE).0
}

fn instantiate_cluster(platform: &Platform) -> YieldMultiplierWeftV2Cluster {
    YieldMultiplierWeftV2Cluster::instantiate(
        AccessRule::Require(OWNER_BADGE), AccessRule::Require(ADMIN_BADGE), CLUSTER,
        platform.component_address,
        platform.get_link_badge_address(),
        platform.get_user_badge_address(),
        USDT,
        XWBTC,
        WEFT_MARKET,
        CDP,
        EXECUTION_TERMS,
        XRD,
    )
}

fn expected_info(linked: bool, account_count: u64) -> ClusterInfo {
    ClusterInfo {
        platform_address: PLATFORM,
        cluster_address: CLUSTER,
        linked,
        supply_res: USDT,
        debt_res: XWBTC,
        account_count,
        execution_term_manager: EXECUTION_TERMS,
        fee_info: FeeInfo {
            open: Decimal::from_units(16),
            close: Decimal::from_units(4),
            execute: Decimal::from_units(4),
        },
    }
}

#[test]
fn test_valid_get_cluster_info() {
    let mut platform = new_base();
    let mut cluster = instantiate_cluster(&platform);

    platform.link_cluster(&owner(), &mut cluster, CLUSTER_BLUEPRINT).unwrap();

    assert_eq!(cluster.get_cluster_info(), expected_info(true, 0));
}

#[test]
fn test_valid_get_cluster_info_unlinked() {
    let platform = new_base();
    let cluster = instantiate_cluster(&platform);

    assert_eq!(cluster.get_cluster_info(), expected_info(false, 0));
}

#[test]
fn test_a() {
    let mut platform = new_base();
    let mut cluster = instantiate_cluster(&platform);

    platform.link_cluster(&owner(), &mut cluster, CLUSTER_BLUEPRINT).unwrap();
}

fn open_empty_account(platform: &mut Platform, cluster: &mut YieldMultiplierWeftV2Cluster) {
    let data = CDPData { loans: index_map_new(), collaterals: index_map_new(), nft_collaterals: index_set_new() };
    cluster
        .open_account(
            platform,
            &NonFungibleProof::single(USER_BADGE, LocalId(0)),
            NonFungibleBucket::single(CDP, LocalId(3)),
            Some(&data),
        )
        .unwrap();
}

fn health() -> CDPHealthChecker {
    let mut loan_positions = index_map_new();
    loan_positions.insert(XWBTC.0, Decimal::from_units(2));
    loan_positions.insert(USDT.0, Decimal::from_units(9));
    let mut collateral_positions = index_map_new();
    collateral_positions.insert(USDT.0, Decimal::from_units(1000));
    CDPHealthChecker {
        total_loan_value: Decimal::from_units(177_901),
        total_collateral_value: Decimal::from_units(1000),
        liquidation_ltv: Decimal::from_attos(750_000_000_000_000_000),
        loan_positions,
        collateral_positions,
    }
}

#[test]
fn test_valid_get_account_info() {
    let mut platform = new_base();
    let mut cluster = instantiate_cluster(&platform);
    platform.link_cluster(&owner(), &mut cluster, CLUSTER_BLUEPRINT).unwrap();
    platform.new_user(0).unwrap();
    open_empty_account(&mut platform, &mut cluster);

    let info = cluster.get_account_info(LocalId(0), Some(&health())).unwrap();

    assert_eq!(
        info,
        AccountInfo {
            cdp_id: LocalId(3),
            supply: Decimal::from_units(1000),
            supply_value: Decimal::from_units(1000),
            debt: Decimal::from_units(2),
            debt_value: Decimal::from_units(177_901),
            health: Decimal::from_attos(750_000_000_000_000_000),
        }
    );
}

#[test]
#[should_panic]
fn test_invalid_get_account_info_without_account() {
    let mut platform = new_base();
    let mut cluster = instantiate_cluster(&platform);
    platform.link_cluster(&owner(), &mut cluster, CLUSTER_BLUEPRINT).unwrap();
    platform.new_user(0).unwrap();

    cluster.get_account_info(LocalId(0), Some(&health())).unwrap();
}

#[test]
fn account_info_needs_an_account_and_the_market() {
    let mut platform = new_base();
    let mut cluster = instantiate_cluster(&platform);
    platform.link_cluster(&owner(), &mut cluster, CLUSTER_BLUEPRINT).unwrap();
    platform.new_user(0).unwrap();

    assert_eq!(cluster.get_account_info(LocalId(0), Some(&health())), Err(ClusterError::NoOpenAccount));
    open_empty_account(&mut platform, &mut cluster);
    assert_eq!(cluster.get_account_info(LocalId(0), None), Err(ClusterError::VenueUnavailable));
    assert_eq!(cluster.get_account_info(LocalId(1), Some(&health())), Err(ClusterError::NoOpenAccount));

    // A position without the pair's assets reports zero amounts.
    let empty = CDPHealthChecker {
        total_loan_value: Decimal::zero(),
        total_collateral_value: Decimal::zero(),
        liquidation_ltv: Decimal::zero(),
        loan_positions: index_map_new(),
        collateral_positions: index_map_new(),
    };
    let info = cluster.get_account_info(LocalId(0), Some(&empty)).unwrap();
    assert_eq!(info.supply, Decimal::zero());
    assert_eq!(info.debt, Decimal::zero());
    assert_eq!(cluster.get_cluster_info(), expected_info(true, 1));
}

#[test]
fn test_platform_with_weft_instantiates() {
    let platform = new_base();

    let cluster = instantiate_cluster(&platform);

    assert_eq!(cluster.platform_address, PLATFORM);
    assert_eq!(cluster.weft_market_address, WEFT_MARKET);
    assert_eq!(cluster.cdp_manager, CDP);
    assert_eq!(cluster.link.resource, LINK_BADGE);
    assert_eq!(cluster.user_resource, USER_BADGE);
    assert_eq!(cluster.fee_vault.resource, XRD);
    assert_eq!(cluster.execution_count, 0);
}
