use lattic3::ledger::AccessRule;
use lattic3::decimal::{Decimal, PreciseDecimal};
use lattic3::ledger::{
    BlueprintRef, ComponentRef, FungibleBucket, LocalId, NonFungibleBucket, NonFungibleProof, ResourceRef,
};
use lattic3::platform::platform::Platform;
use lattic3::shared::links::{LinkError, LinkReceiver};
use lattic3::yield_multiplier_root::accounts::AccountData;
use lattic3::yield_multiplier_root::cluster::YieldMultiplierRootCluster;
use lattic3::yield_multiplier_root::info::{AccountInfo, ClusterInfo, FeeInfo};
use lattic3::yield_multiplier_root::root::{
    check_cdp, read_metrics, validate_cdp, CDPType, CollaterizedDebtPositionData, PriceInfo,
};
use lattic3::yield_multiplier_root::services::{ClusterService, ClusterServiceManager};
use lattic3::yield_multiplier_weftv2::cluster::ClusterError;
use lattic3::yield_multiplier_weftv2::execution::SessionError;
use lattic3::yield_multiplier_weftv2::weft::{PositionMetrics, Violation};
use lattic3::ledger::NonFungibleVault;
use scrypto::prelude::{index_map_new, CheckedAdd, CheckedDiv};

const OWNER_BADGE: ResourceRef = ResourceRef(1);
const ADMIN_BADGE: ResourceRef = ResourceRef(2);
const USER_BADGE: ResourceRef = ResourceRef(3);
const LINK_BADGE: ResourceRef = ResourceRef(4);
const SUPPLY: ResourceRef = ResourceRef(10);
const OTHER: ResourceRef = ResourceRef(11);
const DEBT: ResourceRef = ResourceRef(12);
const XRD: ResourceRef = ResourceRef(13);
const CDP: ResourceRef = ResourceRef(20);
const EXECUTION_TERMS: ResourceRef = ResourceRef(21);
const PLATFORM: ComponentRef = ComponentRef(100);
const CLUSTER: ComponentRef = ComponentRef(101);

/// What the owner presents.
fn owner() -> Vec<ResourceRef> {
    vec![OWNER_BADGE]
}

/// The market's number for whole `units`.
fn precise(units: u64) -> PreciseDecimal {
    let digits = scrypto::prelude::PreciseDecimal::from(units).precise_subunits().to_digits();
    PreciseDecimal::from_digits(digits[0], digits[1], digits[2], digits[3])
}

/// The greatest number the market can keep: beyond what the ledger's
/// shorter format holds.
fn too_large() -> PreciseDecimal {
    PreciseDecimal::from_digits(u64::MAX, u64::MAX, u64::MAX, u64::MAX >> 1)
}

fn position(loans: &[(ResourceRef, u64)], collaterals: &[(ResourceRef, u64)]) -> CollaterizedDebtPositionData {
    let mut loan_map = index_map_new();
    for (resource, units) in loans {
        loan_map.insert(resource.0, precise(*units));
    }
    let mut collateral_map = index_map_new();
    for (resource, units) in collaterals {
        collateral_map.insert(resource.0, precise(*units));
    }
    CollaterizedDebtPositionData {
        cdp_type: CDPType::Standard,
        collaterals: collateral_map,
        loans: loan_map,
        liquidable: None,
    }
}

fn linked() -> (Platform, YieldMultiplierRootCluster) {
    let mut platform = Platform::instantiate_advanced(AccessRule::Require(OWNER_BADGE), PLATFORM, ADMIN_BADGE, USER_BADGE, LINK_BADGE);
    let mut cluster =
        YieldMultiplierRootCluster::instantiate(
            AccessRule::Require(OWNER_BADGE), AccessRule::Require(ADMIN_BADGE), CLUSTER,
            PLATFORM,
            LINK_BADGE,
            USER_BADGE,
            SUPPLY,
            DEBT,
            CDP,
            EXECUTION_TERMS,
            XRD,
        );
    platform.link_cluster(&owner(), &mut cluster, BlueprintRef(8)).unwrap();
    platform.new_user(0).unwrap();
    (platform, cluster)
}

fn alice_badge() -> NonFungibleProof {
    NonFungibleProof::single(USER_BADGE, LocalId(0))
}

#[test]
fn root_positions_are_validated_against_the_pair() {
    assert!(validate_cdp(Some(&position(&[], &[])), SUPPLY, DEBT));
    assert!(validate_cdp(Some(&position(&[(DEBT, 1)], &[(SUPPLY, 2)])), SUPPLY, DEBT));
    assert!(!validate_cdp(None, SUPPLY, DEBT));
    assert_eq!(check_cdp(None, SUPPLY, DEBT), Some(Violation::Unresolvable));
    assert_eq!(
        check_cdp(Some(&position(&[], &[(SUPPLY, 1), (OTHER, 1)])), SUPPLY, DEBT),
        Some(Violation::TooManyCollaterals)
    );
    assert_eq!(
        check_cdp(Some(&position(&[(DEBT, 1), (OTHER, 1)], &[])), SUPPLY, DEBT),
        Some(Violation::TooManyLoans)
    );
    assert_eq!(
        check_cdp(Some(&position(&[], &[(OTHER, 1)])), SUPPLY, DEBT),
        Some(Violation::InvalidCollateralAsset)
    );
    assert_eq!(check_cdp(Some(&position(&[(OTHER, 1)], &[])), SUPPLY, DEBT), Some(Violation::InvalidDebtAsset));
    assert_eq!(
        read_metrics(&position(&[(DEBT, 3)], &[(SUPPLY, 7)]), SUPPLY, DEBT),
        Some(PositionMetrics { supply: Decimal::from_units(7), debt: Decimal::from_units(3) })
    );
    assert_eq!(
        read_metrics(&position(&[], &[]), SUPPLY, DEBT),
        Some(PositionMetrics { supply: Decimal::zero(), debt: Decimal::zero() })
    );
}

#[test]
fn root_amounts_are_cut_off_when_read_and_only_then() {
    // 7.5 and nineteen more places: cut off after the eighteenth.
    let mut fine = position(&[], &[]);
    let seven_and_a_bit = scrypto::prelude::PreciseDecimal::from(15u64)
        .checked_div(scrypto::prelude::PreciseDecimal::from(2u64))
        .unwrap()
        .checked_add(scrypto::prelude::PreciseDecimal::ONE_PRECISE_SUBUNIT)
        .unwrap();
    let digits = seven_and_a_bit.precise_subunits().to_digits();
    fine.collaterals.insert(SUPPLY.0, PreciseDecimal::from_digits(digits[0], digits[1], digits[2], digits[3]));
    assert_eq!(
        read_metrics(&fine, SUPPLY, DEBT),
        Some(PositionMetrics { supply: Decimal::from_attos(7_500_000_000_000_000_000), debt: Decimal::zero() })
    );

    // An amount of the pair beyond the shorter format: validation does not
    // read it, reading it reports the overflow.
    let mut huge = position(&[], &[]);
    huge.collaterals.insert(SUPPLY.0, too_large());
    assert!(validate_cdp(Some(&huge), SUPPLY, DEBT));
    assert_eq!(check_cdp(Some(&huge), SUPPLY, DEBT), None);
    assert_eq!(read_metrics(&huge, SUPPLY, DEBT), None);
    // An amount outside the pair is never read.
    let mut elsewhere = position(&[], &[(SUPPLY, 5)]);
    elsewhere.loans.insert(OTHER.0, too_large());
    assert_eq!(
        read_metrics(&elsewhere, SUPPLY, DEBT),
        Some(PositionMetrics { supply: Decimal::from_units(5), debt: Decimal::zero() })
    );

    let (mut platform, mut cluster) = linked();
    assert_eq!(
        cluster.open_account(&mut platform, &alice_badge(), NonFungibleBucket::single(CDP, LocalId(5)), Some(&huge)),
        Ok(())
    );
    assert_eq!(
        cluster.get_account_info(LocalId(0), Some(&huge)),
        Err(ClusterError::Session(SessionError::Overflow))
    );
    assert_eq!(
        cluster.start_execution(&alice_badge(), Some(&huge)).unwrap_err(),
        ClusterError::Session(SessionError::Overflow)
    );
    assert!(cluster.has_open_account(LocalId(0)));
    let empty = position(&[], &[]);
    let (cdp_bucket, terms_bucket) = cluster.start_execution(&alice_badge(), Some(&empty)).unwrap();
    assert!(!cluster.session_needs_prices(&terms_bucket, Some(&huge)));
    assert_eq!(
        cluster.end_execution(
            NonFungibleBucket::single(CDP, LocalId(6)),
            NonFungibleBucket::single(EXECUTION_TERMS, LocalId(0)),
            FungibleBucket::new(XRD, Decimal::zero()),
            Some(&huge),
            None
        ),
        Err(ClusterError::PositionMismatch)
    );
    assert_eq!(
        cluster.end_execution(
            NonFungibleBucket::single(CDP, LocalId(5)),
            NonFungibleBucket::single(EXECUTION_TERMS, LocalId(0)),
            FungibleBucket::new(XRD, Decimal::zero()),
            Some(&huge),
            None
        ),
        Err(ClusterError::Session(SessionError::Overflow))
    );
    assert_eq!(cluster.execution_terms.len(), 1);
    assert!(cluster.end_execution(cdp_bucket, terms_bucket, FungibleBucket::new(XRD, Decimal::zero()), Some(&empty), None).is_ok());
}

#[test]
fn root_cluster_starts_unlinked_with_default_fees() {
    let platform = Platform::instantiate_advanced(AccessRule::Require(OWNER_BADGE), PLATFORM, ADMIN_BADGE, USER_BADGE, LINK_BADGE);
    let cluster =
        YieldMultiplierRootCluster::instantiate(
            AccessRule::Require(OWNER_BADGE), AccessRule::Require(ADMIN_BADGE), CLUSTER,
            PLATFORM,
            LINK_BADGE,
            USER_BADGE,
            SUPPLY,
            DEBT,
            CDP,
            EXECUTION_TERMS,
            XRD,
        );

    assert_eq!(
        cluster.get_cluster_info(),
        ClusterInfo {
            platform_address: PLATFORM,
            cluster_address: CLUSTER,
            linked: false,
            supply_res: SUPPLY,
            debt_res: DEBT,
            account_count: 0,
            execution_term_manager: EXECUTION_TERMS,
            fee_info: FeeInfo {
                open: Decimal::from_units(16),
                close: Decimal::from_units(4),
                execute: Decimal::from_units(4),
            },
        }
    );
    assert_eq!(cluster.component_address(), CLUSTER);
    assert_eq!(cluster.services, ClusterServiceManager::new());
    assert_eq!(cluster.link.resource, LINK_BADGE);
    assert_eq!(cluster.user_resource, USER_BADGE);
}

#[test]
fn root_account_lifecycle() {
    let (mut platform, mut cluster) = linked();
    let data = position(&[(DEBT, 3)], &[(SUPPLY, 7)]);

    assert_eq!(
        cluster.open_account(
            &mut platform,
            &alice_badge(),
            NonFungibleBucket::single(CDP, LocalId(5)),
            Some(&position(&[(OTHER, 3)], &[]))
        ),
        Err(ClusterError::InvalidCdp(Violation::InvalidDebtAsset))
    );
    assert_eq!(
        cluster.open_account(&mut platform, &alice_badge(), NonFungibleBucket::single(CDP, LocalId(5)), Some(&data)),
        Ok(())
    );
    assert_eq!(cluster.account_count, 1);
    assert_eq!(
        cluster.open_account(&mut platform, &alice_badge(), NonFungibleBucket::single(CDP, LocalId(6)), Some(&data)),
        Err(ClusterError::AccountAlreadyOpen)
    );
    assert_eq!(
        cluster.get_account_info(LocalId(0), Some(&data)),
        Ok(AccountInfo { cdp_id: LocalId(5), supply_units: Decimal::from_units(7), debt_units: Decimal::from_units(3) })
    );
    assert_eq!(cluster.get_account_info(LocalId(0), None), Err(ClusterError::VenueUnavailable));
    assert_eq!(cluster.get_account_info(LocalId(1), Some(&data)), Err(ClusterError::NoOpenAccount));

    let returned = cluster.close_account(&mut platform, &alice_badge()).unwrap();
    assert_eq!(returned.ids, vec![LocalId(5)]);
    assert_eq!(cluster.account_count, 0);
    assert_eq!(cluster.close_account(&mut platform, &alice_badge()).unwrap_err(), ClusterError::NoAccountsToClose);
}

#[test]
fn root_execution_session() {
    let (mut platform, mut cluster) = linked();
    let data = position(&[], &[]);
    cluster
        .open_account(&mut platform, &alice_badge(), NonFungibleBucket::single(CDP, LocalId(5)), Some(&data))
        .unwrap();

    let (cdp_bucket, terms_bucket) = cluster.start_execution(&alice_badge(), Some(&data)).unwrap();
    assert_eq!(cdp_bucket.ids, vec![LocalId(5)]);
    let grown = position(&[], &[(SUPPLY, 1000)]);
    let mut prices = index_map_new();
    prices.insert(SUPPLY.0, Decimal::one());
    prices.insert(DEBT.0, Decimal::one());
    let change = cluster
        .end_execution(
            cdp_bucket,
            terms_bucket,
            FungibleBucket::new(XRD, Decimal::from_units(5)),
            Some(&grown),
            Some(&prices),
        )
        .unwrap();
    assert_eq!(change, FungibleBucket::new(XRD, Decimal::from_units(4)));
    assert_eq!(cluster.collect_fees(&owner()).unwrap(), FungibleBucket::new(XRD, Decimal::one()));

    assert_eq!(
        cluster.end_execution(
            NonFungibleBucket::single(CDP, LocalId(5)),
            NonFungibleBucket::single(EXECUTION_TERMS, LocalId(0)),
            FungibleBucket::new(XRD, Decimal::from_units(5)),
            Some(&grown),
            Some(&prices),
        ),
        Err(ClusterError::UnknownExecutionTerms)
    );
}

#[test]
fn root_cluster_services_and_links() {
    let (mut platform, mut cluster) = linked();
    assert_eq!(cluster.handle_link(NonFungibleBucket::single(LINK_BADGE, LocalId(1))), Err(LinkError::AlreadyLinked));
    cluster.update_service_and_set_lock(&owner(), ClusterService::Execute, false, true).unwrap();
    assert_eq!(cluster.update_service(&owner(), ClusterService::Execute, true), Err(ClusterError::ServiceLocked));
    assert_eq!(
        cluster.start_execution(&alice_badge(), Some(&position(&[], &[]))).unwrap_err(),
        ClusterError::ServiceDisabled(ClusterService::Execute)
    );
    cluster.set_fee_structure(&owner(), None, Some(Decimal::from_units(1)), None).unwrap();
    assert_eq!(cluster.get_cluster_info().fee_info.close, Decimal::from_units(1));
    assert_eq!(cluster.get_cluster_info().fee_info.open, Decimal::from_units(16));
    assert!(cluster.__validate_cdp(Some(&position(&[], &[]))));
    assert!(!cluster.__validate_cdp(None));
    assert_eq!(cluster.__validate_user(&alice_badge()), Ok(LocalId(0)));
    assert!(!cluster.has_open_account(LocalId(0)));
    let _ = &mut platform;
}

#[test]
fn root_snapshots_are_built_entry_by_entry() {
    let mut built = CollaterizedDebtPositionData::new();
    assert_eq!(built.cdp_type, CDPType::Standard);
    assert_eq!(built.liquidable, None);
    built.set_collateral(SUPPLY, precise(7));
    built.set_loan(DEBT, precise(3));
    built.set_loan(DEBT, precise(4));
    assert_eq!(built.loans.len(), 1);
    assert_eq!(
        read_metrics(&built, SUPPLY, DEBT),
        Some(PositionMetrics { supply: Decimal::from_units(7), debt: Decimal::from_units(4) })
    );
    assert!(validate_cdp(Some(&built), SUPPLY, DEBT));
}

#[test]
fn root_types() {
    let price = PriceInfo { timestamp: 5, price: Decimal::one() };
    assert_eq!(price.timestamp, 5);
    let account = AccountData::new(NonFungibleVault::new(CDP));
    assert_eq!(account.cdp_vault.amount(), 0);
}
