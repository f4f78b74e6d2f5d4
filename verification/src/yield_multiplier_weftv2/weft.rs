//! What the cluster reads of the Weft lending market: the contents of a
//! collateralised debt position (CDP), the market's valuation of one, and the
//! rules a position must meet to be taken into custody.

use crate::collections::has_key;
use crate::collections::index_map_contains_key;
use crate::collections::index_map_entries;
use crate::collections::index_map_get;
use crate::collections::index_map_insert;
use crate::collections::index_map_len;
use crate::collections::index_map_new;
use crate::collections::index_set_insert;
use crate::collections::index_set_new;
use crate::collections::with_entry;
use crate::collections::index_set_keys;
use crate::collections::index_set_len;
use crate::collections::value_of;
use crate::decimal::Decimal;
use crate::ledger::ResourceRef;
use scrypto::prelude::IndexMap;
use scrypto::prelude::IndexSet;
use std::hash::RandomState;
use vstd::prelude::*;

verus! {

/// The contents of a position, as the market records them on the position's
/// token.
#[derive(Debug)]
pub struct CDPData {
    /// Borrowed units by resource.
    pub loans: IndexMap<u64, Decimal, RandomState>,
    /// Supplied amount by resource.
    pub collaterals: IndexMap<u64, Decimal, RandomState>,
    /// The resources of which the position holds unique tokens as collateral.
    pub nft_collaterals: IndexSet<u64, RandomState>,
}

/// The market's valuation of a position.
#[derive(Debug)]
pub struct CDPHealthChecker {
    pub total_loan_value: Decimal,
    pub total_collateral_value: Decimal,
    pub liquidation_ltv: Decimal,
    /// Borrowed amount by resource.
    pub loan_positions: IndexMap<u64, Decimal, RandomState>,
    /// Supplied amount by resource.
    pub collateral_positions: IndexMap<u64, Decimal, RandomState>,
}

/// A position's contents as plain mathematics.
pub struct CDPView {
    pub loans: Seq<(u64, Decimal)>,
    pub collaterals: Seq<(u64, Decimal)>,
    pub nft_collaterals: Seq<u64>,
}

impl View for CDPData {
    type V = CDPView;

    open spec fn view(&self) -> CDPView {
        CDPView {
            loans: index_map_entries(self.loans),
            collaterals: index_map_entries(self.collaterals),
            nft_collaterals: index_set_keys(self.nft_collaterals),
        }
    }
}

impl CDPData {
    /// A position that holds nothing.
    pub fn new() -> (r: CDPData)
        ensures
            r@ == (CDPView { loans: Seq::empty(), collaterals: Seq::empty(), nft_collaterals: Seq::empty() }),
    {
        CDPData { loans: index_map_new(), collaterals: index_map_new(), nft_collaterals: index_set_new() }
    }

    /// Records that the position borrows `units` of `resource`.
    pub fn set_loan(&mut self, resource: ResourceRef, units: Decimal)
        ensures
            final(self)@ == (CDPView {
                loans: with_entry(old(self)@.loans, resource.0, units),
                ..old(self)@
            }),
    {
        index_map_insert(&mut self.loans, resource.0, units);
    }

    /// Records that the position supplies `amount` of `resource`.
    pub fn set_collateral(&mut self, resource: ResourceRef, amount: Decimal)
        ensures
            final(self)@ == (CDPView {
                collaterals: with_entry(old(self)@.collaterals, resource.0, amount),
                ..old(self)@
            }),
    {
        index_map_insert(&mut self.collaterals, resource.0, amount);
    }

    /// Records that the position holds unique tokens of `resource` as
    /// collateral.
    pub fn add_nft_collateral(&mut self, resource: ResourceRef)
        ensures
            final(self)@ == (CDPView {
                nft_collaterals: if old(self)@.nft_collaterals.contains(resource.0) {
                    old(self)@.nft_collaterals
                } else {
                    old(self)@.nft_collaterals.push(resource.0)
                },
                ..old(self)@
            }),
    {
        index_set_insert(&mut self.nft_collaterals, resource.0);
    }
}

/// The rule a position breaks.
#[derive(Debug, Clone, Copy, PartialEq, Eq, Structural)]
pub enum Violation {
    /// The position's contents could not be fetched.
    Unresolvable,
    /// More than one resource is supplied.
    TooManyCollaterals,
    /// More than one resource is borrowed.
    TooManyLoans,
    /// Unique tokens are held as collateral.
    NftCollateral,
    /// The supplied resource is not the cluster's supply asset.
    InvalidCollateralAsset,
    /// The borrowed resource is not the cluster's debt asset.
    InvalidDebtAsset,
}

/// The supplied and borrowed amounts of a position in the cluster's pair.
#[derive(Debug, Clone, Copy, PartialEq, Eq, Structural)]
pub struct PositionMetrics {
    pub supply: Decimal,
    pub debt: Decimal,
}

/// The first rule that the position `cdp` breaks for the pair `supply` and
/// `debt`, going through the rules in their fixed order; nothing when it
/// meets them all.
pub open spec fn first_violation(cdp: Option<CDPView>, supply: ResourceRef, debt: ResourceRef)
    -> Option<Violation> {
    match cdp {
        None => Some(Violation::Unresolvable),
        Some(cdp) => if cdp.collaterals.len() > 1 {
            Some(Violation::TooManyCollaterals)
        } else if cdp.loans.len() > 1 {
            Some(Violation::TooManyLoans)
        } else if cdp.nft_collaterals.len() != 0 {
            Some(Violation::NftCollateral)
        } else if cdp.collaterals.len() == 1 && cdp.collaterals[0].0 != supply.0 {
            Some(Violation::InvalidCollateralAsset)
        } else if cdp.loans.len() == 1 && cdp.loans[0].0 != debt.0 {
            Some(Violation::InvalidDebtAsset)
        } else {
            None
        },
    }
}

/// Whether the position may be held by a cluster for `supply` and `debt`:
/// its contents are known, it supplies at most `supply`, borrows at most
/// `debt`, and holds no unique tokens as collateral.
pub open spec fn is_valid(cdp: Option<CDPView>, supply: ResourceRef, debt: ResourceRef) -> bool {
    first_violation(cdp, supply, debt).is_none()
}

/// The amount that a list of positions holds of `resource`, zero where it
/// holds none.
pub open spec fn amount_of(entries: Seq<(u64, Decimal)>, resource: ResourceRef) -> Decimal {
    match value_of(entries, resource.0) {
        Some(amount) => amount,
        None => Decimal { lo: 0, mid: 0, hi: 0 },
    }
}

/// The amounts of `supply` and `debt` in the position, zero where it has none.
pub open spec fn metrics_of(cdp: CDPView, supply: ResourceRef, debt: ResourceRef)
    -> PositionMetrics {
    PositionMetrics { supply: amount_of(cdp.collaterals, supply), debt: amount_of(cdp.loans, debt) }
}

/// The market's valuation of a position as plain mathematics.
pub struct HealthView {
    pub total_loan_value: Decimal,
    pub total_collateral_value: Decimal,
    pub liquidation_ltv: Decimal,
    pub loan_positions: Seq<(u64, Decimal)>,
    pub collateral_positions: Seq<(u64, Decimal)>,
}

impl View for CDPHealthChecker {
    type V = HealthView;

    open spec fn view(&self) -> HealthView {
        HealthView {
            total_loan_value: self.total_loan_value,
            total_collateral_value: self.total_collateral_value,
            liquidation_ltv: self.liquidation_ltv,
            loan_positions: index_map_entries(self.loan_positions),
            collateral_positions: index_map_entries(self.collateral_positions),
        }
    }
}

impl CDPHealthChecker {
    /// The valuation of a position that holds nothing of any resource.
    pub fn new(total_loan_value: Decimal, total_collateral_value: Decimal, liquidation_ltv: Decimal) -> (r:
        CDPHealthChecker)
        ensures
            r@ == (HealthView {
                total_loan_value,
                total_collateral_value,
                liquidation_ltv,
                loan_positions: Seq::empty(),
                collateral_positions: Seq::empty(),
            }),
    {
        CDPHealthChecker {
            total_loan_value,
            total_collateral_value,
            liquidation_ltv,
            loan_positions: index_map_new(),
            collateral_positions: index_map_new(),
        }
    }

    /// Records that the position borrows `amount` of `resource`.
    pub fn set_loan_position(&mut self, resource: ResourceRef, amount: Decimal)
        ensures
            final(self)@ == (HealthView {
                loan_positions: with_entry(old(self)@.loan_positions, resource.0, amount),
                ..old(self)@
            }),
    {
        index_map_insert(&mut self.loan_positions, resource.0, amount);
    }

    /// Records that the position supplies `amount` of `resource`.
    pub fn set_collateral_position(&mut self, resource: ResourceRef, amount: Decimal)
        ensures
            final(self)@ == (HealthView {
                collateral_positions: with_entry(old(self)@.collateral_positions, resource.0, amount),
                ..old(self)@
            }),
    {
        index_map_insert(&mut self.collateral_positions, resource.0, amount);
    }
}

/// The view of a valuation that may be missing.
pub open spec fn health_of(health: Option<&CDPHealthChecker>) -> Option<HealthView> {
    match health {
        Some(health) => Some(health@),
        None => None,
    }
}

/// Looks up the amount held of `resource`, zero where none is held.
pub fn read_amount(entries: &IndexMap<u64, Decimal, RandomState>, resource: ResourceRef) -> (r:
    Decimal)
    ensures
        r == amount_of(index_map_entries(*entries), resource),
{
    match index_map_get(entries, resource.0) {
        Some(amount) => amount,
        None => Decimal::zero(),
    }
}

/// The view of a position that may be missing.
pub open spec fn view_of(cdp: Option<&CDPData>) -> Option<CDPView> {
    match cdp {
        Some(cdp) => Some(cdp@),
        None => None,
    }
}

/// A map of one entry has a key exactly when its only entry is under it.
pub proof fn lemma_single_entry_key<V>(entries: Seq<(u64, V)>, key: u64)
    requires
        entries.len() == 1,
    ensures
        has_key(entries, key) == (entries[0].0 == key),
{
    if entries[0].0 == key {
        assert(0 <= 0 < entries.len() && entries[0].0 == key);
    }
}

/// The first rule broken by a position that supplies `collaterals`, borrows
/// `loans` and holds unique tokens of `nft_collaterals` resources as
/// collateral; nothing when it breaks none.
pub fn check_cdp_entries(
    collaterals: &IndexMap<u64, Decimal, RandomState>,
    loans: &IndexMap<u64, Decimal, RandomState>,
    nft_collaterals: usize,
    supply: ResourceRef,
    debt: ResourceRef,
) -> (r: Option<Violation>)
    ensures
        forall|nfts: Seq<u64>|
            nfts.len() == nft_collaterals ==> r == #[trigger] first_violation(
                Some(
                    CDPView {
                        loans: index_map_entries(*loans),
                        collaterals: index_map_entries(*collaterals),
                        nft_collaterals: nfts,
                    },
                ),
                supply,
                debt,
            ),
{
    let collateral_count = index_map_len(collaterals);
    let loan_count = index_map_len(loans);
    if collateral_count > 1 {
        return Some(Violation::TooManyCollaterals);
    }
    if loan_count > 1 {
        return Some(Violation::TooManyLoans);
    }
    if nft_collaterals != 0 {
        return Some(Violation::NftCollateral);
    }
    if collateral_count == 1 {
        proof {
            lemma_single_entry_key(index_map_entries(*collaterals), supply.0);
        }
        if !index_map_contains_key(collaterals, supply.0) {
            return Some(Violation::InvalidCollateralAsset);
        }
    }
    if loan_count == 1 {
        proof {
            lemma_single_entry_key(index_map_entries(*loans), debt.0);
        }
        if !index_map_contains_key(loans, debt.0) {
            return Some(Violation::InvalidDebtAsset);
        }
    }
    None
}

/// Names the first rule that the position breaks, or nothing when the
/// position may be held.
pub fn check_cdp(cdp: Option<&CDPData>, supply: ResourceRef, debt: ResourceRef) -> (r: Option<
    Violation,
>)
    ensures
        r == first_violation(view_of(cdp), supply, debt),
{
    match cdp {
        Some(cdp) => check_cdp_entries(
            &cdp.collaterals,
            &cdp.loans,
            index_set_len(&cdp.nft_collaterals),
            supply,
            debt,
        ),
        None => Some(Violation::Unresolvable),
    }
}

/// Decides whether a position may be held by a cluster for `supply` and
/// `debt`. A position whose contents could not be fetched may not.
pub fn validate_cdp(cdp: Option<&CDPData>, supply: ResourceRef, debt: ResourceRef) -> (valid: bool)
    ensures
        valid == is_valid(view_of(cdp), supply, debt),
{
    check_cdp(cdp, supply, debt).is_none()
}

/// Reads the amounts of `supply` and `debt` off a position.
pub fn read_metrics(cdp: &CDPData, supply: ResourceRef, debt: ResourceRef) -> (r: PositionMetrics)
    ensures
        r == metrics_of(cdp@, supply, debt),
{
    PositionMetrics {
        supply: read_amount(&cdp.collaterals, supply),
        debt: read_amount(&cdp.loans, debt),
    }
}

/// Validation is a function of the position's contents and the pair alone:
/// asked twice about one snapshot, or about two snapshots of the same
/// contents, it gives the same verdict and names the same rule.
pub proof fn lemma_validation_depends_on_contents_only(
    first: CDPData,
    second: CDPData,
    supply: ResourceRef,
    debt: ResourceRef,
)
    requires
        first@ == second@,
    ensures
        is_valid(Some(first@), supply, debt) == is_valid(Some(second@), supply, debt),
        first_violation(Some(first@), supply, debt) == first_violation(Some(second@), supply, debt),
{
}

/// A valid position supplies nothing but the supply asset and borrows
/// nothing but the debt asset.
pub proof fn lemma_valid_position_is_within_the_pair(
    cdp: CDPView,
    supply: ResourceRef,
    debt: ResourceRef,
)
    requires
        is_valid(Some(cdp), supply, debt),
    ensures
        forall|i: int| 0 <= i < cdp.collaterals.len() ==> (#[trigger] cdp.collaterals[i]).0 == supply.0,
        forall|i: int| 0 <= i < cdp.loans.len() ==> (#[trigger] cdp.loans[i]).0 == debt.0,
        cdp.nft_collaterals.len() == 0,
{
}

} // verus!
