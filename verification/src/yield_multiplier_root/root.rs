//! What the cluster reads of Root Finance's lending market: the contents of a
//! collateralised debt position and the rules it must meet to be taken into
//! custody. The market keeps amounts with 36 decimal places; the cluster
//! cuts those of its pair off after the 18th when it reads them.

use crate::collections::has_key;
use crate::collections::precise_map_contains_key;
use crate::collections::precise_map_entries;
use crate::collections::precise_map_get;
use crate::collections::precise_map_insert;
use crate::collections::precise_map_len;
use crate::collections::precise_map_new;
use crate::collections::with_entry;
use crate::collections::value_of;
use crate::decimal::Decimal;
use crate::decimal::PreciseDecimal;
use crate::ledger::ResourceRef;
use crate::yield_multiplier_weftv2::weft::amount_of;
use crate::yield_multiplier_weftv2::weft::first_violation;
use crate::yield_multiplier_weftv2::weft::is_valid;
use crate::yield_multiplier_weftv2::weft::lemma_single_entry_key;
use crate::yield_multiplier_weftv2::weft::metrics_of;
use crate::yield_multiplier_weftv2::weft::CDPView;
use crate::yield_multiplier_weftv2::weft::PositionMetrics;
use crate::yield_multiplier_weftv2::weft::Violation;
use scrypto::prelude::IndexMap;
use std::hash::RandomState;
use vstd::prelude::*;

verus! {

/// A price as the market's oracle reports it.
#[derive(Debug, Clone, Copy, PartialEq, Eq, Structural)]
pub struct PriceInfo {
    /// Seconds since the Unix epoch at which the price was taken.
    pub timestamp: i64,
    pub price: Decimal,
}

/// The kind of a position.
#[derive(Debug, Clone, Copy, PartialEq, Eq, Structural)]
pub enum CDPType {
    /// The holder answers for collateral and loans and can be liquidated.
    Standard,
}

/// The contents of a position, as the market records them on the position's
/// token.
#[derive(Debug)]
pub struct CollaterizedDebtPositionData {
    pub cdp_type: CDPType,
    /// Supplied units by resource.
    pub collaterals: IndexMap<u64, PreciseDecimal, RandomState>,
    /// Borrowed units by resource.
    pub loans: IndexMap<u64, PreciseDecimal, RandomState>,
    /// The most that may be liquidated of the position, if that is limited.
    pub liquidable: Option<Decimal>,
}

impl CollaterizedDebtPositionData {
    /// A standard position that holds nothing.
    pub fn new() -> (r: CollaterizedDebtPositionData)
        ensures
            r.cdp_type == CDPType::Standard,
            precise_map_entries(r.collaterals) == Seq::<(u64, PreciseDecimal)>::empty(),
            precise_map_entries(r.loans) == Seq::<(u64, PreciseDecimal)>::empty(),
            r.liquidable == None::<Decimal>,
    {
        CollaterizedDebtPositionData {
            cdp_type: CDPType::Standard,
            collaterals: precise_map_new(),
            loans: precise_map_new(),
            liquidable: None,
        }
    }

    /// Records that the position supplies `units` of `resource`.
    pub fn set_collateral(&mut self, resource: ResourceRef, units: PreciseDecimal)
        ensures
            precise_map_entries(final(self).collaterals) == with_entry(
                precise_map_entries(old(self).collaterals),
                resource.0,
                units,
            ),
            final(self).loans == old(self).loans,
            final(self).cdp_type == old(self).cdp_type,
            final(self).liquidable == old(self).liquidable,
    {
        precise_map_insert(&mut self.collaterals, resource.0, units);
    }

    /// Records that the position borrows `units` of `resource`.
    pub fn set_loan(&mut self, resource: ResourceRef, units: PreciseDecimal)
        ensures
            precise_map_entries(final(self).loans) == with_entry(
                precise_map_entries(old(self).loans),
                resource.0,
                units,
            ),
            final(self).collaterals == old(self).collaterals,
            final(self).cdp_type == old(self).cdp_type,
            final(self).liquidable == old(self).liquidable,
    {
        precise_map_insert(&mut self.loans, resource.0, units);
    }
}

/// The entries with each amount cut off after the 18th decimal place.
pub open spec fn truncated(entries: Seq<(u64, PreciseDecimal)>) -> Seq<(u64, Decimal)> {
    entries.map_values(|entry: (u64, PreciseDecimal)| (entry.0, entry.1.truncation()))
}

impl View for CollaterizedDebtPositionData {
    type V = CDPView;

    /// The position with its amounts cut off after the 18th decimal place.
    /// A position on this market never holds unique tokens as collateral.
    open spec fn view(&self) -> CDPView {
        CDPView {
            loans: truncated(precise_map_entries(self.loans)),
            collaterals: truncated(precise_map_entries(self.collaterals)),
            nft_collaterals: Seq::empty(),
        }
    }
}

/// The view of a position that may be missing.
pub open spec fn view_of(cdp: Option<&CollaterizedDebtPositionData>) -> Option<CDPView> {
    match cdp {
        Some(cdp) => Some(cdp@),
        None => None,
    }
}

/// Whether what `entries` hold of `resource` cannot be cut off and held.
pub open spec fn amount_overflows(entries: Seq<(u64, PreciseDecimal)>, resource: ResourceRef) -> bool {
    match value_of(entries, resource.0) {
        Some(amount) => !amount.truncates(),
        None => false,
    }
}

/// Whether an amount of the pair `supply` and `debt` in the position cannot
/// be cut off and held. Amounts of other resources are never read.
pub open spec fn overflows(
    cdp: Option<&CollaterizedDebtPositionData>,
    supply: ResourceRef,
    debt: ResourceRef,
) -> bool {
    match cdp {
        Some(cdp) => amount_overflows(precise_map_entries(cdp.collaterals), supply) || amount_overflows(
            precise_map_entries(cdp.loans),
            debt,
        ),
        None => false,
    }
}

/// Cutting the amounts off changes no key.
pub proof fn lemma_truncated_keys(entries: Seq<(u64, PreciseDecimal)>, key: u64)
    ensures
        truncated(entries).len() == entries.len(),
        has_key(truncated(entries), key) == has_key(entries, key),
        entries.len() > 0 ==> truncated(entries)[0].0 == entries[0].0,
{
    if has_key(entries, key) {
        let i = choose|i: int| 0 <= i < entries.len() && (#[trigger] entries[i]).0 == key;
        assert(truncated(entries)[i].0 == key);
    }
    if has_key(truncated(entries), key) {
        let i = choose|i: int|
            0 <= i < truncated(entries).len() && (#[trigger] truncated(entries)[i]).0 == key;
        assert(entries[i].0 == key);
    }
}

/// Looking an amount up and cutting it off is looking it up among the
/// amounts cut off.
pub proof fn lemma_truncated_value(entries: Seq<(u64, PreciseDecimal)>, key: u64)
    ensures
        value_of(truncated(entries), key) == (match value_of(entries, key) {
            Some(amount) => Some(amount.truncation()),
            None => None,
        }),
    decreases entries.len(),
{
    if entries.len() > 0 {
        let rest = entries.subrange(1, entries.len() as int);
        lemma_truncated_value(rest, key);
        assert(truncated(entries).subrange(1, entries.len() as int) =~= truncated(rest));
    }
}

/// Names the first rule that the position breaks, or nothing when the
/// position may be held. No amount is read.
pub fn check_cdp(cdp: Option<&CollaterizedDebtPositionData>, supply: ResourceRef, debt: ResourceRef)
    -> (r: Option<Violation>)
    ensures
        r == first_violation(view_of(cdp), supply, debt),
{
    let cdp = match cdp {
        Some(cdp) => cdp,
        None => {
            return Some(Violation::Unresolvable);
        },
    };
    proof {
        lemma_truncated_keys(precise_map_entries(cdp.collaterals), supply.0);
        lemma_truncated_keys(precise_map_entries(cdp.loans), debt.0);
    }
    let collaterals = precise_map_len(&cdp.collaterals);
    let loans = precise_map_len(&cdp.loans);
    if collaterals > 1 {
        return Some(Violation::TooManyCollaterals);
    }
    if loans > 1 {
        return Some(Violation::TooManyLoans);
    }
    if collaterals == 1 {
        proof {
            lemma_single_entry_key(precise_map_entries(cdp.collaterals), supply.0);
        }
        if !precise_map_contains_key(&cdp.collaterals, supply.0) {
            return Some(Violation::InvalidCollateralAsset);
        }
    }
    if loans == 1 {
        proof {
            lemma_single_entry_key(precise_map_entries(cdp.loans), debt.0);
        }
        if !precise_map_contains_key(&cdp.loans, debt.0) {
            return Some(Violation::InvalidDebtAsset);
        }
    }
    None
}

/// Decides whether a position may be held by a cluster for `supply` and
/// `debt`. A position whose contents could not be fetched may not.
pub fn validate_cdp(cdp: Option<&CollaterizedDebtPositionData>, supply: ResourceRef, debt: ResourceRef)
    -> (valid: bool)
    ensures
        valid == is_valid(view_of(cdp), supply, debt),
{
    check_cdp(cdp, supply, debt).is_none()
}

/// Looks up the amount held of `resource` and cuts it off after the 18th
/// decimal place; zero where none is held, nothing where the amount cannot
/// be cut off and held.
pub fn read_amount(entries: &IndexMap<u64, PreciseDecimal, RandomState>, resource: ResourceRef) -> (r:
    Option<Decimal>)
    ensures
        r == (if amount_overflows(precise_map_entries(*entries), resource) {
            None
        } else {
            Some(amount_of(truncated(precise_map_entries(*entries)), resource))
        }),
{
    proof {
        lemma_truncated_value(precise_map_entries(*entries), resource.0);
    }
    match precise_map_get(entries, resource.0) {
        Some(amount) => amount.checked_truncate(),
        None => Some(Decimal::zero()),
    }
}

/// Reads the amounts of `supply` and `debt` off a position; nothing where
/// one of them cannot be cut off and held.
pub fn read_metrics(cdp: &CollaterizedDebtPositionData, supply: ResourceRef, debt: ResourceRef) -> (r:
    Option<PositionMetrics>)
    ensures
        r == (if overflows(Some(cdp), supply, debt) {
            None
        } else {
            Some(metrics_of(cdp@, supply, debt))
        }),
{
    let supplied = match read_amount(&cdp.collaterals, supply) {
        Some(supplied) => supplied,
        None => {
            return None;
        },
    };
    let borrowed = match read_amount(&cdp.loans, debt) {
        Some(borrowed) => borrowed,
        None => {
            return None;
        },
    };
    Some(PositionMetrics { supply: supplied, debt: borrowed })
}

} // verus!
