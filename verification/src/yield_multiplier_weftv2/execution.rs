//! The data an execution-terms badge carries for the length of one session.

use crate::collections::index_map_entries;
use crate::collections::index_map_get;
use crate::collections::value_of;
use crate::decimal::narrowable;
use crate::decimal::quotient;
use crate::decimal::representable;
use crate::decimal::scale;
use crate::decimal::Decimal;
use crate::ledger::LocalId;
use crate::ledger::ResourceRef;
use crate::yield_multiplier_weftv2::fees::rate_at;
use crate::yield_multiplier_weftv2::fees::FeeCurve;
use crate::yield_multiplier_weftv2::fees::FeePoint;
use crate::yield_multiplier_weftv2::weft::PositionMetrics;
use scrypto::prelude::IndexMap;
use std::hash::RandomState;
use vstd::prelude::*;

verus! {

/// The terms of one execution session: whose position was handed out, which
/// position it is, and what it held at that moment.
#[derive(Debug, Clone, Copy, PartialEq, Eq, Structural)]
pub struct ExecutionTerms {
    /// The position that was handed out.
    pub cdp_id: LocalId,
    /// The user whose account the position belongs to.
    pub user_local_id: LocalId,
    /// The supplied and borrowed amounts when the session started.
    pub baseline: PositionMetrics,
}

impl ExecutionTerms {
    /// The terms of a session on `cdp_id` for `user_local_id`, starting from
    /// `baseline`.
    pub fn new(cdp_id: LocalId, user_local_id: LocalId, baseline: PositionMetrics) -> (r:
        ExecutionTerms)
        ensures
            r == (ExecutionTerms { cdp_id, user_local_id, baseline }),
    {
        ExecutionTerms { cdp_id, user_local_id, baseline }
    }
}

/// Why the fee of a session could not be computed.
#[derive(Debug, Clone, Copy, PartialEq, Eq, Structural)]
pub enum SessionError {
    /// The position changed and the market gave no price for an asset of
    /// the pair.
    PriceUnavailable,
    /// An amount on the way to the fee does not fit the number format.
    Overflow,
}

/// The prices of a price list that may be missing.
pub open spec fn prices_of(prices: Option<&IndexMap<u64, Decimal, RandomState>>) -> Option<
    Seq<(u64, Decimal)>,
> {
    match prices {
        Some(prices) => Some(index_map_entries(*prices)),
        None => None,
    }
}

/// The change in net value over a session: the value of what was supplied
/// since the baseline less the value of what was borrowed since. A position
/// that holds what it held at the baseline has changed by nothing, whatever
/// the prices; any other needs a price for both assets of the pair. A
/// difference that does not fit the number format is an overflow, and so is
/// a value that does not fit or is the least number, which no product
/// yields.
pub open spec fn liquidity_delta(
    baseline: PositionMetrics,
    current: PositionMetrics,
    supply: ResourceRef,
    debt: ResourceRef,
    prices: Option<Seq<(u64, Decimal)>>,
) -> Result<int, SessionError> {
    let supply_delta = current.supply.attos() - baseline.supply.attos();
    let debt_delta = current.debt.attos() - baseline.debt.attos();
    if !representable(supply_delta) || !representable(debt_delta) {
        Err(SessionError::Overflow)
    } else if supply_delta == 0 && debt_delta == 0 {
        Ok(0)
    } else {
        match prices {
            None => Err(SessionError::PriceUnavailable),
            Some(prices) => match (value_of(prices, supply.0), value_of(prices, debt.0)) {
                (Some(supply_price), Some(debt_price)) => {
                    let supply_value = quotient(supply_delta * supply_price.attos(), scale());
                    let debt_value = quotient(debt_delta * debt_price.attos(), scale());
                    if !narrowable(supply_value) || !narrowable(debt_value) || !representable(
                        supply_value - debt_value,
                    ) {
                        Err(SessionError::Overflow)
                    } else {
                        Ok(supply_value - debt_value)
                    }
                },
                _ => Err(SessionError::PriceUnavailable),
            },
        }
    }
}

/// The fee of a session that changed liquidity by `delta`: nothing when
/// liquidity did not grow, otherwise the curve's rate at `delta` times
/// `delta`, rounded toward zero; an overflow when that does not fit or is
/// the least number.
pub open spec fn session_fee(points: Seq<FeePoint>, delta: int) -> Result<int, SessionError> {
    if delta <= 0 {
        Ok(0)
    } else {
        let fee = quotient(rate_at(points, delta) * delta, scale());
        if narrowable(fee) {
            Ok(fee)
        } else {
            Err(SessionError::Overflow)
        }
    }
}

/// Whether the change in net value between `baseline` and `current` can be
/// had only with prices: without any, it fails for want of a price.
pub open spec fn prices_needed(
    baseline: PositionMetrics,
    current: PositionMetrics,
    supply: ResourceRef,
    debt: ResourceRef,
) -> bool {
    liquidity_delta(baseline, current, supply, debt, None) == Err::<int, SessionError>(
        SessionError::PriceUnavailable,
    )
}

/// Decides whether prices must be fetched to compute the change in net
/// value between `baseline` and `current`.
pub fn needs_prices(
    baseline: PositionMetrics,
    current: PositionMetrics,
    supply: ResourceRef,
    debt: ResourceRef,
) -> (r: bool)
    ensures
        r == prices_needed(baseline, current, supply, debt),
{
    match compute_liquidity_delta(baseline, current, supply, debt, None) {
        Err(SessionError::PriceUnavailable) => true,
        _ => false,
    }
}

/// Computes the change in net value between `baseline` and `current`.
pub fn compute_liquidity_delta(
    baseline: PositionMetrics,
    current: PositionMetrics,
    supply: ResourceRef,
    debt: ResourceRef,
    prices: Option<&IndexMap<u64, Decimal, RandomState>>,
) -> (r: Result<Decimal, SessionError>)
    ensures
        match liquidity_delta(baseline, current, supply, debt, prices_of(prices)) {
            Ok(delta) => r.is_ok() && r.unwrap().attos() == delta,
            Err(e) => r == Err::<Decimal, SessionError>(e),
        },
{
    let supply_delta = match current.supply.checked_sub(baseline.supply) {
        Some(delta) => delta,
        None => {
            return Err(SessionError::Overflow);
        },
    };
    let debt_delta = match current.debt.checked_sub(baseline.debt) {
        Some(delta) => delta,
        None => {
            return Err(SessionError::Overflow);
        },
    };
    if supply_delta.is_zero() && debt_delta.is_zero() {
        return Ok(Decimal::zero());
    }
    let prices = match prices {
        Some(prices) => prices,
        None => {
            return Err(SessionError::PriceUnavailable);
        },
    };
    let supply_price = match index_map_get(prices, supply.0) {
        Some(price) => price,
        None => {
            return Err(SessionError::PriceUnavailable);
        },
    };
    let debt_price = match index_map_get(prices, debt.0) {
        Some(price) => price,
        None => {
            return Err(SessionError::PriceUnavailable);
        },
    };
    let supply_value = match supply_delta.checked_mul(supply_price) {
        Some(value) => value,
        None => {
            return Err(SessionError::Overflow);
        },
    };
    let debt_value = match debt_delta.checked_mul(debt_price) {
        Some(value) => value,
        None => {
            return Err(SessionError::Overflow);
        },
    };
    match supply_value.checked_sub(debt_value) {
        Some(delta) => Ok(delta),
        None => Err(SessionError::Overflow),
    }
}

/// Computes the fee of a session that changed liquidity by `delta`.
pub fn compute_session_fee(curve: &FeeCurve, delta: Decimal) -> (r: Result<Decimal, SessionError>)
    ensures
        match session_fee(curve@, delta.attos()) {
            Ok(fee) => r.is_ok() && r.unwrap().attos() == fee,
            Err(e) => r == Err::<Decimal, SessionError>(e),
        },
{
    if !delta.is_positive() {
        return Ok(Decimal::zero());
    }
    let rate = curve.rate_at(delta);
    match rate.checked_mul(delta) {
        Some(fee) => Ok(fee),
        None => Err(SessionError::Overflow),
    }
}

/// A session that leaves the position as it found it owes no fee, on any
/// curve and without any price.
pub proof fn lemma_unchanged_position_owes_nothing(
    points: Seq<FeePoint>,
    metrics: PositionMetrics,
    supply: ResourceRef,
    debt: ResourceRef,
    prices: Option<Seq<(u64, Decimal)>>,
)
    ensures
        liquidity_delta(metrics, metrics, supply, debt, prices) == Ok::<int, SessionError>(0),
        session_fee(points, 0) == Ok::<int, SessionError>(0),
{
}

} // verus!
