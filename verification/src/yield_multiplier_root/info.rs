//! What the cluster reports about itself and about an account.

pub use crate::yield_multiplier_weftv2::info::ClusterInfo;
pub use crate::yield_multiplier_weftv2::info::FeeInfo;
use crate::decimal::Decimal;
use crate::ledger::LocalId;
use vstd::prelude::*;

verus! {

/// What the position in one account holds of the cluster's pair.
#[derive(Debug, Clone, Copy, PartialEq, Eq, Structural)]
pub struct AccountInfo {
    pub cdp_id: LocalId,
    pub supply_units: Decimal,
    pub debt_units: Decimal,
}

} // verus!
