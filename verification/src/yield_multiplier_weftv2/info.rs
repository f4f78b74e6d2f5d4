//! What the cluster reports about itself and about an account.

use crate::decimal::Decimal;
use crate::ledger::ComponentRef;
use crate::ledger::LocalId;
use crate::ledger::ResourceRef;
use vstd::prelude::*;

verus! {

/// The fees a cluster quotes.
#[derive(Debug, Clone, Copy, PartialEq, Eq, Structural)]
pub struct FeeInfo {
    pub open: Decimal,
    pub close: Decimal,
    pub execute: Decimal,
}

/// General information about a cluster.
#[derive(Debug, Clone, Copy, PartialEq, Eq, Structural)]
pub struct ClusterInfo {
    pub platform_address: ComponentRef,
    pub cluster_address: ComponentRef,
    /// Whether the cluster holds a link badge.
    pub linked: bool,
    pub supply_res: ResourceRef,
    pub debt_res: ResourceRef,
    pub account_count: u64,
    /// The resource type of the cluster's execution-terms badges.
    pub execution_term_manager: ResourceRef,
    pub fee_info: FeeInfo,
}

/// The market's valuation of the position in one account.
#[derive(Debug, Clone, Copy, PartialEq, Eq, Structural)]
pub struct AccountInfo {
    pub cdp_id: LocalId,
    pub supply: Decimal,
    pub supply_value: Decimal,
    pub debt: Decimal,
    pub debt_value: Decimal,
    pub health: Decimal,
}

} // verus!
