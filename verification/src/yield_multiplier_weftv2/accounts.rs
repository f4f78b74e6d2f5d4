//! A user's account in the cluster.

use crate::ledger::NonFungibleVault;
use vstd::prelude::*;

verus! {

/// What the cluster keeps for one user: the vault of the user's position.
#[derive(Debug)]
pub struct AccountData {
    pub cdp_vault: NonFungibleVault,
}

impl AccountData {
    /// An account around `cdp_vault`.
    pub fn new(cdp_vault: NonFungibleVault) -> (r: AccountData)
        ensures
            r.cdp_vault == cdp_vault,
    {
        AccountData { cdp_vault }
    }
}

} // verus!
