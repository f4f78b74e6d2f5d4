//! The badge of a strategy that the platform has verified.

use crate::ledger::ComponentRef;
use vstd::prelude::*;

verus! {

/// The data of a verification badge. Nothing of it can be changed once the
/// badge is minted, so that a verified status cannot be misrepresented.
#[derive(Debug)]
pub struct VerifiedStrategy {
    /// The strategy's name.
    pub name: String,
    /// The platform that verified the strategy.
    pub verified_by: ComponentRef,
}

} // verus!
