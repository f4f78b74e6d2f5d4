//! Verified core of the Lattic3 strategy aggregator.
//!
//! A platform links strategy clusters by badges that cannot be forged: it
//! mints a link badge for each cluster and a user badge for each user, and
//! records in which clusters a user has an account. A cluster keeps each
//! user's collateralised debt position in custody, and hands it out for one
//! execution session at a time against a badge that ends the session once.
//!
//! The ledger on which all this lives is not part of the crate. What it
//! holds appears here as plain values (`ledger`), its numbers are computed
//! by the ledger's own number type (`decimal`), and what a lending market
//! records of a position is read from the market's insertion-ordered maps
//! (`collections`). Every operation says in its contract what it returns
//! and changes for every input, and leaves everything as it was when it
//! refuses.

pub mod collections;
pub mod decimal;
pub mod ledger;
pub mod platform;
pub mod shared;
pub mod yield_multiplier;
pub mod yield_multiplier_root;
pub mod yield_multiplier_weftv2;
