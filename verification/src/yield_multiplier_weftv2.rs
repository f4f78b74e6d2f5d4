//! The yield multiplier cluster on the Weft lending market: custody of one
//! collateralised debt position per user, and execution sessions on it.

pub mod accounts;
pub mod cluster;
pub mod execution;
pub mod fees;
pub mod info;
pub mod services;
pub mod weft;
