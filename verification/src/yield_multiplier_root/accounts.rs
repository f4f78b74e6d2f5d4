//! A user's account in the cluster.

pub use crate::yield_multiplier_weftv2::accounts::AccountData;
