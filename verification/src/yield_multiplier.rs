//! Yield multiplier clusters that keep positions by the position's
//! identifier rather than by user.

pub mod weft;
