//! The yield multiplier cluster on Root Finance's lending market. It follows
//! the same protocol as the cluster on Weft and is described by the same
//! model; what differs is what the market records of a position.

pub mod accounts;
pub mod cluster;
pub mod info;
pub mod root;
pub mod services;
