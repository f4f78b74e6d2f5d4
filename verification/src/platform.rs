//! The platform: the registry that mints link, user and admin badges, links
//! clusters, and records in which clusters each user has an account.

pub mod clusters;
pub mod operating_services;
pub mod platform;
pub mod services;
pub mod strategies;
pub mod users;
