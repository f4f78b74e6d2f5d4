//! What the platform and every cluster have in common: service switches,
//! link badges and user badges.

pub mod links;
pub mod operating_services;
pub mod services;
pub mod users;
pub mod utils;
