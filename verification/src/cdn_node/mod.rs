//! CDN nodes, offered by providers to clusters.

pub mod entity;
pub mod store;
pub mod messages;
