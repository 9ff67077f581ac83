//! Clusters: groups of storage and CDN nodes run by a manager.

pub mod entity;
pub mod store;
pub mod settlement;
pub mod messages;
