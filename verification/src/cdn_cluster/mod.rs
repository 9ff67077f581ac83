//! CDN clusters: groups of CDN nodes whose traffic is paid into the cluster.

pub mod entity;
pub mod store;
pub mod messages;
