//! Buckets: storage reserved by an owner in a cluster, paid by a flow.

pub mod entity;
pub mod store;
pub mod messages;
