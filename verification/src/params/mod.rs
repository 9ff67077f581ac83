//! Text parameters of buckets, clusters and nodes, kept in stores of their own.

pub mod store;
pub mod messages;
