//! Write and read access to buckets, kept in a store of its own.

pub mod store;
