//! Services that providers offer in clusters, at a monthly rent.

pub mod entity;
pub mod store;
