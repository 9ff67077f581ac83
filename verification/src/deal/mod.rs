//! Deals: payment flows for the rent of a node.

pub mod entity;
pub mod store;
