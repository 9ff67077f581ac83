//! The service tier of each CDN node.

pub mod entity;
pub mod store;
