//! Permissions that accounts may hold.

pub mod entity;
pub mod store;
pub mod messages;
