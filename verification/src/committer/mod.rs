//! Commits of CDN usage logs and the era schedule they follow.

pub mod store;
pub mod messages;
