//! The billing layer: deposits and payment flows of its own accounts.

pub mod account;
pub mod flow;
pub mod store;
pub mod messages;
