//! Accounts: deposits, bonded funds and the payment schedules they cover.

pub mod entity;
pub mod store;
pub mod messages;
