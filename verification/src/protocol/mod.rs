//! Protocol-wide settings: fees, their destinations and the exchange rate.

pub mod store;
pub mod messages;

