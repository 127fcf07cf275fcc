//! A two-sided bonding-curve market maker: a custodial pool holding two
//! fungible asset balances and a payment reserve, a pricing engine that
//! derives the exchange rate from current circulating supply, and an
//! all-or-nothing two-leg settlement protocol for buys and sells.

pub mod curve;
pub mod engine;
pub mod laws;
pub mod settlement;
pub mod state;
