//! A time-locked escrow for a fungible token: a depositor sends tokens in,
//! the escrow records the amount and a maturity time, and once that time has
//! come the depositor alone may take the tokens back.

pub mod config;
pub mod error;
pub mod escrow;
pub mod laws;
pub mod store;
