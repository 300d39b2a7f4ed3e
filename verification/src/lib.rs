//! A time-weighted average price (TWAP) oracle core.
//!
//! For each tracked trading pair the oracle keeps an append-only,
//! time-ordered ledger of cumulative price values and answers queries of the
//! form "what was the average price between `T - offset` and `T`", derived
//! from two bracketing ledger entries by linear interpolation of cumulative
//! sums (the cumulative-price technique of automated-market-maker oracles).

pub mod config;
pub mod decimal;
pub mod error;
pub mod ledger;
pub mod msg;
pub mod twap;
