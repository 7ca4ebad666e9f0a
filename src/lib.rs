//! Detection of round-trip price discrepancies between decentralized exchanges.
//!
//! The library decides which quotes to ask for, interprets what the exchanges
//! answer, and computes whether a round trip clears the configured profit
//! threshold after a fixed simulated cost. Network calls and persistence are
//! performed by the caller, which feeds the results back in.

pub mod units;
pub mod dex;
pub mod config;
pub mod arbitrage;
