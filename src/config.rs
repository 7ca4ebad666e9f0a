//! The settings of a detection cycle, as plain values.

use vstd::prelude::*;

use crate::units::RawAmount;

verus! {

/// A token as configured: its symbol, its address as hex text, its decimals.
#[derive(Clone, Debug)]
pub struct TokenConfig {
    pub symbol: String,
    pub address: String,
    pub decimals: u8,
}

/// The quoter of a concentrated-liquidity exchange and the fee tier asked for.
#[derive(Clone, Debug)]
pub struct QuoterConfig {
    pub quoter_address: String,
    pub fee: u32,
}

/// An exchange as configured; `quoter` is present for a concentrated-liquidity
/// exchange and absent for a constant-product router.
#[derive(Clone, Debug)]
pub struct DexConfig {
    pub name: String,
    pub router_address: String,
    pub quoter: Option<QuoterConfig>,
}

/// Application configuration.
///
/// Amounts of money are counted in the smallest unit of the reference asset:
/// with six decimals, a threshold of `5_000_000` is five whole units.
#[derive(Clone, Debug)]
pub struct Config {
    pub rpc_url: String,
    pub database_url: String,
    pub check_interval_seconds: u64,
    /// Whole units of the reference asset put into each round trip.
    pub trade_amount: u64,
    /// A round trip qualifies when its net profit is strictly above this.
    pub min_profit_threshold: RawAmount,
    /// The fixed cost subtracted from each round trip's gross profit.
    pub simulated_gas_cost: RawAmount,
    /// The asset that each round trip starts and ends in.
    pub reference: TokenConfig,
    /// The assets bought and sold back against the reference asset.
    pub tokens: Vec<TokenConfig>,
    pub dexes: Vec<DexConfig>,
}

} // verus!
