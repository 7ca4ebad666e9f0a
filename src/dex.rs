//! Exchanges and the uniform quote query over their pricing mechanisms.

use vstd::prelude::*;

use crate::units::RawAmount;

verus! {

/// The twenty bytes that `H160::from_str` reads from a text, or `None` where
/// it refuses the text.
pub uninterp spec fn address_of(s: Seq<char>) -> Option<Seq<u8>>;

/// A twenty-byte chain address.
#[derive(Clone, Copy, Debug)]
pub struct Address {
    pub bytes: [u8; 20],
}

/// Relies on `FromStr` for `ethers::types::Address` (an `H160`): an optional
/// `0x` prefix, then forty hex digits; the outcome depends on the text alone.
#[verifier::external_body]
fn address_bytes(s: &str) -> (r: Option<[u8; 20]>)
    ensures
        match r {
            Some(b) => address_of(s@) == Some(b@),
            None => address_of(s@) is None,
        },
{
    <ethers::types::Address as std::str::FromStr>::from_str(s).ok().map(|a| a.0)
}

/// Reads an address from its hex text; `None` where the text is not one.
pub fn parse_address(s: &str) -> (r: Option<Address>)
    ensures
        match r {
            Some(a) => address_of(s@) == Some(a.bytes@),
            None => address_of(s@) is None,
        },
{
    match address_bytes(s) {
        Some(bytes) => Some(Address { bytes }),
        None => None,
    }
}

/// How an exchange prices a swap, which decides the shape of its quote query.
#[derive(Clone, Copy, Debug)]
pub enum DexType {
    /// A constant-product router, asked along a path of hops.
    UniswapV2,
    /// A concentrated-liquidity quoter, asked for one hop in one fee tier.
    UniswapV3 { quoter_address: Address, fee: u32 },
}

/// An exchange: its name, its router address and its pricing mechanism.
#[derive(Clone, Debug)]
pub struct Dex {
    pub name: String,
    pub router_address: Address,
    pub dex_type: DexType,
}

/// A read-only contract call that asks an exchange for a quote.
#[derive(Clone, Debug)]
pub enum QuoteCall {
    /// `getAmountsOut(amount_in, path)` on a constant-product router.
    AmountsOut { router: Address, amount_in: RawAmount, path: Vec<Address> },
    /// `quoteExactInputSingle(token_in, token_out, fee, amount_in, limit)` on
    /// a concentrated-liquidity quoter; `sqrt_price_limit` is zero, as the
    /// call only simulates a swap.
    ExactInputSingle {
        quoter: Address,
        token_in: Address,
        token_out: Address,
        fee: u32,
        amount_in: RawAmount,
        sqrt_price_limit: u128,
    },
}

/// What the chain answered to a [`QuoteCall`].
#[derive(Clone, Debug)]
pub enum QuoteReply {
    /// The amounts along the path, from a constant-product router.
    Amounts(Vec<RawAmount>),
    /// The primary output amount, from a concentrated-liquidity quoter (the
    /// price, tick and gas fields of the answer are not kept).
    Single(RawAmount),
    /// The call failed: node error, missing liquidity, no route, or an amount
    /// too large to hold.
    Failed(String),
}

/// Why no amount could be had from a quote.
#[derive(Clone, Debug)]
pub enum QuoteError {
    /// The call itself failed; the text says why.
    Unavailable(String),
    /// The answer does not have the shape of the call that was made.
    MalformedReply,
}

/// `r` is the query that asks `dex` how much `token_out` it gives for
/// `amount_in` of `token_in`: a two-hop path on a router, or a single-hop
/// quote in the configured fee tier with no price limit.
pub open spec fn is_quote_call(
    r: QuoteCall,
    dex: Dex,
    amount_in: RawAmount,
    token_in: Address,
    token_out: Address,
) -> bool {
    match dex.dex_type {
        DexType::UniswapV2 => match r {
            QuoteCall::AmountsOut { router, amount_in: a, path } => router == dex.router_address
                && a == amount_in && path@ == seq![token_in, token_out],
            _ => false,
        },
        DexType::UniswapV3 { quoter_address, fee } => r == (QuoteCall::ExactInputSingle {
            quoter: quoter_address,
            token_in,
            token_out,
            fee,
            amount_in,
            sqrt_price_limit: 0,
        }),
    }
}

/// The query that asks `dex` how much `token_out` it gives for `amount_in` of
/// `token_in`.
pub fn quote_call(dex: &Dex, amount_in: RawAmount, token_in: Address, token_out: Address) -> (r:
    QuoteCall)
    ensures
        is_quote_call(r, *dex, amount_in, token_in, token_out),
{
    match dex.dex_type {
        DexType::UniswapV2 => QuoteCall::AmountsOut {
            router: dex.router_address,
            amount_in,
            path: vec![token_in, token_out],
        },
        DexType::UniswapV3 { quoter_address, fee } => QuoteCall::ExactInputSingle {
            quoter: quoter_address,
            token_in,
            token_out,
            fee,
            amount_in,
            sqrt_price_limit: 0,
        },
    }
}

/// The output amount that `reply` gives for `call`, or `None` where the
/// answer is a failure or does not fit the call.
pub open spec fn amount_out_spec(call: QuoteCall, reply: QuoteReply) -> Option<RawAmount> {
    match (call, reply) {
        (QuoteCall::AmountsOut { path, .. }, QuoteReply::Amounts(amounts)) => {
            if amounts@.len() == path@.len() && amounts@.len() > 0 {
                Some(amounts@.last())
            } else {
                None
            }
        },
        (QuoteCall::ExactInputSingle { .. }, QuoteReply::Single(amount)) => Some(amount),
        _ => None,
    }
}

/// Reads the output amount from the answer to a quote query: the last hop's
/// amount on a path, or the primary amount of a single-hop quote. A failed call
/// is `Unavailable`, never a zero amount.
pub fn get_amount_out(call: &QuoteCall, reply: QuoteReply) -> (r: Result<RawAmount, QuoteError>)
    ensures
        match r {
            Ok(amount) => amount_out_spec(*call, reply) == Some(amount),
            Err(e) => amount_out_spec(*call, reply) is None && (e is Unavailable <==> reply
                is Failed),
        },
{
    match reply {
        QuoteReply::Failed(msg) => Err(QuoteError::Unavailable(msg)),
        QuoteReply::Amounts(amounts) => {
            match call {
                QuoteCall::AmountsOut { path, .. } => {
                    if amounts.len() == path.len() && amounts.len() > 0 {
                        Ok(amounts[amounts.len() - 1])
                    } else {
                        Err(QuoteError::MalformedReply)
                    }
                },
                QuoteCall::ExactInputSingle { .. } => Err(QuoteError::MalformedReply),
            }
        },
        QuoteReply::Single(amount) => {
            match call {
                QuoteCall::ExactInputSingle { .. } => Ok(amount),
                QuoteCall::AmountsOut { .. } => Err(QuoteError::MalformedReply),
            }
        },
    }
}

} // verus!
