use dex_arb::arbitrage::{
    check_arbitrage_opportunities, evaluate_round_trip, first_pair, next_pair, Cycle, CycleError,
    Leg, PairAction, PairKey, PairState,
};
use dex_arb::config::{Config, DexConfig, QuoterConfig, TokenConfig};
use dex_arb::dex::{QuoteCall, QuoteError};
use dex_arb::units::RawAmount;

fn amt(x: u128) -> RawAmount {
    RawAmount::from_u128(x)
}

const USDC: &str = "0x2791bca1f2de4661ed88a30c99a7a9449aa84174";
const WETH: &str = "0x7ceb23fd6bc0add59e62ac25578270cff1b9f619";
const WBTC: &str = "0x1bfd67037b42cf73acf2047067bd4f2c47d9bfd6";

fn token(symbol: &str, address: &str, decimals: u8) -> TokenConfig {
    TokenConfig { symbol: symbol.to_string(), address: address.to_string(), decimals }
}

fn config() -> Config {
    Config {
        rpc_url: "http://localhost:8545".to_string(),
        database_url: "sqlite::memory:".to_string(),
        check_interval_seconds: 60,
        trade_amount: 1000,
        min_profit_threshold: amt(5_000_000),
        simulated_gas_cost: amt(1_000_000),
        reference: token("USDC", USDC, 6),
        tokens: vec![token("WETH", WETH, 18), token("WBTC", WBTC, 8)],
        dexes: vec![
            DexConfig {
                name: "QuickSwap".to_string(),
                router_address: "0xa5E0829CaCEd8fFDD4De3c43696c57F7D7A678ff".to_string(),
                quoter: None,
            },
            DexConfig {
                name: "SushiSwap".to_string(),
                router_address: "0x1b02dA8Cb0d097eB8D57A175b88c7D8b47997506".to_string(),
                quoter: None,
            },
            DexConfig {
                name: "Uniswap V3".to_string(),
                router_address: "0xE592427A0AEce92De3Edee1F18E0157C05861564".to_string(),
                quoter: Some(QuoterConfig {
                    quoter_address: "0xb27308f9F90D607463bb33eA174115C648992456".to_string(),
                    fee: 3000,
                }),
            },
        ],
    }
}

fn cycle() -> Cycle {
    check_arbitrage_opportunities(&config()).unwrap()
}

const PAIR: PairKey = PairKey { token: 0, buy: 0, sell: 1 };

fn after_buy(c: &Cycle, intermediate: u128) -> PairState {
    let intermediate = amt(intermediate);
    let (state, _) = c.begin_pair(PAIR);
    let (state, action) = c.check_and_log_opportunity(PAIR, state, Ok(intermediate));
    assert!(matches!(action, PairAction::Quote(_)));
    state
}

#[test]
fn cycle_start_scales_trade_amount_by_reference_decimals() {
    let c = cycle();
    assert_eq!(c.amount_in, amt(1_000_000_000));
    assert_eq!(c.tokens.len(), 2);
    assert_eq!(c.dexes.len(), 3);
    assert_eq!(c.reference.address.bytes[0], 0x27);
    assert_eq!(c.tokens[1].decimals, 8);
}

#[test]
fn cycle_start_refuses_a_malformed_address() {
    let mut cfg = config();
    cfg.tokens[1].address = "0x1bfd67037b42cf73acf2047067bd4f2c47d9bfd".to_string();
    match check_arbitrage_opportunities(&cfg) {
        Err(CycleError::InvalidAddress(s)) => {
            assert_eq!(s, "0x1bfd67037b42cf73acf2047067bd4f2c47d9bfd")
        }
        other => panic!("unexpected {:?}", other),
    }
    let mut cfg = config();
    if let Some(q) = cfg.dexes[2].quoter.as_mut() {
        q.quoter_address = "0xzz7308f9F90D607463bb33eA174115C648992456".to_string();
    }
    assert!(matches!(check_arbitrage_opportunities(&cfg), Err(CycleError::InvalidAddress(_))));
}

#[test]
fn cycle_start_refuses_an_amount_that_does_not_fit() {
    let mut cfg = config();
    cfg.reference.decimals = 80;
    assert!(matches!(check_arbitrage_opportunities(&cfg), Err(CycleError::AmountOverflow)));
}

#[test]
fn profitable_round_trip_is_recorded() {
    let c = cycle();
    let (state, call) = c.begin_pair(PAIR);
    assert_eq!(state, PairState::AwaitingBuy);
    match call {
        QuoteCall::AmountsOut { amount_in, path, .. } => {
            assert_eq!(amount_in, amt(1_000_000_000));
            assert_eq!(path.len(), 2);
            assert_eq!(path[0].bytes, c.reference.address.bytes);
            assert_eq!(path[1].bytes, c.tokens[0].address.bytes);
        }
        other => panic!("unexpected {:?}", other),
    }
    let intermediate = amt(500_000_000_000_000_000);
    let (state, action) = c.check_and_log_opportunity(PAIR, state, Ok(intermediate));
    assert_eq!(state, PairState::AwaitingSell { intermediate });
    match action {
        PairAction::Quote(QuoteCall::AmountsOut { amount_in, path, router }) => {
            assert_eq!(amount_in, intermediate);
            assert_eq!(path[0].bytes, c.tokens[0].address.bytes);
            assert_eq!(path[1].bytes, c.reference.address.bytes);
            assert_eq!(router.bytes, c.dexes[1].router_address.bytes);
        }
        other => panic!("unexpected {:?}", other),
    }
    let (state, action) = c.check_and_log_opportunity(PAIR, state, Ok(amt(1_010_000_000)));
    assert_eq!(state, PairState::Finished);
    match action {
        PairAction::Record(o) => {
            assert_eq!(o.buy_exchange, "QuickSwap");
            assert_eq!(o.sell_exchange, "SushiSwap");
            assert_eq!(o.buy_token_symbol, "USDC");
            assert_eq!(o.sell_token_symbol, "WETH");
            assert_eq!(o.amount_in.text(), "1000.000000");
            assert_eq!(o.amount_out.text(), "1010.000000");
            assert_eq!(o.net_profit.raw, amt(9_000_000));
            assert_eq!(o.net_profit.text(), "9.000000");
            assert_eq!(o.intermediate_amount.text(), "0.500000000000000000");
            assert_eq!(o.amount_in.text().parse::<f64>().unwrap(), 1000.0);
            assert_eq!(o.net_profit.text().parse::<f64>().unwrap(), 9.0);
        }
        other => panic!("unexpected {:?}", other),
    }
}

#[test]
fn small_profit_is_not_recorded() {
    let c = cycle();
    let state = after_buy(&c, 500_000_000_000_000_000);
    let (state, action) = c.check_and_log_opportunity(PAIR, state, Ok(amt(1_004_000_000)));
    assert_eq!(state, PairState::Finished);
    assert!(matches!(action, PairAction::Done));
}

#[test]
fn profit_equal_to_threshold_is_not_recorded() {
    let c = cycle();
    let state = after_buy(&c, 7);
    let (_, action) = c.check_and_log_opportunity(PAIR, state, Ok(amt(1_006_000_000)));
    assert!(matches!(action, PairAction::Done));
    let (_, action) = c.check_and_log_opportunity(PAIR, state, Ok(amt(1_006_000_001)));
    match action {
        PairAction::Record(o) => assert_eq!(o.net_profit.raw, amt(5_000_001)),
        other => panic!("unexpected {:?}", other),
    }
}

#[test]
fn loss_is_not_recorded() {
    let c = cycle();
    let state = after_buy(&c, 7);
    let (_, action) = c.check_and_log_opportunity(PAIR, state, Ok(amt(990_000_000)));
    assert!(matches!(action, PairAction::Done));
}

#[test]
fn failed_buy_leg_abandons_pair_without_sell_leg() {
    let c = cycle();
    let (state, _) = c.begin_pair(PAIR);
    let err = QuoteError::Unavailable("execution reverted".to_string());
    let (state, action) = c.check_and_log_opportunity(PAIR, state, Err(err));
    assert_eq!(state, PairState::Finished);
    match action {
        PairAction::Abandon { leg, error: QuoteError::Unavailable(m) } => {
            assert_eq!(leg, Leg::Buy);
            assert_eq!(m, "execution reverted");
        }
        other => panic!("unexpected {:?}", other),
    }
    assert_eq!(next_pair(PAIR, 2, 3), Some(PairKey { token: 0, buy: 0, sell: 2 }));
}

#[test]
fn failed_sell_leg_abandons_pair() {
    let c = cycle();
    let state = after_buy(&c, 7);
    let (state, action) = c.check_and_log_opportunity(PAIR, state, Err(QuoteError::MalformedReply));
    assert_eq!(state, PairState::Finished);
    assert!(matches!(action, PairAction::Abandon { leg: Leg::Sell, .. }));
}

#[test]
fn zero_buy_quote_skips_sell_leg() {
    let c = cycle();
    let (state, _) = c.begin_pair(PAIR);
    let (state, action) = c.check_and_log_opportunity(PAIR, state, Ok(amt(0)));
    assert_eq!(state, PairState::Finished);
    assert!(matches!(action, PairAction::Done));
}

#[test]
fn finished_pair_stays_finished() {
    let c = cycle();
    let (state, action) = c.check_and_log_opportunity(PAIR, PairState::Finished, Ok(amt(5)));
    assert_eq!(state, PairState::Finished);
    assert!(matches!(action, PairAction::Done));
}

#[test]
fn concentrated_liquidity_legs_use_quoter_and_fee() {
    let c = cycle();
    let pair = PairKey { token: 1, buy: 2, sell: 0 };
    let (_, call) = c.begin_pair(pair);
    match call {
        QuoteCall::ExactInputSingle { quoter, token_in, token_out, fee, amount_in, sqrt_price_limit } => {
            assert_eq!(quoter.bytes[0], 0xb2);
            assert_eq!(token_in.bytes, c.reference.address.bytes);
            assert_eq!(token_out.bytes, c.tokens[1].address.bytes);
            assert_eq!(fee, 3000);
            assert_eq!(amount_in, amt(1_000_000_000));
            assert_eq!(sqrt_price_limit, 0);
        }
        other => panic!("unexpected {:?}", other),
    }
}

#[test]
fn every_directed_pair_is_visited_once() {
    let mut seen = Vec::new();
    let mut cur = first_pair(2, 3);
    while let Some(p) = cur {
        seen.push((p.token, p.buy, p.sell));
        cur = next_pair(p, 2, 3);
    }
    let mut expected = Vec::new();
    for t in 0..2 {
        for i in 0..3 {
            for j in 0..3 {
                if i != j {
                    expected.push((t, i, j));
                }
            }
        }
    }
    assert_eq!(seen, expected);
    assert_eq!(seen.len(), 12);
}

#[test]
fn no_pairs_without_two_exchanges_or_a_token() {
    assert_eq!(first_pair(2, 1), None);
    assert_eq!(first_pair(0, 3), None);
    assert_eq!(first_pair(1, 2), Some(PairKey { token: 0, buy: 0, sell: 1 }));
    assert_eq!(next_pair(PairKey { token: 0, buy: 1, sell: 0 }, 1, 2), None);
}

#[test]
fn round_trip_profit_values() {
    let e = |a: u128, f: u128, c: u128, t: u128| evaluate_round_trip(amt(a), amt(f), amt(c), amt(t));
    assert_eq!(e(1_000_000_000, 1_010_000_000, 1_000_000, 5_000_000), Some(amt(9_000_000)));
    assert_eq!(e(1_000_000_000, 1_004_000_000, 1_000_000, 5_000_000), None);
    assert_eq!(e(1_000_000_000, 1_006_000_000, 1_000_000, 5_000_000), None);
    assert_eq!(e(10, 5, 0, 0), None);
    assert_eq!(e(10, 11, 0, 0), Some(amt(1)));
    assert_eq!(e(0, u128::MAX, 0, 0), Some(amt(u128::MAX)));
}

#[test]
fn round_trip_profit_beyond_128_bits() {
    let final_amount = RawAmount::from_parts(1, 5);
    let r = evaluate_round_trip(amt(10), final_amount, amt(1), amt(0));
    assert_eq!(r, Some(RawAmount::from_parts(0, u128::MAX - 5)));
    let r = evaluate_round_trip(amt(10), final_amount, amt(1), RawAmount::from_parts(0, u128::MAX - 5));
    assert_eq!(r, None);
}
