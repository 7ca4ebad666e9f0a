//! The opportunity evaluator: one detection cycle over every directed pair of
//! exchanges and every configured token.

use vstd::prelude::*;

use crate::config::{Config, DexConfig, TokenConfig};
use crate::dex::{
    address_of, is_quote_call, parse_address, quote_call, Address, Dex, DexType, QuoteCall,
    QuoteError,
};
use crate::units::{max_amount, pow10, scale_up, DecimalAmount, RawAmount};

verus! {

/// A token with its address read: symbol, address, decimal count.
#[derive(Clone, Debug)]
pub struct TokenPair {
    pub symbol: String,
    pub address: Address,
    pub decimals: u8,
}

/// Why a detection cycle could not begin.
#[derive(Clone, Debug)]
pub enum CycleError {
    /// This configured address text is not an address.
    InvalidAddress(String),
    /// The trade amount scaled by the reference asset's decimals does not fit.
    AmountOverflow,
}

/// Everything one detection cycle reads: the fixed input amount of the
/// reference asset in raw units, the assets, the exchanges, and the profit
/// settings in raw units of the reference asset.
#[derive(Clone, Debug)]
pub struct Cycle {
    pub amount_in: RawAmount,
    pub reference: TokenPair,
    pub tokens: Vec<TokenPair>,
    pub dexes: Vec<Dex>,
    pub min_profit_threshold: RawAmount,
    pub simulated_gas_cost: RawAmount,
}

pub open spec fn address_ok(s: Seq<char>) -> bool {
    address_of(s) is Some
}

/// `a` is the address read from `s`.
pub open spec fn address_read(a: Address, s: Seq<char>) -> bool {
    address_of(s) == Some(a.bytes@)
}

pub open spec fn token_config_ok(t: TokenConfig) -> bool {
    address_ok(t.address@)
}

pub open spec fn dex_config_ok(d: DexConfig) -> bool {
    address_ok(d.router_address@) && match d.quoter {
        Some(q) => address_ok(q.quoter_address@),
        None => true,
    }
}

/// `t` is the configured token `c` with its address read.
pub open spec fn token_from(t: TokenPair, c: TokenConfig) -> bool {
    t.symbol@ == c.symbol@ && t.decimals == c.decimals && address_read(t.address, c.address@)
}

/// `d` is the configured exchange `c` with its addresses read.
pub open spec fn dex_from(d: Dex, c: DexConfig) -> bool {
    d.name@ == c.name@ && address_read(d.router_address, c.router_address@) && match c.quoter {
        None => d.dex_type is UniswapV2,
        Some(q) => match d.dex_type {
            DexType::UniswapV3 { quoter_address, fee } => fee == q.fee && address_read(
                quoter_address,
                q.quoter_address@,
            ),
            DexType::UniswapV2 => false,
        },
    }
}

/// The trade amount in raw units of the reference asset.
pub open spec fn scaled_trade_amount(config: Config) -> nat {
    config.trade_amount as nat * pow10(config.reference.decimals as nat)
}

pub open spec fn addresses_ok(config: Config) -> bool {
    &&& token_config_ok(config.reference)
    &&& forall|i: int| 0 <= i < config.tokens.len() ==> token_config_ok(#[trigger] config.tokens[i])
    &&& forall|i: int| 0 <= i < config.dexes.len() ==> dex_config_ok(#[trigger] config.dexes[i])
}

fn read_token(c: &TokenConfig) -> (r: Result<TokenPair, CycleError>)
    ensures
        match r {
            Ok(t) => token_config_ok(*c) && token_from(t, *c),
            Err(e) => !token_config_ok(*c) && e == CycleError::InvalidAddress(c.address),
        },
{
    match parse_address(c.address.as_str()) {
        Some(address) => Ok(TokenPair { symbol: c.symbol.clone(), address, decimals: c.decimals }),
        None => Err(CycleError::InvalidAddress(c.address.clone())),
    }
}

fn read_dex(c: &DexConfig) -> (r: Result<Dex, CycleError>)
    ensures
        match r {
            Ok(d) => dex_config_ok(*c) && dex_from(d, *c),
            Err(CycleError::InvalidAddress(s)) => !dex_config_ok(*c),
            Err(CycleError::AmountOverflow) => false,
        },
{
    let router_address = match parse_address(c.router_address.as_str()) {
        Some(a) => a,
        None => {
            return Err(CycleError::InvalidAddress(c.router_address.clone()));
        },
    };
    let dex_type = match &c.quoter {
        None => DexType::UniswapV2,
        Some(q) => match parse_address(q.quoter_address.as_str()) {
            Some(quoter_address) => DexType::UniswapV3 { quoter_address, fee: q.fee },
            None => {
                return Err(CycleError::InvalidAddress(q.quoter_address.clone()));
            },
        },
    };
    Ok(Dex { name: c.name.clone(), router_address, dex_type })
}

/// Begins one detection cycle: reads every configured address and fixes the
/// input amount of the reference asset. It fails only where the cycle cannot
/// begin: an address text that is not an address, or a trade amount that does
/// not fit once scaled.
pub fn check_arbitrage_opportunities(config: &Config) -> (r: Result<Cycle, CycleError>)
    ensures
        r is Ok <==> addresses_ok(*config) && scaled_trade_amount(*config) <= max_amount(),
        r is Err && addresses_ok(*config) ==> r == Err::<Cycle, CycleError>(
            CycleError::AmountOverflow,
        ),
        match r {
            Ok(cycle) => {
                &&& cycle.amount_in.value() == scaled_trade_amount(*config)
                &&& token_from(cycle.reference, config.reference)
                &&& cycle.tokens.len() == config.tokens.len()
                &&& forall|i: int|
                    0 <= i < cycle.tokens.len() ==> token_from(
                        #[trigger] cycle.tokens[i],
                        config.tokens[i],
                    )
                &&& cycle.dexes.len() == config.dexes.len()
                &&& forall|i: int|
                    0 <= i < cycle.dexes.len() ==> dex_from(
                        #[trigger] cycle.dexes[i],
                        config.dexes[i],
                    )
                &&& cycle.min_profit_threshold == config.min_profit_threshold
                &&& cycle.simulated_gas_cost == config.simulated_gas_cost
            },
            Err(_) => true,
        },
{
    let reference = read_token(&config.reference)?;
    let mut tokens: Vec<TokenPair> = Vec::new();
    let mut i: usize = 0;
    while i < config.tokens.len()
        invariant
            i <= config.tokens.len(),
            tokens.len() == i,
            forall|k: int| 0 <= k < i ==> token_config_ok(#[trigger] config.tokens[k]),
            forall|k: int| 0 <= k < i ==> token_from(#[trigger] tokens[k], config.tokens[k]),
        decreases config.tokens.len() - i,
    {
        match read_token(&config.tokens[i]) {
            Ok(t) => tokens.push(t),
            Err(e) => {
                return Err(e);
            },
        }
        i = i + 1;
    }
    let mut dexes: Vec<Dex> = Vec::new();
    let mut j: usize = 0;
    while j < config.dexes.len()
        invariant
            j <= config.dexes.len(),
            dexes.len() == j,
            forall|k: int| 0 <= k < j ==> dex_config_ok(#[trigger] config.dexes[k]),
            forall|k: int| 0 <= k < j ==> dex_from(#[trigger] dexes[k], config.dexes[k]),
        decreases config.dexes.len() - j,
    {
        match read_dex(&config.dexes[j]) {
            Ok(d) => dexes.push(d),
            Err(e) => {
                return Err(e);
            },
        }
        j = j + 1;
    }
    let amount_in = match scale_up(config.trade_amount, config.reference.decimals) {
        Some(a) => a,
        None => {
            return Err(CycleError::AmountOverflow);
        },
    };
    Ok(Cycle {
        amount_in,
        reference,
        tokens,
        dexes,
        min_profit_threshold: config.min_profit_threshold,
        simulated_gas_cost: config.simulated_gas_cost,
    })
}

/// One evaluation of a cycle: the token at `token`, bought on the exchange at
/// `buy` and sold back on the exchange at `sell`.
#[derive(Clone, Copy, Debug, PartialEq, Eq)]
pub struct PairKey {
    pub token: usize,
    pub buy: usize,
    pub sell: usize,
}

/// `p` names a token and two distinct exchanges among the ones given.
pub open spec fn valid_pair(p: PairKey, n_tokens: nat, n_dexes: nat) -> bool {
    p.token < n_tokens && p.buy < n_dexes && p.sell < n_dexes && p.buy != p.sell
}

/// The order in which pairs are evaluated: by token, then buying exchange,
/// then selling exchange.
pub open spec fn pair_before(a: PairKey, b: PairKey) -> bool {
    a.token < b.token || (a.token == b.token && (a.buy < b.buy || (a.buy == b.buy && a.sell
        < b.sell)))
}

/// The first pair a cycle evaluates: the least valid pair, or `None` where
/// there is none (no token, or fewer than two exchanges).
pub fn first_pair(n_tokens: usize, n_dexes: usize) -> (r: Option<PairKey>)
    ensures
        match r {
            Some(q) => valid_pair(q, n_tokens as nat, n_dexes as nat) && forall|x: PairKey|
                valid_pair(x, n_tokens as nat, n_dexes as nat) ==> !pair_before(x, q),
            None => forall|x: PairKey| !valid_pair(x, n_tokens as nat, n_dexes as nat),
        },
{
    if n_tokens > 0 && n_dexes >= 2 {
        Some(PairKey { token: 0, buy: 0, sell: 1 })
    } else {
        None
    }
}

/// The pair evaluated after `p`: the least valid pair that comes after it, or
/// `None` where `p` is the last. Each token with each ordered pair of distinct
/// exchanges thus comes exactly once, and an exchange is never paired with
/// itself.
pub fn next_pair(p: PairKey, n_tokens: usize, n_dexes: usize) -> (r: Option<PairKey>)
    requires
        p.token < n_tokens,
        p.buy < n_dexes,
        p.sell < n_dexes,
    ensures
        match r {
            Some(q) => {
                &&& valid_pair(q, n_tokens as nat, n_dexes as nat)
                &&& pair_before(p, q)
                &&& forall|x: PairKey|
                    valid_pair(x, n_tokens as nat, n_dexes as nat) && pair_before(p, x)
                        ==> !pair_before(x, q)
            },
            None => forall|x: PairKey|
                valid_pair(x, n_tokens as nat, n_dexes as nat) ==> !pair_before(p, x),
        },
{
    let mut sell = p.sell + 1;
    if sell == p.buy {
        sell = sell + 1;
    }
    if sell < n_dexes {
        return Some(PairKey { token: p.token, buy: p.buy, sell });
    }
    if p.buy + 1 < n_dexes {
        return Some(PairKey { token: p.token, buy: p.buy + 1, sell: 0 });
    }
    if p.token + 1 < n_tokens && n_dexes >= 2 {
        return Some(PairKey { token: p.token + 1, buy: 0, sell: 1 });
    }
    None
}

/// Net profit of a round trip in raw units of the reference asset: what came
/// back, less what went in, less the simulated cost.
pub open spec fn net_profit_spec(amount_in: nat, final_amount: nat, cost: nat) -> int {
    (final_amount - amount_in) - cost
}

/// A round trip qualifies when its net profit is strictly above the threshold.
pub open spec fn qualifies(amount_in: nat, final_amount: nat, cost: nat, threshold: nat) -> bool {
    net_profit_spec(amount_in, final_amount, cost) > threshold
}

/// The net profit of a round trip that put in `amount_in` and got back
/// `final_amount`, both in raw units of the same asset, where it is strictly
/// above `threshold`; `None` otherwise, a profit equal to the threshold
/// included.
pub fn evaluate_round_trip(
    amount_in: RawAmount,
    final_amount: RawAmount,
    cost: RawAmount,
    threshold: RawAmount,
) -> (r: Option<RawAmount>)
    ensures
        r is Some <==> qualifies(
            amount_in.value(),
            final_amount.value(),
            cost.value(),
            threshold.value(),
        ),
        match r {
            Some(net) => net.value() == net_profit_spec(
                amount_in.value(),
                final_amount.value(),
                cost.value(),
            ),
            None => true,
        },
{
    let gross = match final_amount.checked_sub(&amount_in) {
        Some(g) => g,
        None => {
            return None;
        },
    };
    let net = match gross.checked_sub(&cost) {
        Some(n) => n,
        None => {
            return None;
        },
    };
    if net.gt(&threshold) {
        Some(net)
    } else {
        None
    }
}

/// A qualifying round trip, with its amounts in decimal form: what was put in
/// and what came back in the reference asset, what was bought in between in
/// the other token, and the net profit in the reference asset.
#[derive(Clone, Debug)]
pub struct Opportunity {
    pub buy_exchange: String,
    pub sell_exchange: String,
    pub buy_token_symbol: String,
    pub sell_token_symbol: String,
    pub amount_in: DecimalAmount,
    pub intermediate_amount: DecimalAmount,
    pub amount_out: DecimalAmount,
    pub net_profit: DecimalAmount,
}

/// The leg of a round trip.
#[derive(Clone, Copy, Debug, PartialEq, Eq)]
pub enum Leg {
    /// Reference asset to token, on the buying exchange.
    Buy,
    /// Token back to reference asset, on the selling exchange.
    Sell,
}

/// Where the evaluation of one pair stands.
#[derive(Clone, Copy, Debug, PartialEq, Eq)]
pub enum PairState {
    /// The buying leg's quote has been asked for.
    AwaitingBuy,
    /// The selling leg's quote, for this intermediate amount, has been asked for.
    AwaitingSell { intermediate: RawAmount },
    /// Nothing more is done for this pair.
    Finished,
}

/// What the caller does next for a pair.
#[derive(Clone, Debug)]
pub enum PairAction {
    /// Ask for this quote and hand back the amount read from the answer.
    Quote(QuoteCall),
    /// Record this opportunity.
    Record(Opportunity),
    /// The pair is dropped because a quote was unavailable; worth a warning.
    Abandon { leg: Leg, error: QuoteError },
    /// The pair is done with nothing to record.
    Done,
}

impl Cycle {
    /// The query for the buying leg of `p`: the fixed input amount of the
    /// reference asset, into the pair's token, on the buying exchange.
    pub open spec fn is_buy_call(self, p: PairKey, c: QuoteCall) -> bool {
        is_quote_call(
            c,
            self.dexes[p.buy as int],
            self.amount_in,
            self.reference.address,
            self.tokens[p.token as int].address,
        )
    }

    /// The query for the selling leg of `p`: the intermediate amount of the
    /// pair's token, back into the reference asset, on the selling exchange.
    pub open spec fn is_sell_call(self, p: PairKey, intermediate: RawAmount, c: QuoteCall) -> bool {
        is_quote_call(
            c,
            self.dexes[p.sell as int],
            intermediate,
            self.tokens[p.token as int].address,
            self.reference.address,
        )
    }

    /// `o` reports the round trip of `p` that bought `intermediate` and got
    /// back `final_amount`. Amounts in the reference asset are scaled by its
    /// own decimals, the intermediate one by the token's.
    pub open spec fn is_opportunity(
        self,
        p: PairKey,
        intermediate: RawAmount,
        final_amount: RawAmount,
        o: Opportunity,
    ) -> bool {
        &&& o.buy_exchange@ == self.dexes[p.buy as int].name@
        &&& o.sell_exchange@ == self.dexes[p.sell as int].name@
        &&& o.buy_token_symbol@ == self.reference.symbol@
        &&& o.sell_token_symbol@ == self.tokens[p.token as int].symbol@
        &&& o.amount_in == DecimalAmount { raw: self.amount_in, decimals: self.reference.decimals }
        &&& o.intermediate_amount == DecimalAmount {
            raw: intermediate,
            decimals: self.tokens[p.token as int].decimals,
        }
        &&& o.amount_out == DecimalAmount { raw: final_amount, decimals: self.reference.decimals }
        &&& o.net_profit.decimals == self.reference.decimals
        &&& o.net_profit.raw.value() == net_profit_spec(
            self.amount_in.value(),
            final_amount.value(),
            self.simulated_gas_cost.value(),
        )
    }

    pub open spec fn qualifies_spec(self, final_amount: RawAmount) -> bool {
        qualifies(
            self.amount_in.value(),
            final_amount.value(),
            self.simulated_gas_cost.value(),
            self.min_profit_threshold.value(),
        )
    }


    /// The step that `check_and_log_opportunity` takes: `r` follows from
    /// `state` and the amount `quoted` for the pair `p`.
    pub open spec fn step_spec(
        self,
        p: PairKey,
        state: PairState,
        quoted: Result<RawAmount, QuoteError>,
        r: (PairState, PairAction),
    ) -> bool {
        match state {
            PairState::AwaitingBuy => match quoted {
                Err(e) => r == (
                    PairState::Finished,
                    PairAction::Abandon { leg: Leg::Buy, error: e },
                ),
                Ok(x) => if x.value() == 0 {
                    r == (PairState::Finished, PairAction::Done)
                } else {
                    &&& r.0 == (PairState::AwaitingSell { intermediate: x })
                    &&& r.1 matches PairAction::Quote(c) && self.is_sell_call(p, x, c)
                },
            },
            PairState::AwaitingSell { intermediate } => match quoted {
                Err(e) => r == (
                    PairState::Finished,
                    PairAction::Abandon { leg: Leg::Sell, error: e },
                ),
                Ok(f) => {
                    &&& r.0 == PairState::Finished
                    &&& if self.qualifies_spec(f) {
                        r.1 matches PairAction::Record(o) && self.is_opportunity(
                            p,
                            intermediate,
                            f,
                            o,
                        )
                    } else {
                        r.1 is Done
                    }
                },
            },
            PairState::Finished => r == (PairState::Finished, PairAction::Done),
        }
    }

    /// Starts the evaluation of `p` by asking for its buying leg.
    pub fn begin_pair(&self, p: PairKey) -> (r: (PairState, QuoteCall))
        requires
            valid_pair(p, self.tokens.len() as nat, self.dexes.len() as nat),
        ensures
            r.0 == PairState::AwaitingBuy,
            self.is_buy_call(p, r.1),
    {
        let call = quote_call(
            &self.dexes[p.buy],
            self.amount_in,
            self.reference.address,
            self.tokens[p.token].address,
        );
        (PairState::AwaitingBuy, call)
    }

    /// Takes one step of the evaluation of `p`, given the amount read from the
    /// answer to the quote that was last asked for. A failed quote drops the
    /// pair; a zero intermediate amount drops it without asking for the
    /// selling leg; otherwise the selling leg is asked for with the
    /// intermediate amount, and its answer decides whether an opportunity is
    /// recorded.
    pub fn check_and_log_opportunity(
        &self,
        p: PairKey,
        state: PairState,
        quoted: Result<RawAmount, QuoteError>,
    ) -> (r: (PairState, PairAction))
        requires
            valid_pair(p, self.tokens.len() as nat, self.dexes.len() as nat),
        ensures
            self.step_spec(p, state, quoted, r),
    {
        match state {
            PairState::AwaitingBuy => match quoted {
                Err(error) => (PairState::Finished, PairAction::Abandon { leg: Leg::Buy, error }),
                Ok(intermediate) => {
                    if intermediate.is_zero() {
                        (PairState::Finished, PairAction::Done)
                    } else {
                        let call = quote_call(
                            &self.dexes[p.sell],
                            intermediate,
                            self.tokens[p.token].address,
                            self.reference.address,
                        );
                        (PairState::AwaitingSell { intermediate }, PairAction::Quote(call))
                    }
                },
            },
            PairState::AwaitingSell { intermediate } => match quoted {
                Err(error) => (PairState::Finished, PairAction::Abandon { leg: Leg::Sell, error }),
                Ok(final_amount) => {
                    match evaluate_round_trip(
                        self.amount_in,
                        final_amount,
                        self.simulated_gas_cost,
                        self.min_profit_threshold,
                    ) {
                        Some(net) => {
                            let o = self.opportunity(p, intermediate, final_amount, net);
                            (PairState::Finished, PairAction::Record(o))
                        },
                        None => (PairState::Finished, PairAction::Done),
                    }
                },
            },
            PairState::Finished => (PairState::Finished, PairAction::Done),
        }
    }

    fn opportunity(
        &self,
        p: PairKey,
        intermediate: RawAmount,
        final_amount: RawAmount,
        net: RawAmount,
    ) -> (o: Opportunity)
        requires
            valid_pair(p, self.tokens.len() as nat, self.dexes.len() as nat),
            net.value() == net_profit_spec(
                self.amount_in.value(),
                final_amount.value(),
                self.simulated_gas_cost.value(),
            ),
        ensures
            self.is_opportunity(p, intermediate, final_amount, o),
    {
        let decimals = self.reference.decimals;
        Opportunity {
            buy_exchange: self.dexes[p.buy].name.clone(),
            sell_exchange: self.dexes[p.sell].name.clone(),
            buy_token_symbol: self.reference.symbol.clone(),
            sell_token_symbol: self.tokens[p.token].symbol.clone(),
            amount_in: DecimalAmount::new(self.amount_in, decimals),
            intermediate_amount: DecimalAmount::new(intermediate, self.tokens[p.token].decimals),
            amount_out: DecimalAmount::new(final_amount, decimals),
            net_profit: DecimalAmount::new(net, decimals),
        }
    }
}

/// The evaluation order is a strict total order on pairs: no pair comes before
/// itself, it is transitive, and of two different pairs one comes first. With
/// `first_pair` giving the least valid pair and `next_pair` the least valid
/// pair after the current one, every token with every ordered pair of distinct
/// exchanges is thus evaluated exactly once.
pub proof fn lemma_pair_order_total(a: PairKey, b: PairKey, c: PairKey)
    ensures
        !pair_before(a, a),
        pair_before(a, b) && pair_before(b, c) ==> pair_before(a, c),
        a != b ==> pair_before(a, b) || pair_before(b, a),
        !(pair_before(a, b) && pair_before(b, a)),
{
}

/// A failed quote, on either leg, drops the pair: nothing is recorded for it
/// and nothing more is asked for it, so the cycle goes on with the next pair.
pub proof fn lemma_failed_quote_drops_pair(
    cycle: Cycle,
    p: PairKey,
    state: PairState,
    error: QuoteError,
    r: (PairState, PairAction),
)
    requires
        cycle.step_spec(p, state, Err(error), r),
    ensures
        r.0 == PairState::Finished,
        !(r.1 is Record),
        !(r.1 is Quote),
{
}

/// A zero amount from the buying leg ends the pair without asking for the
/// selling leg.
pub proof fn lemma_zero_buy_quote_skips_sell_leg(
    cycle: Cycle,
    p: PairKey,
    quoted: RawAmount,
    r: (PairState, PairAction),
)
    requires
        quoted.value() == 0,
        cycle.step_spec(p, PairState::AwaitingBuy, Ok(quoted), r),
    ensures
        r.0 == PairState::Finished,
        !(r.1 is Quote),
        !(r.1 is Record),
{
}

/// An opportunity is recorded exactly when the net profit of the round trip,
/// `(final - in) - cost` in raw units of the reference asset, is strictly
/// above the threshold; both amounts are scaled by the reference asset's own
/// decimals, and the net profit reported is that difference.
pub proof fn lemma_record_iff_profitable(
    cycle: Cycle,
    p: PairKey,
    intermediate: RawAmount,
    final_amount: RawAmount,
    r: (PairState, PairAction),
)
    requires
        cycle.step_spec(p, PairState::AwaitingSell { intermediate }, Ok(final_amount), r),
    ensures
        r.1 is Record <==> (final_amount.value() - cycle.amount_in.value())
            - cycle.simulated_gas_cost.value() > cycle.min_profit_threshold.value(),
        r.1 matches PairAction::Record(o) ==> {
            &&& o.amount_in.decimals == cycle.reference.decimals
            &&& o.amount_out.decimals == cycle.reference.decimals
            &&& o.amount_in.raw == cycle.amount_in
            &&& o.amount_out.raw == final_amount
            &&& o.net_profit.raw.value() == (o.amount_out.raw.value() - o.amount_in.raw.value())
                - cycle.simulated_gas_cost.value()
        },
{
}

} // verus!
