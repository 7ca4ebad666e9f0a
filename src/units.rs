//! Raw on-chain token amounts and their decimal-scaled form.

use vstd::arithmetic::div_mod::{lemma_div_multiples_vanish, lemma_mod_multiples_basic};
use vstd::prelude::*;

verus! {

/// `10^e` as a mathematical integer.
pub open spec fn pow10(e: nat) -> nat
    decreases e,
{
    if e == 0 {
        1
    } else {
        10 * pow10((e - 1) as nat)
    }
}

/// The character of a decimal digit.
pub open spec fn digit_char(d: nat) -> char {
    seq!['0', '1', '2', '3', '4', '5', '6', '7', '8', '9'][d as int % 10]
}

/// The decimal numeral of `n`, without leading zeros (`0` for zero).
pub open spec fn decimal_text(n: nat) -> Seq<char>
    decreases n,
{
    if n < 10 {
        seq![digit_char(n)]
    } else {
        decimal_text(n / 10).push(digit_char(n % 10))
    }
}

/// `s` with zeros put in front of it up to `width` characters.
pub open spec fn zero_padded(s: Seq<char>, width: nat) -> Seq<char> {
    if s.len() < width {
        Seq::new((width - s.len()) as nat, |i: int| '0') + s
    } else {
        s
    }
}

/// The decimal text of `raw / 10^decimals`: the integer part, a point, then
/// the remainder padded with zeros to `decimals` digits (`5.0` for a raw 5
/// with no decimals, `0.000005` for a raw 5 with six).
pub open spec fn units_text(raw: nat, decimals: nat) -> Seq<char> {
    decimal_text(raw / pow10(decimals)) + seq!['.'] + zero_padded(
        decimal_text(raw % pow10(decimals)),
        decimals,
    )
}

/// `2^128`, the weight of the high half of a [`RawAmount`].
pub open spec fn half_base() -> nat {
    0x1_0000_0000_0000_0000_0000_0000_0000_0000nat
}

/// The largest value a [`RawAmount`] holds, `2^256 - 1`.
pub open spec fn max_amount() -> nat {
    0xffff_ffff_ffff_ffff_ffff_ffff_ffff_ffff_ffff_ffff_ffff_ffff_ffff_ffff_ffff_ffffnat
}

/// An unsigned 256-bit amount of a token in its smallest unit, held as two
/// 128-bit halves.
#[derive(Clone, Copy, Debug, PartialEq, Eq)]
pub struct RawAmount {
    pub hi: u128,
    pub lo: u128,
}

impl RawAmount {
    /// The amount as a number: `hi * 2^128 + lo`.
    pub open spec fn value(self) -> nat {
        self.hi as nat * half_base() + self.lo as nat
    }

    /// The amount `x`.
    pub fn from_u128(x: u128) -> (r: RawAmount)
        ensures
            r.value() == x,
    {
        RawAmount { hi: 0, lo: x }
    }

    /// The amount made of two halves.
    pub fn from_parts(hi: u128, lo: u128) -> (r: RawAmount)
        ensures
            r.hi == hi,
            r.lo == lo,
            r.value() == hi as nat * half_base() + lo as nat,
    {
        RawAmount { hi, lo }
    }

    pub fn is_zero(&self) -> (r: bool)
        ensures
            r == (self.value() == 0),
    {
        self.hi == 0 && self.lo == 0
    }

    /// Whether `self` is strictly greater than `other`.
    pub fn gt(&self, other: &RawAmount) -> (r: bool)
        ensures
            r == (self.value() > other.value()),
    {
        self.hi > other.hi || (self.hi == other.hi && self.lo > other.lo)
    }

    /// The sum, where it is at most `2^256 - 1`.
    pub fn checked_add(&self, other: &RawAmount) -> (r: Option<RawAmount>)
        ensures
            self.value() + other.value() <= max_amount() ==> (r matches Some(s) && s.value()
                == self.value() + other.value()),
            self.value() + other.value() > max_amount() ==> r is None,
    {
        let (lo, carry) = match self.lo.checked_add(other.lo) {
            Some(s) => (s, 0u128),
            None => (self.lo - (u128::MAX - other.lo) - 1, 1u128),
        };
        assert(self.lo + other.lo == lo + carry * half_base());
        match self.hi.checked_add(other.hi) {
            Some(h) => match h.checked_add(carry) {
                Some(hi) => Some(RawAmount { hi, lo }),
                None => {
                    proof {
                        lemma_high_overflow(h + carry, lo as int);
                    }
                    None
                },
            },
            None => {
                proof {
                    lemma_high_overflow(self.hi + other.hi + carry, lo as int);
                }
                None
            },
        }
    }

    /// Ten times the amount, where it is at most `2^256 - 1`.
    pub fn times_ten(&self) -> (r: Option<RawAmount>)
        ensures
            self.value() * 10 <= max_amount() ==> (r matches Some(t) && t.value() == self.value()
                * 10),
            self.value() * 10 > max_amount() ==> r is None,
    {
        let two = match self.checked_add(self) {
            Some(x) => x,
            None => {
                return None;
            },
        };
        let four = match two.checked_add(&two) {
            Some(x) => x,
            None => {
                return None;
            },
        };
        let eight = match four.checked_add(&four) {
            Some(x) => x,
            None => {
                return None;
            },
        };
        eight.checked_add(&two)
    }

    /// The difference, where `other` is at most `self`.
    pub fn checked_sub(&self, other: &RawAmount) -> (r: Option<RawAmount>)
        ensures
            self.value() >= other.value() ==> (r matches Some(d) && d.value() == self.value()
                - other.value()),
            self.value() < other.value() ==> r is None,
    {
        let (lo, borrow) = if self.lo >= other.lo {
            (self.lo - other.lo, 0u128)
        } else {
            (u128::MAX - (other.lo - self.lo) + 1, 1u128)
        };
        match self.hi.checked_sub(other.hi) {
            Some(h) => match h.checked_sub(borrow) {
                Some(hi) => Some(RawAmount { hi, lo }),
                None => None,
            },
            None => None,
        }
    }
}

/// An amount in a token's smallest unit together with the token's decimal
/// count; it stands for the value `raw / 10^decimals`.
#[derive(Clone, Copy, Debug)]
pub struct DecimalAmount {
    pub raw: RawAmount,
    pub decimals: u8,
}

/// Relies on `ethers::utils::format_units` on an unsigned 256-bit amount: for
/// fewer than 78 decimals it gives `{integer}.{remainder}` with the remainder
/// padded with zeros to `decimals` digits. The amount is formed from its two
/// halves.
#[verifier::external_body]
fn format_units_text(raw: RawAmount, decimals: u8) -> (r: String)
    requires
        decimals < 78,
    ensures
        r@ == units_text(raw.value(), decimals as nat),
{
    let amount = (ethers::types::U256::from(raw.hi) << 128) | ethers::types::U256::from(raw.lo);
    ethers::utils::format_units(amount, decimals as u32).unwrap_or_default()
}

impl DecimalAmount {
    /// Pairs a raw amount with the decimal count of the token it is counted in.
    pub fn new(raw: RawAmount, decimals: u8) -> (r: DecimalAmount)
        ensures
            r.raw == raw,
            r.decimals == decimals,
    {
        DecimalAmount { raw, decimals }
    }

    /// Whole units of the token: `raw / 10^decimals`, rounded down.
    pub open spec fn whole_spec(self) -> nat {
        self.raw.value() / pow10(self.decimals as nat)
    }

    /// The part below one whole unit, in raw units.
    pub open spec fn fraction_spec(self) -> nat {
        self.raw.value() % pow10(self.decimals as nat)
    }

    /// The amount as decimal text, for instance `1000.000000` for a raw
    /// `1000000000` with six decimals.
    pub fn text(&self) -> (r: String)
        requires
            self.decimals < 78,
        ensures
            r@ == units_text(self.raw.value(), self.decimals as nat),
    {
        format_units_text(self.raw, self.decimals)
    }
}

/// `amount * 10^decimals` when it fits in 256 bits.
pub fn scale_up(amount: u64, decimals: u8) -> (r: Option<RawAmount>)
    ensures
        amount as nat * pow10(decimals as nat) <= max_amount() ==> (r matches Some(x) && x.value()
            == amount as nat * pow10(decimals as nat)),
        amount as nat * pow10(decimals as nat) > max_amount() ==> r is None,
{
    let mut acc = RawAmount::from_u128(amount as u128);
    let mut k: u8 = 0;
    assert(pow10(0) == 1);
    assert(amount as nat * 1 == amount as nat);
    while k < decimals
        invariant
            k <= decimals,
            acc.value() == amount as nat * pow10(k as nat),
        decreases decimals - k,
    {
        proof {
            lemma_scale_step(amount as nat, k as nat);
        }
        match acc.times_ten() {
            Some(next) => {
                acc = next;
                k = k + 1;
            },
            None => {
                proof {
                    lemma_scale_grows(amount as nat, (k + 1) as nat, decimals as nat);
                }
                return None;
            },
        }
    }
    Some(acc)
}

proof fn lemma_scale_step(a: nat, k: nat)
    ensures
        a * pow10(k + 1) == (a * pow10(k)) * 10,
{
    assert(pow10(k + 1) == 10 * pow10(k));
    assert(a * (10 * pow10(k)) == (a * pow10(k)) * 10) by (nonlinear_arith);
}

proof fn lemma_pow10_monotone(i: nat, j: nat)
    requires
        i <= j,
    ensures
        pow10(i) <= pow10(j),
    decreases j - i,
{
    if i < j {
        lemma_pow10_monotone(i, (j - 1) as nat);
        assert(pow10(j) == 10 * pow10((j - 1) as nat));
    }
}

proof fn lemma_scale_grows(a: nat, i: nat, j: nat)
    requires
        i <= j,
    ensures
        a * pow10(i) <= a * pow10(j),
{
    lemma_pow10_monotone(i, j);
    assert(a * pow10(i) <= a * pow10(j)) by (nonlinear_arith)
        requires
            pow10(i) <= pow10(j),
    ;
}

proof fn lemma_pow10_positive(e: nat)
    ensures
        pow10(e) > 0,
    decreases e,
{
    if e > 0 {
        lemma_pow10_positive((e - 1) as nat);
    }
}

/// A whole number of units scaled by a token's decimals reads back as that
/// same whole number, with nothing below the point: `amount * 10^d` raw units
/// with `d` decimals is exactly `amount`, and its text is the numeral of
/// `amount`, a point, and zeros.
pub proof fn lemma_scaled_amount_is_whole(amount: nat, d: DecimalAmount)
    requires
        d.raw.value() == amount * pow10(d.decimals as nat),
    ensures
        d.whole_spec() == amount,
        d.fraction_spec() == 0,
        units_text(d.raw.value(), d.decimals as nat) == decimal_text(amount) + seq!['.']
            + zero_padded(seq!['0'], d.decimals as nat),
{
    let p = pow10(d.decimals as nat);
    lemma_pow10_positive(d.decimals as nat);
    assert(amount * p == p * amount) by (nonlinear_arith);
    lemma_div_multiples_vanish(amount as int, p as int);
    lemma_mod_multiples_basic(amount as int, p as int);
    assert(decimal_text(0) == seq!['0']);
}

proof fn lemma_high_overflow(h: int, lo: int)
    requires
        h >= half_base(),
        lo >= 0,
    ensures
        h * half_base() + lo > max_amount(),
{
    assert(h * half_base() >= half_base() * half_base()) by (nonlinear_arith)
        requires
            h >= half_base(),
    ;
}

} // verus!
