//! USD prices of tokens, as the exchange gives them, made ready for storing.
use crate::db::decimal::{bigdecimal_from_integer, bigdecimal_parse, bigdecimal_quotient, divide, from_integer, parse, quotient_fits, Decimal};
use crate::db::types::TokenUsdPrice;
use crate::token::{distinct_texts, TokenDict};
use vstd::prelude::*;

verus! {

/// The request for the USD prices of tokens, by address.
pub struct TokenUsdPricesRequest {
    pub currency_addresses: Vec<String>,
}

/// The request for the USD prices of all known tokens: each address once.
pub fn prices_request(tokens: &TokenDict) -> (res: TokenUsdPricesRequest)
    ensures
        distinct_texts(res.currency_addresses@),
        forall|i: int| 0 <= i < res.currency_addresses@.len() ==> tokens@.contains_key(#[trigger] res.currency_addresses@[i]@),
        forall|k: Seq<char>| tokens@.contains_key(k) ==> exists|i: int| 0 <= i < res.currency_addresses@.len() && #[trigger] res.currency_addresses@[i]@ == k,
{
    let currency_addresses = tokens.addresses();
    proof {
        assert forall|k: Seq<char>| tokens@.contains_key(k) implies exists|i: int| 0 <= i < currency_addresses@.len() && #[trigger] currency_addresses@[i]@ == k by {
            let i = choose|i: int| 0 <= i < currency_addresses@.len() && #[trigger] currency_addresses@[i]@ == k;
            assert(currency_addresses@[i]@ == k);
        }
    }
    TokenUsdPricesRequest { currency_addresses }
}

/// Ten to a power.
pub open spec fn pow10(n: nat) -> int
    decreases n,
{
    if n == 0 { 1 } else { 10 * pow10((n - 1) as nat) }
}

/// Ten to a power that fits a machine integer (at most 18).
pub fn ten_to(n: usize) -> (res: i64)
    requires
        n <= 18,
    ensures
        res == pow10(n as nat),
        res > 0,
{
    let mut res: i64 = 1;
    let mut i: usize = 0;
    proof {
        reveal_with_fuel(pow10, 19);
        assert(pow10(18) == 1_000_000_000_000_000_000);
    }
    while i < n
        invariant
            i <= n <= 18,
            res == pow10(i as nat),
            0 < res <= pow10(18),
            pow10(18) == 1_000_000_000_000_000_000,
        decreases n - i,
    {
        proof {
            lemma_pow10_grows(i as nat, 18);
        }
        res = res * 10;
        i = i + 1;
    }
    res
}

/// Ten to a power grows with the power.
proof fn lemma_pow10_grows(a: nat, b: nat)
    requires
        a < b,
    ensures
        0 < pow10(a),
        10 * pow10(a) <= pow10(b),
    decreases b,
{
    if b == a + 1 {
        lemma_pow10_positive(a);
    } else {
        lemma_pow10_grows(a, (b - 1) as nat);
    }
}

proof fn lemma_pow10_positive(a: nat)
    ensures
        0 < pow10(a),
    decreases a,
{
    if a > 0 {
        lemma_pow10_positive((a - 1) as nat);
    }
}

/// An amount read from the exchange's text, zero where it does not read as a number.
pub open spec fn amount_parts(text: Seq<char>) -> (Seq<u8>, i64) {
    match bigdecimal_parse(text) {
        Some(p) => p,
        None => bigdecimal_from_integer(0),
    }
}

/// The USD price of a token with `decimals` decimals, from the exchange's text: the amount
/// divided by ten to the decimals.
pub open spec fn usd_price_parts(text: Seq<char>, decimals: nat) -> (Seq<u8>, i64) {
    let a = amount_parts(text);
    let s = bigdecimal_from_integer(pow10(decimals) as i64);
    bigdecimal_quotient(a.0, a.1, s.0, s.1)
}

/// Whether `bigdecimal` can divide the amount read from the exchange's text by ten to the
/// decimals without its scale overflowing.
pub open spec fn amount_divisible(text: Seq<char>, decimals: nat) -> bool {
    quotient_fits(amount_parts(text), bigdecimal_from_integer(pow10(decimals) as i64))
}

/// The USD prices of tokens to store, at instant `ts`, from the exchange's answer (pairs of
/// token address and price text); every token must be known, with at most 18 decimals.
/// Where some text reads as a nonzero number whose scale is so near `i64::MAX` that the
/// division could overflow it, there is no answer.
pub fn usd_prices(prices: &Vec<(String, String)>, tokens: &TokenDict, ts: i64) -> (res: Option<Vec<TokenUsdPrice>>)
    requires
        forall|i: int| 0 <= i < prices@.len() ==> tokens@.contains_key((#[trigger] prices@[i]).0@)
            && tokens@[prices@[i].0@].decimals <= 18,
    ensures
        res is Some <==> forall|i: int| 0 <= i < prices@.len() ==> amount_divisible((#[trigger] prices@[i]).1@,
            tokens@[prices@[i].0@].decimals as nat),
        res matches Some(v) ==> {
            &&& v@.len() == prices@.len()
            &&& forall|i: int| 0 <= i < prices@.len() ==> {
                &&& (#[trigger] v@[i]).token == prices@[i].0
                &&& v@[i].ts == ts
                &&& v@[i].usd_price.parts() == usd_price_parts(prices@[i].1@, tokens@[prices@[i].0@].decimals as nat)
            }
        },
{
    let mut res: Vec<TokenUsdPrice> = Vec::new();
    for i in 0..prices.len()
        invariant
            forall|j: int| 0 <= j < prices@.len() ==> tokens@.contains_key((#[trigger] prices@[j]).0@)
                && tokens@[prices@[j].0@].decimals <= 18,
            res@.len() == i,
            forall|j: int| 0 <= j < i ==> amount_divisible((#[trigger] prices@[j]).1@,
                tokens@[prices@[j].0@].decimals as nat),
            forall|j: int| 0 <= j < i ==> {
                &&& (#[trigger] res@[j]).token == prices@[j].0
                &&& res@[j].ts == ts
                &&& res@[j].usd_price.parts() == usd_price_parts(prices@[j].1@, tokens@[prices@[j].0@].decimals as nat)
            },
    {
        let (token, price) = &prices[i];
        let decimals = match tokens.get(token) {
            Some(t) => t.decimals,
            None => 0,
        };
        let scale = from_integer(ten_to(decimals));
        let amount = match parse(price.as_str()) {
            Some(a) => a,
            None => Decimal::zero(),
        };
        if !amount.can_divide_by(&scale) {
            return None;
        }
        let usd_price = divide(&amount, &scale);
        res.push(TokenUsdPrice { token: token.clone(), usd_price, ts });
    }
    Some(res)
}

/// The USD price of the main token at instant `ts`, from the exchange's price, which is given
/// in units of nine decimals; none where the price is a nonzero number whose scale is so near
/// `i64::MAX` that the division could overflow it.
pub fn main_token_price(token: &str, price: &Decimal, ts: i64) -> (res: Option<TokenUsdPrice>)
    ensures
        res is Some <==> quotient_fits(price.parts(), bigdecimal_from_integer(1_000_000_000)),
        res matches Some(p) ==> {
            &&& p.token@ == token@
            &&& p.ts == ts
            &&& p.usd_price.parts() == bigdecimal_quotient(price.unscaled@, price.scale,
                bigdecimal_from_integer(1_000_000_000).0, bigdecimal_from_integer(1_000_000_000).1)
        },
{
    let scale = from_integer(1_000_000_000);
    if !price.can_divide_by(&scale) {
        return None;
    }
    Some(TokenUsdPrice { token: token.to_owned(), usd_price: divide(price, &scale), ts })
}

} // verus!
