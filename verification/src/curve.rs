//! The bonding curve's pure arithmetic.
//!
//! A launch sells along a constant product of two virtual reserves: the quote
//! reserve `virtual_quote + real_quote` and the token reserve `token_floor +
//! tokens_remaining`. The trading fee is taken on the quote leg in both
//! directions. Every rounding goes against the trader, so the product never
//! shrinks; a buy that reaches the end of the curve is filled in part.
use crate::BPS;
use crate::u256::{
    div_ceil, lemma_div_ceil, lemma_div_ceil_least, lemma_div_floor, lemma_div_floor_greatest,
    mul_div_ceil, mul_div_floor, mul_wide, U256,
};
use vstd::prelude::*;

verus! {

/// What prices a launch and never changes.
#[derive(Clone, Copy, PartialEq, Eq, Debug)]
pub struct Terms {
    pub virtual_quote: u128,
    pub token_floor: u128,
    pub fee_bps: u128,
}

/// What a trade moves.
#[derive(Clone, Copy, PartialEq, Eq, Debug)]
pub struct State {
    pub real_quote: u128,
    pub tokens_remaining: u128,
}

/// A priced buy. `quote_used` leaves the buyer, of which `quote_net_used`
/// stays on the curve and `fee` is routed.
#[derive(Clone, Copy, PartialEq, Eq, Debug)]
pub struct BuyQuote {
    pub quote_used: u128,
    pub fee: u128,
    pub quote_net_used: u128,
    pub tokens_out: u128,
}

/// A priced sell. `quote_gross` leaves the curve, of which `quote_out` reaches
/// the seller and `fee` is routed.
#[derive(Clone, Copy, PartialEq, Eq, Debug)]
pub struct SellQuote {
    pub quote_gross: u128,
    pub fee: u128,
    pub quote_out: u128,
}

/// Why a trade has no price.
#[derive(Clone, Copy, PartialEq, Eq, Debug)]
pub enum MathError {
    ZeroAmount,
    Overflow,
    /// The trade would deliver nothing to the trader.
    Unquotable,
    /// The terms or the state are not those of a trading curve.
    BadState,
}

/// The virtual quote reserve.
pub open spec fn quote_reserve(t: Terms, s: State) -> int {
    t.virtual_quote + s.real_quote
}

/// The virtual token reserve.
pub open spec fn token_reserve(t: Terms, s: State) -> int {
    t.token_floor + s.tokens_remaining
}

/// The constant product.
pub open spec fn product(t: Terms, s: State) -> int {
    quote_reserve(t, s) * token_reserve(t, s)
}

/// Both virtual reserves fit in a balance.
pub open spec fn reserves_fit(t: Terms, s: State) -> bool {
    quote_reserve(t, s) <= u128::MAX && token_reserve(t, s) <= u128::MAX
}

/// Terms under which a trade can be priced.
pub open spec fn priceable(t: Terms, s: State) -> bool {
    t.fee_bps < BPS && t.token_floor > 0 && quote_reserve(t, s) > 0
}

/// The fee on a gross amount of quote, rounded up.
pub open spec fn fee_on(t: Terms, gross: int) -> int {
    div_ceil(gross * t.fee_bps, BPS as int)
}

/// Tokens that `net` quote buys: the most that leaves the product no smaller.
pub open spec fn tokens_for(t: Terms, s: State, net: int) -> int {
    token_reserve(t, s) * net / (quote_reserve(t, s) + net)
}

/// Net quote that buys everything that is left: the least that leaves the
/// product no smaller.
pub open spec fn net_to_finish(t: Terms, s: State) -> int {
    div_ceil(quote_reserve(t, s) * s.tokens_remaining, t.token_floor as int)
}

/// The least gross amount of which `net` remains after the fee.
pub open spec fn gross_for(t: Terms, net: int) -> int {
    div_ceil(net * BPS, BPS - t.fee_bps)
}

/// Quote that leaves the curve for `tokens_in`: the most that leaves the
/// product no smaller.
pub open spec fn gross_out(t: Terms, s: State, tokens_in: int) -> int {
    quote_reserve(t, s) * tokens_in / (token_reserve(t, s) + tokens_in)
}

/// The price of a buy.
pub open spec fn buy_quote(t: Terms, s: State, quote_in: u128) -> Result<BuyQuote, MathError> {
    let fee = fee_on(t, quote_in as int);
    let net = quote_in - fee;
    if quote_in == 0 {
        Err(MathError::ZeroAmount)
    } else if !reserves_fit(t, s) {
        Err(MathError::Overflow)
    } else if !priceable(t, s) || s.tokens_remaining == 0 {
        Err(MathError::BadState)
    } else if net == 0 {
        Err(MathError::Unquotable)
    } else if quote_reserve(t, s) + net > u128::MAX {
        Err(MathError::Overflow)
    } else if tokens_for(t, s, net) == 0 {
        Err(MathError::Unquotable)
    } else if tokens_for(t, s, net) < s.tokens_remaining {
        Ok(
            BuyQuote {
                quote_used: quote_in,
                fee: fee as u128,
                quote_net_used: net as u128,
                tokens_out: tokens_for(t, s, net) as u128,
            },
        )
    } else {
        let need = net_to_finish(t, s);
        let gross = gross_for(t, need);
        Ok(
            BuyQuote {
                quote_used: gross as u128,
                fee: (gross - need) as u128,
                quote_net_used: need as u128,
                tokens_out: s.tokens_remaining,
            },
        )
    }
}

/// The price of a sell.
pub open spec fn sell_quote(t: Terms, s: State, tokens_in: u128) -> Result<SellQuote, MathError> {
    let gross = gross_out(t, s, tokens_in as int);
    let fee = fee_on(t, gross);
    if tokens_in == 0 {
        Err(MathError::ZeroAmount)
    } else if !reserves_fit(t, s) || token_reserve(t, s) + tokens_in > u128::MAX {
        Err(MathError::Overflow)
    } else if !priceable(t, s) {
        Err(MathError::BadState)
    } else if gross - fee == 0 {
        Err(MathError::Unquotable)
    } else {
        Ok(
            SellQuote {
                quote_gross: gross as u128,
                fee: fee as u128,
                quote_out: (gross - fee) as u128,
            },
        )
    }
}

/// The state after a priced buy.
pub open spec fn after_buy(s: State, q: BuyQuote) -> State {
    State {
        real_quote: (s.real_quote + q.quote_net_used) as u128,
        tokens_remaining: (s.tokens_remaining - q.tokens_out) as u128,
    }
}

/// The state after a priced sell of `tokens_in`.
pub open spec fn after_sell(s: State, q: SellQuote, tokens_in: u128) -> State {
    State {
        real_quote: (s.real_quote - q.quote_gross) as u128,
        tokens_remaining: (s.tokens_remaining + tokens_in) as u128,
    }
}

/// A fee never exceeds what it is taken from.
pub proof fn lemma_fee_bounds(t: Terms, gross: int)
    requires
        t.fee_bps < BPS,
        gross >= 0,
    ensures
        0 <= fee_on(t, gross) <= gross,
{
    let a = gross * t.fee_bps;
    assert(0 <= a <= gross * BPS) by (nonlinear_arith)
        requires
            a == gross * t.fee_bps,
            0 <= t.fee_bps < BPS,
            gross >= 0,
    ;
    lemma_div_ceil(a, BPS as int);
    lemma_div_ceil_least(a, BPS as int, gross);
}

/// A buy reaches the end of the curve exactly where its net quote reaches what
/// the rest of the curve costs.
pub proof fn lemma_finish(t: Terms, s: State, net: int)
    requires
        priceable(t, s),
        net > 0,
    ensures
        tokens_for(t, s, net) >= s.tokens_remaining <==> net >= net_to_finish(t, s),
        net_to_finish(t, s) >= 0,
        s.tokens_remaining > 0 ==> net_to_finish(t, s) > 0,
{
    let vq = quote_reserve(t, s);
    let vt = token_reserve(t, s);
    let rem = s.tokens_remaining as int;
    let floor = t.token_floor as int;
    lemma_div_floor_greatest(vt * net, vq + net, rem);
    lemma_div_ceil_least(vq * rem, floor, net);
    lemma_div_ceil_least(vq * rem, floor, 0);
    lemma_div_ceil(vq * rem, floor);
    assert((rem * (vq + net) <= vt * net) == (net * floor >= vq * rem)) by (nonlinear_arith)
        requires
            vt == floor + rem,
    ;
    assert(vq * rem >= 0) by (nonlinear_arith)
        requires
            vq >= 0,
            rem >= 0,
    ;
    if rem > 0 {
        assert(vq * rem > 0) by (nonlinear_arith)
            requires
                vq > 0,
                rem > 0,
        ;
    }
}

/// Where `net` is what a gross amount leaves after its fee, any smaller net
/// amount costs no more than that gross amount.
pub proof fn lemma_gross(t: Terms, gross: int, need: int)
    requires
        t.fee_bps < BPS,
        gross >= 0,
        0 <= need <= gross - fee_on(t, gross),
    ensures
        need <= gross_for(t, need) <= gross,
{
    let bps = t.fee_bps as int;
    let m = BPS as int;
    let fee = fee_on(t, gross);
    lemma_div_ceil(gross * bps, m);
    // fee * m >= gross * bps, so need * m <= (gross - fee) * m <= gross * (m - bps)
    assert(need * m <= gross * (m - bps)) by (nonlinear_arith)
        requires
            need <= gross - fee,
            fee * m >= gross * bps,
            m > 0,
    ;
    lemma_div_ceil_least(need * m, m - bps, gross);
    lemma_div_ceil(need * m, m - bps);
    let g = gross_for(t, need);
    assert(g >= need) by (nonlinear_arith)
        requires
            g * (m - bps) >= need * m,
            0 < m - bps <= m,
            need >= 0,
            g >= 0,
    ;
}

/// The price of a buy of `quote_in` on a curve in state `s`.
pub fn quote_buy(t: &Terms, s: &State, quote_in: u128) -> (r: Result<BuyQuote, MathError>)
    ensures
        r == buy_quote(*t, *s, quote_in),
{
    if quote_in == 0 {
        return Err(MathError::ZeroAmount);
    }
    let vq: u128 = match t.virtual_quote.checked_add(s.real_quote) {
        Some(v) => v,
        None => return Err(MathError::Overflow),
    };
    let vt: u128 = match t.token_floor.checked_add(s.tokens_remaining) {
        Some(v) => v,
        None => return Err(MathError::Overflow),
    };
    let bps: u128 = BPS as u128;
    if t.fee_bps >= bps || t.token_floor == 0 || vq == 0 || s.tokens_remaining == 0 {
        return Err(MathError::BadState);
    }
    proof {
        lemma_fee_bounds(*t, quote_in as int);
    }
    let fee: u128 = match mul_div_ceil(quote_in, t.fee_bps, bps) {
        Some(f) => f,
        None => return Err(MathError::Overflow),
    };
    let net: u128 = quote_in - fee;
    if net == 0 {
        return Err(MathError::Unquotable);
    }
    let vq_after: u128 = match vq.checked_add(net) {
        Some(v) => v,
        None => return Err(MathError::Overflow),
    };
    proof {
        lemma_tokens_bound(*t, *s, net as int);
        lemma_finish(*t, *s, net as int);
    }
    let out: u128 = match mul_div_floor(vt, net, vq_after) {
        Some(o) => o,
        None => return Err(MathError::Overflow),
    };
    if out == 0 {
        return Err(MathError::Unquotable);
    }
    if out < s.tokens_remaining {
        return Ok(BuyQuote { quote_used: quote_in, fee, quote_net_used: net, tokens_out: out });
    }
    let need: u128 = match mul_div_ceil(vq, s.tokens_remaining, t.token_floor) {
        Some(n) => n,
        None => return Err(MathError::Overflow),
    };
    proof {
        lemma_gross(*t, quote_in as int, need as int);
    }
    let gross: u128 = match mul_div_ceil(need, bps, bps - t.fee_bps) {
        Some(g) => g,
        None => return Err(MathError::Overflow),
    };
    Ok(
        BuyQuote {
            quote_used: gross,
            fee: gross - need,
            quote_net_used: need,
            tokens_out: s.tokens_remaining,
        },
    )
}

/// A buy takes fewer tokens than the virtual reserve holds.
pub proof fn lemma_tokens_bound(t: Terms, s: State, net: int)
    requires
        priceable(t, s),
        net > 0,
    ensures
        0 <= tokens_for(t, s, net) < token_reserve(t, s),
{
    let vq = quote_reserve(t, s);
    let vt = token_reserve(t, s);
    assert(vt * net >= 0 && vt * (vq + net) > vt * net) by (nonlinear_arith)
        requires
            vt > 0,
            vq > 0,
            net > 0,
    ;
    lemma_div_floor(vt * net, vq + net);
    lemma_div_floor_greatest(vt * net, vq + net, vt);
}

/// A sell takes less quote than the virtual reserve holds.
pub proof fn lemma_gross_out_bound(t: Terms, s: State, tokens_in: int)
    requires
        priceable(t, s),
        tokens_in > 0,
    ensures
        0 <= gross_out(t, s, tokens_in) < quote_reserve(t, s),
{
    let vq = quote_reserve(t, s);
    let vt = token_reserve(t, s);
    assert(vq * tokens_in >= 0 && vq * (vt + tokens_in) > vq * tokens_in) by (nonlinear_arith)
        requires
            vt > 0,
            vq > 0,
            tokens_in > 0,
    ;
    lemma_div_floor(vq * tokens_in, vt + tokens_in);
    lemma_div_floor_greatest(vq * tokens_in, vt + tokens_in, vq);
}

/// The price of a sell of `tokens_in` on a curve in state `s`.
pub fn quote_sell(t: &Terms, s: &State, tokens_in: u128) -> (r: Result<SellQuote, MathError>)
    ensures
        r == sell_quote(*t, *s, tokens_in),
        r matches Ok(q) ==> {
            &&& q.fee * BPS >= q.quote_gross * t.fee_bps > (q.fee - 1) * BPS
            &&& q.quote_out == q.quote_gross - q.fee
        },
{
    if tokens_in == 0 {
        return Err(MathError::ZeroAmount);
    }
    let vq: u128 = match t.virtual_quote.checked_add(s.real_quote) {
        Some(v) => v,
        None => return Err(MathError::Overflow),
    };
    let vt: u128 = match t.token_floor.checked_add(s.tokens_remaining) {
        Some(v) => v,
        None => return Err(MathError::Overflow),
    };
    let vt_after: u128 = match vt.checked_add(tokens_in) {
        Some(v) => v,
        None => return Err(MathError::Overflow),
    };
    let bps: u128 = BPS as u128;
    if t.fee_bps >= bps || t.token_floor == 0 || vq == 0 {
        return Err(MathError::BadState);
    }
    proof {
        lemma_gross_out_bound(*t, *s, tokens_in as int);
    }
    let gross: u128 = match mul_div_floor(vq, tokens_in, vt_after) {
        Some(g) => g,
        None => return Err(MathError::Overflow),
    };
    proof {
        lemma_fee_bounds(*t, gross as int);
        lemma_div_ceil(gross * t.fee_bps, BPS as int);
        lemma_div_ceil_least(gross * t.fee_bps, BPS as int, fee_on(*t, gross as int) - 1);
    }
    let fee: u128 = match mul_div_ceil(gross, t.fee_bps, bps) {
        Some(f) => f,
        None => return Err(MathError::Overflow),
    };
    if gross == fee {
        return Err(MathError::Unquotable);
    }
    Ok(SellQuote { quote_gross: gross, fee, quote_out: gross - fee })
}

/// The constant product, `None` where a virtual reserve does not fit.
pub fn invariant_k(t: &Terms, s: &State) -> (r: Option<U256>)
    ensures
        r is Some <==> reserves_fit(*t, *s),
        r matches Some(k) ==> k.value() == product(*t, *s),
{
    let vq: u128 = match t.virtual_quote.checked_add(s.real_quote) {
        Some(v) => v,
        None => return None,
    };
    let vt: u128 = match t.token_floor.checked_add(s.tokens_remaining) {
        Some(v) => v,
        None => return None,
    };
    Some(mul_wide(vq, vt))
}

} // verus!
