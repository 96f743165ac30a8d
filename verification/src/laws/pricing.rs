//! Laws of the price: what each number of a quote must satisfy, and which trades
//! have a price at all.
use crate::curve::{
    buy_quote, fee_on, gross_out, lemma_fee_bounds, lemma_finish, lemma_gross,
    lemma_gross_out_bound, lemma_tokens_bound, net_to_finish, product, reserves_fit, sell_quote,
    tokens_for, BuyQuote, MathError, SellQuote, State, Terms,
};
use crate::u256::{
    div_ceil, lemma_div_ceil, lemma_div_ceil_least, lemma_div_floor, lemma_div_floor_greatest,
};
use vstd::prelude::*;

verus! {

/// `fee` is `bps` of `gross`, rounded up to a whole unit.
pub open spec fn is_fee(fee: int, gross: int, bps: int) -> bool {
    fee * 10_000 >= gross * bps > (fee - 1) * 10_000
}

/// `n` is what is left of `a / d` when it is rounded down.
pub open spec fn is_floor(n: int, a: int, d: int) -> bool {
    n * d <= a < (n + 1) * d
}

/// `n` is `a / d` rounded up.
pub open spec fn is_ceil(n: int, a: int, d: int) -> bool {
    n * d >= a > (n - 1) * d
}

/// At most one number is a quotient rounded up.
pub proof fn lemma_ceil_is_unique(a: int, d: int, n: int, m: int)
    requires
        d > 0,
        is_ceil(n, a, d),
        is_ceil(m, a, d),
    ensures
        n == m,
{
    assert(n == m) by (nonlinear_arith)
        requires
            d > 0,
            n * d >= a > (n - 1) * d,
            m * d >= a > (m - 1) * d,
    ;
}

/// At most one number is a quotient rounded down.
pub proof fn lemma_floor_is_unique(a: int, d: int, n: int, m: int)
    requires
        d > 0,
        is_floor(n, a, d),
        is_floor(m, a, d),
    ensures
        n == m,
{
    assert(n == m) by (nonlinear_arith)
        requires
            d > 0,
            n * d <= a < (n + 1) * d,
            m * d <= a < (m + 1) * d,
    ;
}

/// Rounding up is what it says.
pub proof fn lemma_ceil(a: int, d: int)
    requires
        d > 0,
    ensures
        is_ceil(div_ceil(a, d), a, d),
{
    lemma_div_ceil(a, d);
    lemma_div_ceil_least(a, d, div_ceil(a, d) - 1);
}

/// Whether a buy has a price, and if not why. `net` is what the offered quote
/// leaves after its fee.
pub open spec fn buy_refused(t: Terms, s: State, quote_in: u128, net: int) -> Option<MathError> {
    let quote = t.virtual_quote + s.real_quote;
    let tokens = t.token_floor + s.tokens_remaining;
    if quote_in == 0 {
        Some(MathError::ZeroAmount)
    } else if quote > u128::MAX || tokens > u128::MAX {
        Some(MathError::Overflow)
    } else if t.fee_bps >= 10_000 || t.token_floor == 0 || quote == 0 || s.tokens_remaining == 0 {
        Some(MathError::BadState)
    } else if net == 0 {
        Some(MathError::Unquotable)
    } else if quote + net > u128::MAX {
        Some(MathError::Overflow)
    } else if tokens * net < quote + net {
        Some(MathError::Unquotable)
    } else {
        None
    }
}

/// A buy has a price exactly where it offers something, the reserves fit, the
/// curve is one that trades, and the offer is worth a token after its fee. The
/// fee is the curve fee on what the buyer pays, rounded up. The tokens are the
/// most whose removal leaves the product of the reserves no smaller, and never
/// more than are left: an offer that is worth the rest of the curve gets the rest
/// of the curve for the least that pays for it, fee included.
pub proof fn law_buy_price(t: Terms, s: State, quote_in: u128, fee: int)
    requires
        is_fee(fee, quote_in as int, t.fee_bps as int),
    ensures
        match buy_refused(t, s, quote_in, quote_in - fee) {
            Some(e) => buy_quote(t, s, quote_in) == Err::<BuyQuote, _>(e),
            None => {
                let quote = t.virtual_quote + s.real_quote;
                let tokens = t.token_floor + s.tokens_remaining;
                let net = quote_in - fee;
                &&& buy_quote(t, s, quote_in) matches Ok(q) && {
                    &&& q.quote_used == q.quote_net_used + q.fee
                    &&& if net * t.token_floor < quote * s.tokens_remaining {
                        &&& q.quote_used == quote_in
                        &&& q.fee == fee
                        &&& is_floor(q.tokens_out as int, tokens * net, quote + net)
                        &&& q.tokens_out < s.tokens_remaining
                    } else {
                        &&& q.tokens_out == s.tokens_remaining
                        &&& is_ceil(
                            q.quote_net_used as int,
                            quote * s.tokens_remaining,
                            t.token_floor as int,
                        )
                        &&& is_ceil(
                            q.quote_used as int,
                            q.quote_net_used * 10_000,
                            10_000 - t.fee_bps,
                        )
                        &&& q.quote_used <= quote_in
                    }
                }
            },
        },
{
    let quote = t.virtual_quote + s.real_quote;
    let tokens = t.token_floor + s.tokens_remaining;
    lemma_ceil(quote_in * t.fee_bps, 10_000);
    lemma_ceil_is_unique(quote_in * t.fee_bps, 10_000, fee, fee_on(t, quote_in as int));
    let net = quote_in - fee;
    if quote_in > 0 && t.fee_bps < 10_000 && t.token_floor > 0 && quote > 0 {
        lemma_fee_bounds(t, quote_in as int);
        if net > 0 {
            lemma_tokens_bound(t, s, net);
            lemma_finish(t, s, net);
            lemma_div_floor(tokens * net, quote + net);
            lemma_div_floor_greatest(tokens * net, quote + net, 1);
            lemma_div_ceil_least(quote * s.tokens_remaining, t.token_floor as int, net);
            lemma_ceil(quote * s.tokens_remaining, t.token_floor as int);
            if tokens_for(t, s, net) >= s.tokens_remaining {
                let need = net_to_finish(t, s);
                lemma_gross(t, quote_in as int, need);
                lemma_ceil(need * 10_000, 10_000 - t.fee_bps);
            }
        }
    }
}

/// Whether a sell has a price, and if not why. `gross` is what leaves the curve
/// and `fee` what is kept of it.
pub open spec fn sell_refused(
    t: Terms,
    s: State,
    tokens_in: u128,
    gross: int,
    fee: int,
) -> Option<MathError> {
    let quote = t.virtual_quote + s.real_quote;
    let tokens = t.token_floor + s.tokens_remaining;
    if tokens_in == 0 {
        Some(MathError::ZeroAmount)
    } else if quote > u128::MAX || tokens + tokens_in > u128::MAX {
        Some(MathError::Overflow)
    } else if t.fee_bps >= 10_000 || t.token_floor == 0 || quote == 0 {
        Some(MathError::BadState)
    } else if gross == fee {
        Some(MathError::Unquotable)
    } else {
        None
    }
}

/// A sell has a price exactly where it offers something, the reserves fit, the
/// curve is one that trades, and something is left for the seller. What leaves
/// the curve is the most that leaves the product of the reserves no smaller; the
/// fee is the curve fee on that, rounded up, however much is sold; and the seller
/// gets the rest.
pub proof fn law_sell_price(t: Terms, s: State, tokens_in: u128, gross: int, fee: int)
    requires
        t.token_floor + s.tokens_remaining + tokens_in > 0,
        is_floor(
            gross,
            (t.virtual_quote + s.real_quote) * tokens_in,
            t.token_floor + s.tokens_remaining + tokens_in,
        ),
        is_fee(fee, gross, t.fee_bps as int),
    ensures
        match sell_refused(t, s, tokens_in, gross, fee) {
            Some(e) => sell_quote(t, s, tokens_in) == Err::<SellQuote, _>(e),
            None => sell_quote(t, s, tokens_in) == Ok::<_, MathError>(
                SellQuote {
                    quote_gross: gross as u128,
                    fee: fee as u128,
                    quote_out: (gross - fee) as u128,
                },
            ) && 0 <= fee < gross <= u128::MAX,
        },
{
    let quote = t.virtual_quote + s.real_quote;
    let tokens = t.token_floor + s.tokens_remaining;
    lemma_div_floor(quote * tokens_in, tokens + tokens_in);
    lemma_floor_is_unique(
        quote * tokens_in,
        tokens + tokens_in,
        gross,
        gross_out(t, s, tokens_in as int),
    );
    lemma_ceil(gross * t.fee_bps, 10_000);
    lemma_ceil_is_unique(gross * t.fee_bps, 10_000, fee, fee_on(t, gross));
    if tokens_in > 0 && t.fee_bps < 10_000 && t.token_floor > 0 && quote > 0 {
        lemma_gross_out_bound(t, s, tokens_in as int);
        lemma_fee_bounds(t, gross);
    }
}

/// The fee of every priced sell is the curve fee on what leaves the curve,
/// rounded up, and of every priced buy that does not end the curve the curve fee
/// on what the buyer pays: no trade is cheaper than another.
pub proof fn law_every_trade_pays_the_fee(
    t: Terms,
    s: State,
    tokens_in: u128,
    sold: SellQuote,
    quote_in: u128,
    bought: BuyQuote,
)
    ensures
        sell_quote(t, s, tokens_in) == Ok::<_, MathError>(sold) ==> is_fee(
            sold.fee as int,
            sold.quote_gross as int,
            t.fee_bps as int,
        ) && sold.quote_out == sold.quote_gross - sold.fee,
        buy_quote(t, s, quote_in) == Ok::<_, MathError>(bought) ==> {
            &&& bought.tokens_out < s.tokens_remaining ==> is_fee(
                bought.fee as int,
                bought.quote_used as int,
                t.fee_bps as int,
            )
            &&& bought.fee * 10_000 >= bought.quote_used * t.fee_bps
        },
{
    let gross = gross_out(t, s, tokens_in as int);
    if sell_quote(t, s, tokens_in) == Ok::<_, MathError>(sold) {
        lemma_div_floor(
            (t.virtual_quote + s.real_quote) * tokens_in,
            t.token_floor + s.tokens_remaining + tokens_in,
        );
        lemma_ceil(gross * t.fee_bps, 10_000);
        law_sell_price(t, s, tokens_in, gross, fee_on(t, gross));
    }
    if buy_quote(t, s, quote_in) == Ok::<_, MathError>(bought) {
        let fee = fee_on(t, quote_in as int);
        lemma_ceil(quote_in * t.fee_bps, 10_000);
        law_buy_price(t, s, quote_in, fee);
        let used = bought.quote_used as int;
        let net = bought.quote_net_used as int;
        let bps = t.fee_bps as int;
        if bought.tokens_out == s.tokens_remaining {
            assert((used - net) * 10_000 >= used * bps) by (nonlinear_arith)
                requires
                    used * (10_000 - bps) >= net * 10_000,
            ;
        }
    }
}

/// A larger offer never gets fewer tokens.
pub proof fn law_more_quote_buys_no_less(
    t: Terms,
    s: State,
    less: u128,
    more: u128,
    a: BuyQuote,
    b: BuyQuote,
)
    requires
        less <= more,
        buy_quote(t, s, less) == Ok::<_, MathError>(a),
        buy_quote(t, s, more) == Ok::<_, MathError>(b),
    ensures
        a.tokens_out <= b.tokens_out,
{
    let bps = t.fee_bps as int;
    let fa = fee_on(t, less as int);
    let fb = fee_on(t, more as int);
    lemma_ceil(less * bps, 10_000);
    lemma_ceil(more * bps, 10_000);
    law_buy_price(t, s, less, fa);
    law_buy_price(t, s, more, fb);
    let vq = t.virtual_quote + s.real_quote;
    let vt = t.token_floor + s.tokens_remaining;
    let na = less - fa;
    let nb = more - fb;
    assert(na <= nb) by (nonlinear_arith)
        requires
            na == less - fa,
            nb == more - fb,
            less <= more,
            0 <= bps < 10_000,
            fa * 10_000 >= less * bps,
            more * bps > (fb - 1) * 10_000,
    ;
    if b.tokens_out < s.tokens_remaining {
        let oa = a.tokens_out as int;
        let ob = b.tokens_out as int;
        let floor = t.token_floor as int;
        let rem = s.tokens_remaining as int;
        assert(na * floor <= nb * floor) by (nonlinear_arith)
            requires
                na <= nb,
                floor >= 0,
        ;
        assert(oa <= ob) by (nonlinear_arith)
            requires
                na <= nb,
                na > 0,
                vq > 0,
                vt > 0,
                oa >= 0,
                oa * (vq + na) <= vt * na,
                vt * nb < (ob + 1) * (vq + nb),
        ;
    }
}

/// The constant product is the product of the virtual reserves.
pub proof fn law_product_is_of_the_reserves(t: Terms, s: State)
    ensures
        product(t, s) == (t.virtual_quote + s.real_quote) * (t.token_floor + s.tokens_remaining),
        reserves_fit(t, s) <==> t.virtual_quote + s.real_quote <= u128::MAX && t.token_floor
            + s.tokens_remaining <= u128::MAX,
{
}

} // verus!
