//! Laws of the curve's arithmetic.
use crate::curve::{
    after_buy, after_sell, buy_quote, fee_on, gross_out, lemma_fee_bounds, lemma_finish,
    lemma_gross, lemma_gross_out_bound, lemma_tokens_bound, net_to_finish, priceable, product,
    quote_reserve, sell_quote, token_reserve, tokens_for, BuyQuote, MathError, SellQuote, State,
    Terms,
};
use crate::u256::{lemma_div_ceil, lemma_div_floor};
use vstd::prelude::*;

verus! {

/// The product a curve starts with, which it never falls below.
pub open spec fn initial_product(t: Terms, sellable: u128) -> int {
    t.virtual_quote * (t.token_floor + sellable)
}

/// A priced buy uses no more quote than was offered, what it uses is what the
/// curve keeps plus the fee, and it delivers something the curve still holds.
pub proof fn law_buy_adds_up(t: Terms, s: State, quote_in: u128, q: BuyQuote)
    requires
        buy_quote(t, s, quote_in) == Ok::<_, MathError>(q),
    ensures
        0 < q.quote_used <= quote_in,
        q.quote_used == q.quote_net_used + q.fee,
        0 < q.tokens_out <= s.tokens_remaining,
        s.real_quote + q.quote_net_used <= u128::MAX,
{
    let fee = fee_on(t, quote_in as int);
    let net = quote_in - fee;
    lemma_fee_bounds(t, quote_in as int);
    lemma_tokens_bound(t, s, net);
    lemma_finish(t, s, net);
    if tokens_for(t, s, net) >= s.tokens_remaining {
        lemma_gross(t, quote_in as int, net_to_finish(t, s));
    }
}

/// No buy makes the constant product smaller.
pub proof fn law_buy_never_shrinks_product(t: Terms, s: State, quote_in: u128, q: BuyQuote)
    requires
        buy_quote(t, s, quote_in) == Ok::<_, MathError>(q),
    ensures
        product(t, after_buy(s, q)) >= product(t, s),
{
    law_buy_adds_up(t, s, quote_in, q);
    let fee = fee_on(t, quote_in as int);
    let net = quote_in - fee;
    let vq = quote_reserve(t, s);
    let vt = token_reserve(t, s);
    let out = q.tokens_out as int;
    let used = q.quote_net_used as int;
    lemma_fee_bounds(t, quote_in as int);
    if tokens_for(t, s, net) < s.tokens_remaining {
        lemma_tokens_bound(t, s, net);
        lemma_div_floor(vt * net, vq + net);
        assert((vq + net) * (vt - out) >= vq * vt) by (nonlinear_arith)
            requires
                out * (vq + net) <= vt * net,
        ;
    } else {
        let floor = t.token_floor as int;
        let rem = s.tokens_remaining as int;
        lemma_tokens_bound(t, s, net);
        lemma_finish(t, s, net);
        lemma_gross(t, quote_in as int, net_to_finish(t, s));
        lemma_div_ceil(vq * rem, floor);
        assert((vq + used) * floor >= vq * vt) by (nonlinear_arith)
            requires
                used * floor >= vq * rem,
                vt == floor + rem,
        ;
    }
}

/// What leaves the curve in a priced sell is what the seller receives plus the
/// fee, and the seller receives something.
pub proof fn law_sell_adds_up(t: Terms, s: State, tokens_in: u128, q: SellQuote)
    requires
        sell_quote(t, s, tokens_in) == Ok::<_, MathError>(q),
    ensures
        q.quote_gross == q.quote_out + q.fee,
        q.quote_out > 0,
        q.quote_gross == gross_out(t, s, tokens_in as int),
        s.tokens_remaining + tokens_in <= u128::MAX,
{
    lemma_gross_out_bound(t, s, tokens_in as int);
    lemma_fee_bounds(t, gross_out(t, s, tokens_in as int));
}

/// No sell that the curve's quote covers makes the constant product smaller.
pub proof fn law_sell_never_shrinks_product(t: Terms, s: State, tokens_in: u128, q: SellQuote)
    requires
        sell_quote(t, s, tokens_in) == Ok::<_, MathError>(q),
        q.quote_gross <= s.real_quote,
    ensures
        product(t, after_sell(s, q, tokens_in)) >= product(t, s),
{
    law_sell_adds_up(t, s, tokens_in, q);
    let vq = quote_reserve(t, s);
    let vt = token_reserve(t, s);
    let gross = q.quote_gross as int;
    let inn = tokens_in as int;
    lemma_gross_out_bound(t, s, inn);
    lemma_div_floor(vq * inn, vt + inn);
    assert((vq - gross) * (vt + inn) >= vq * vt) by (nonlinear_arith)
        requires
            gross * (vt + inn) <= vq * inn,
    ;
}

/// Selling back at once what a buy delivered takes no more out of the curve
/// than the buy put in, whatever the fees.
pub proof fn law_round_trip_gains_nothing(
    t: Terms,
    s: State,
    quote_in: u128,
    bought: BuyQuote,
    sold: SellQuote,
)
    requires
        buy_quote(t, s, quote_in) == Ok::<_, MathError>(bought),
        sell_quote(t, after_buy(s, bought), bought.tokens_out) == Ok::<
            _,
            MathError,
        >(sold),
    ensures
        sold.quote_out <= sold.quote_gross <= bought.quote_net_used <= bought.quote_used,
{
    law_buy_adds_up(t, s, quote_in, bought);
    law_buy_never_shrinks_product(t, s, quote_in, bought);
    law_sell_adds_up(t, after_buy(s, bought), bought.tokens_out, sold);
    let vq = quote_reserve(t, s);
    let vt = token_reserve(t, s);
    let net = bought.quote_net_used as int;
    let out = bought.tokens_out as int;
    lemma_div_floor((vq + net) * out, vt);
    let gross = sold.quote_gross as int;
    assert(gross <= net) by (nonlinear_arith)
        requires
            (vq + net) * (vt - out) >= vq * vt,
            gross * vt <= (vq + net) * out,
            vt > 0,
    ;
}

/// While the product is no smaller than at the start, the curve holds enough
/// quote to take back every token that it has sold.
pub proof fn law_sold_tokens_are_covered(t: Terms, s: State, sellable: u128, tokens_in: u128)
    requires
        priceable(t, s),
        product(t, s) >= initial_product(t, sellable),
        0 < tokens_in <= sellable - s.tokens_remaining,
    ensures
        gross_out(t, s, tokens_in as int) <= s.real_quote,
{
    let vq = quote_reserve(t, s);
    let vt = token_reserve(t, s);
    let v = t.virtual_quote as int;
    let inn = tokens_in as int;
    let gross = gross_out(t, s, inn);
    lemma_gross_out_bound(t, s, inn);
    lemma_div_floor(vq * inn, vt + inn);
    let whole = t.token_floor + sellable;
    assert(v * (vt + inn) <= v * whole) by (nonlinear_arith)
        requires
            v >= 0,
            vt + inn <= whole,
    ;
    assert(gross <= vq - v) by (nonlinear_arith)
        requires
            gross * (vt + inn) <= vq * inn,
            v * (vt + inn) <= vq * vt,
            vt + inn > 0,
    ;
}

/// A curve that has sold everything has raised at least the virtual quote
/// times the ratio of what it sold to the floor.
pub proof fn law_sell_out_raises_target(t: Terms, s: State, sellable: u128)
    requires
        product(t, s) >= initial_product(t, sellable),
        s.tokens_remaining == 0,
    ensures
        s.real_quote * t.token_floor >= t.virtual_quote * sellable,
{
    assert(s.real_quote * t.token_floor >= t.virtual_quote * sellable) by (nonlinear_arith)
        requires
            (t.virtual_quote + s.real_quote) * (t.token_floor + 0) >= t.virtual_quote * (
            t.token_floor + sellable),
    ;
}

} // verus!
