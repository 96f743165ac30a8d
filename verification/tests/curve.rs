use launchpad::curve::{invariant_k, quote_buy, quote_sell, MathError, State, Terms};
use launchpad::pallet::terms::{share, split_fee};
use launchpad::u256::{mul_div_ceil, mul_div_floor, mul_wide};

fn terms() -> Terms {
    Terms { virtual_quote: 1000, token_floor: 300, fee_bps: 100 }
}

fn start() -> State {
    State { real_quote: 0, tokens_remaining: 900 }
}

#[test]
fn buy_is_priced() {
    let q = quote_buy(&terms(), &start(), 100).unwrap();
    // Fee 1, net 99, 1200 * 99 / 1099 = 108.
    assert_eq!((q.quote_used, q.fee, q.quote_net_used, q.tokens_out), (100, 1, 99, 108));
}

#[test]
fn fee_is_rounded_up() {
    let q = quote_buy(&terms(), &start(), 101).unwrap();
    assert_eq!((q.fee, q.quote_net_used), (2, 99));
}

#[test]
fn buy_at_the_end_is_filled_in_part() {
    let q = quote_buy(&terms(), &start(), 1_000_000).unwrap();
    // 1000 * 900 / 300 = 3000 net, 3031 gross.
    assert_eq!((q.quote_used, q.fee, q.quote_net_used, q.tokens_out), (3031, 31, 3000, 900));
    let all = quote_buy(&terms(), &start(), u128::MAX).unwrap();
    assert_eq!(all, q);
    // One less does not reach the end.
    let short = quote_buy(&terms(), &start(), 3020).unwrap();
    assert!(short.tokens_out < 900 && short.quote_used == 3020);
}

#[test]
fn buys_without_a_price() {
    assert_eq!(quote_buy(&terms(), &start(), 0), Err(MathError::ZeroAmount));
    assert_eq!(quote_buy(&terms(), &start(), 1), Err(MathError::Unquotable));
    let dear = State { real_quote: 1_000_000, tokens_remaining: 900 };
    assert_eq!(quote_buy(&terms(), &dear, 100), Err(MathError::Unquotable));
    let empty = State { real_quote: 0, tokens_remaining: 0 };
    assert_eq!(quote_buy(&terms(), &empty, 100), Err(MathError::BadState));
    let all_fee = Terms { fee_bps: 10_000, ..terms() };
    assert_eq!(quote_buy(&all_fee, &start(), 100), Err(MathError::BadState));
    let free = Terms { fee_bps: 0, ..terms() };
    assert_eq!(quote_buy(&free, &start(), u128::MAX), Err(MathError::Overflow));
    let full = State { real_quote: u128::MAX, tokens_remaining: 900 };
    assert_eq!(quote_buy(&terms(), &full, 100), Err(MathError::Overflow));
}

#[test]
fn sell_is_priced() {
    let s = State { real_quote: 1000, tokens_remaining: 300 };
    let q = quote_sell(&terms(), &s, 100).unwrap();
    // 2000 * 100 / 700 = 285, fee 3.
    assert_eq!((q.quote_gross, q.fee, q.quote_out), (285, 3, 282));
}

#[test]
fn sells_without_a_price() {
    assert_eq!(quote_sell(&terms(), &start(), 0), Err(MathError::ZeroAmount));
    assert_eq!(quote_sell(&terms(), &start(), 1), Err(MathError::Unquotable));
    assert_eq!(quote_sell(&terms(), &start(), u128::MAX), Err(MathError::Overflow));
    let no_floor = Terms { token_floor: 0, ..terms() };
    assert_eq!(quote_sell(&no_floor, &start(), 10), Err(MathError::BadState));
}

#[test]
fn product_never_shrinks() {
    let t = terms();
    let mut s = start();
    let mut k = invariant_k(&t, &s).unwrap().limbs[0];
    assert_eq!(k, 1_200_000);
    for quote_in in [7, 99, 250, 1000, 3] {
        if let Ok(q) = quote_buy(&t, &s, quote_in) {
            s.real_quote += q.quote_net_used;
            s.tokens_remaining -= q.tokens_out;
        }
        let sold = 900 - s.tokens_remaining;
        if let Ok(q) = quote_sell(&t, &s, sold / 2) {
            s.real_quote -= q.quote_gross;
            s.tokens_remaining += sold / 2;
        }
        let next = invariant_k(&t, &s).unwrap().limbs[0];
        assert!(next >= k);
        k = next;
    }
}

#[test]
fn round_trip_returns_no_more_than_was_paid() {
    let t = terms();
    let bought = quote_buy(&t, &start(), 500).unwrap();
    let s = State {
        real_quote: bought.quote_net_used,
        tokens_remaining: 900 - bought.tokens_out,
    };
    let sold = quote_sell(&t, &s, bought.tokens_out).unwrap();
    assert!(sold.quote_gross <= bought.quote_net_used && sold.quote_out < 500);
}

#[test]
fn wide_products_are_exact() {
    assert_eq!(mul_wide(u128::MAX, u128::MAX).limbs, [1, 0, u64::MAX - 1, u64::MAX]);
    assert_eq!(mul_wide(3, 5).limbs, [15, 0, 0, 0]);
    assert_eq!(mul_div_floor(u128::MAX, 7, 7), Some(u128::MAX));
    assert_eq!(mul_div_floor(u128::MAX, 2, 1), None);
    assert_eq!((mul_div_floor(10, 10, 7), mul_div_ceil(10, 10, 7)), (Some(14), Some(15)));
    assert_eq!((mul_div_floor(10, 7, 7), mul_div_ceil(10, 7, 7)), (Some(10), Some(10)));
    assert_eq!(mul_div_ceil(u128::MAX, 3, 2), None);
}

#[test]
fn product_of_reserves_needs_reserves_that_fit() {
    let s = State { real_quote: u128::MAX, tokens_remaining: 900 };
    assert!(invariant_k(&terms(), &s).is_none());
    let s = State { real_quote: u128::MAX - 1000, tokens_remaining: 900 };
    let k = invariant_k(&terms(), &s).unwrap();
    // (2^128 - 1) * 1200.
    assert_eq!(k.limbs, [0u64.wrapping_sub(1200), u64::MAX, 1199, 0]);
}

#[test]
fn fee_is_split_without_rest() {
    assert_eq!(split_fee(10, 5000, 2000), (5, 2, 3));
    assert_eq!(split_fee(7, 5000, 2000), (3, 1, 3));
    assert_eq!(split_fee(1, 5000, 5000), (0, 0, 1));
    assert_eq!(split_fee(9, 10_000, 0), (9, 0, 0));
    // The product saturates before it is divided.
    assert_eq!(share(u128::MAX, 10_000), u128::MAX / 10_000);
}
