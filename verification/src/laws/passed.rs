//! What a call that went through has passed: the checks along a run that ended
//! without an error.
use crate::BPS;
use crate::accounts::derived;
use crate::config::{Call, Run};
use crate::curve::MathError;
use crate::laws::curve::{law_buy_adds_up, law_sell_adds_up};
use crate::pallet::Store;
use crate::pallet::create::{
    announce_run, asset_chosen, check_run, create_run, first_buy, fund_run, launch_run,
    launch_store, mint_run, CreateArgs, CreateReplies,
};
use crate::pallet::disburse::{
    claim_legs_run, disburse_run, leg_taken, slice_buy, slice_due, slice_run, slice_size,
    slice_size_run, slice_trade_run, slice_trades, venue_quote, DisburseReplies, SliceReplies,
};
use crate::pallet::govern::{deposit_run, rescue_due_run, rescue_run, sweep_run, RescueReplies};
use crate::pallet::terms::{pricing, reserved_tokens, terms_of};
use crate::pallet::trade::{
    buy_price, buy_quoted, buy_run, buy_trade_run, do_seed_run, open_run, pay_run, sell_open_run,
    sell_price, sell_quoted, sell_run, BuyArgs, BuyReplies, SeedReplies, SellReplies,
};
use crate::records::Phase;
use crate::types::{block_add, sat_sub, AccountId, Balance, LaunchId, Origin};
use vstd::prelude::*;

verus! {

/// A buy that went through found a trading curve and a price.
pub proof fn lemma_buy_passed(run: Run, s: Store, a: BuyArgs, r: BuyReplies)
    requires
        buy_run(run, s, a, r).ok(),
    ensures
        run.ok(),
        buy_trade_run(run, s, a, r).ok(),
        open_run(run, s, a, r.open).ok(),
        r.open.hook is Ok,
        s.has(a.launch_id),
        s.curves[a.launch_id].phase == Phase::Trading,
        a.quote_in != 0,
        buy_price(s, a.launch_id, r.open.to_curve()) == Ok::<_, MathError>(buy_quoted(s, a, r)),
        ({
            let q = buy_quoted(s, a, r);
            let state = s.curves[a.launch_id];
            &&& q.tokens_out >= a.min_tokens_out
            &&& 0 < q.tokens_out <= state.tokens_remaining
            &&& 0 < q.quote_used <= r.open.to_curve()
            &&& q.quote_used == q.quote_net_used + q.fee
            &&& state.real_quote + q.quote_net_used <= u128::MAX
        }),
{
    let traded = buy_trade_run(run, s, a, r);
    assert(traded.ok());
    let q = buy_quoted(s, a, r);
    let launch = s.launches[a.launch_id];
    let open = open_run(run, s, a, r.open);
    assert(pay_run(open, s.constants, launch, a.who, q, r.pay).ok());
    assert(open.ok());
    law_buy_adds_up(
        terms_of(s.constants, launch.curve),
        pricing(s.curves[a.launch_id]),
        r.open.to_curve(),
        q,
    );
}

/// A sell that went through found a trading curve, a price, and enough quote.
pub proof fn lemma_sell_passed(
    run: Run,
    s: Store,
    who: AccountId,
    id: LaunchId,
    tokens_in: Balance,
    min_quote_out: Balance,
    r: SellReplies,
)
    requires
        sell_run(run, s, who, id, tokens_in, min_quote_out, r).ok(),
    ensures
        run.ok(),
        sell_open_run(run, s, id, tokens_in, min_quote_out).ok(),
        s.has(id),
        s.curves[id].phase == Phase::Trading,
        tokens_in != 0,
        tokens_in <= sat_sub(s.constants.sellable, s.curves[id].tokens_remaining),
        sell_price(s, id, tokens_in) == Ok::<_, MathError>(sell_quoted(s, id, tokens_in)),
        ({
            let q = sell_quoted(s, id, tokens_in);
            &&& q.quote_out >= min_quote_out
            &&& q.quote_out > 0
            &&& q.quote_gross == q.quote_out + q.fee
            &&& q.quote_gross <= s.curves[id].real_quote
        }),
{
    let q = sell_quoted(s, id, tokens_in);
    assert(sell_open_run(run, s, id, tokens_in, min_quote_out).ok());
    law_sell_adds_up(
        terms_of(s.constants, s.launches[id].curve),
        pricing(s.curves[id]),
        tokens_in,
        q,
    );
}

/// A seed that went through found a complete curve.
pub proof fn lemma_seed_passed(run: Run, s: Store, id: LaunchId, nested: bool, r: SeedReplies)
    requires
        do_seed_run(run, s, id, nested, r).ok(),
    ensures
        run.ok(),
        s.has(id),
        s.curves[id].phase == Phase::Complete,
        r.shares is Ok || nested,
{
}

/// A slice that went through found a curve; its buy, where it made one on the
/// curve, went through too.
pub proof fn lemma_slice_passed(
    run: Run,
    s: Store,
    id: LaunchId,
    pending: Balance,
    r: SliceReplies,
) -> (traded: Run)
    requires
        slice_run(run, s, id, pending, r).ok(),
    ensures
        run.ok(),
        s.curves.contains_key(id),
        slice_size_run(run, s, id, r).ok(),
        slice_trades(s, id, pending, r) && s.curves[id].phase == Phase::Trading ==> {
            let size = slice_size(s.constants, venue_quote(s, id, r.pool), pending);
            buy_run(traded, s, slice_buy(s.constants, id, size), r.buy).ok()
        },
        slice_trades(s, id, pending, r) && s.curves[id].phase == Phase::Graduated ==> r.swapped is Ok,
{
    let sized = slice_size_run(run, s, id, r);
    assert(sized.ok());
    let commit = derived(s.constants.commit_pallet_id, id);
    let measured = sized.call(
        Call::CurrencyBalance { who: commit, reply: r.before },
    );
    let size = slice_size(s.constants, venue_quote(s, id, r.pool), pending);
    if slice_trades(s, id, pending, r) {
        assert(slice_trade_run(measured, s, id, size, r).ok());
    }
    measured
}

/// A disbursement that went through is of a launch that burns its fees.
pub proof fn lemma_disburse_passed(run: Run, s: Store, id: LaunchId, r: DisburseReplies)
    requires
        disburse_run(run, s, id, r).ok(),
    ensures
        run.ok(),
        s.launches.contains_key(id),
        s.launches[id].commitments.burns(),
        claim_legs_run(run, s, id, r).ok(),
        slice_due(s, id, r) ==> slice_run(
            claim_legs_run(run, s, id, r),
            leg_taken(s, id),
            id,
            r.pending,
            r.slice,
        ).ok(),
{
}

/// A rescue that went through found a complete curve that had waited, and a pool.
pub proof fn lemma_rescue_passed(
    run: Run,
    s: Store,
    origin: Origin,
    id: LaunchId,
    deviation_bps: u16,
    r: RescueReplies,
)
    requires
        rescue_run(run, s, origin, id, deviation_bps, r).ok(),
    ensures
        run.ok(),
        r.due.allowed is Ok,
        deviation_bps <= BPS,
        s.has(id),
        s.curves[id].phase == Phase::Complete,
        s.curves[id].completed_at is Some,
        r.due.now >= block_add(s.curves[id].completed_at->0, s.constants.rescue_delay),
        r.due.pool,
        r.deposit.shares is Ok,
        r.deposit.locked is Ok,
{
    let quote = s.curves[id].real_quote;
    let launch = s.launches[id];
    let due = rescue_due_run(run, s, origin, id, deviation_bps, r.due);
    let deposited = deposit_run(due, s.constants, launch, quote, deviation_bps, r.deposit);
    let swept = sweep_run(
        deposited,
        s.constants,
        launch,
        sat_sub(quote, r.deposit.quote_spent()),
        sat_sub(reserved_tokens(s.constants), r.deposit.tokens_spent()),
        r.quote_swept,
        r.tokens_swept,
    );
    assert(swept.ok());
    assert(deposited.ok());
    assert(due.ok());
}

/// A creation that went through passed every stage.
pub proof fn lemma_create_passed(run: Run, s: Store, a: CreateArgs, r: CreateReplies)
    requires
        create_run(run, s, a, r).ok(),
    ensures
        run.ok(),
        launch_run(run, s, a, r).ok(),
        check_run(run, s, a, r.check).ok(),
        !s.creation_paused,
        s.next_launch_id < u64::MAX,
        a.initial_buy != 0 ==> buy_run(
            launch_run(run, s, a, r),
            launch_store(s, a, r),
            first_buy(s, a),
            r.buy,
        ).ok(),
        a.commitments.lock is Some ==> a.initial_buy != 0,
{
    let launched = launch_run(run, s, a, r);
    assert(launched.ok());
    let asset = asset_chosen(s, r.check.scan);
    let checked = check_run(run, s, a, r.check);
    let minted = mint_run(checked, s, asset, a.creator, a.name, a.symbol, r.mint);
    let funded = fund_run(
        minted,
        s.constants,
        s.next_launch_id,
        a.creator,
        a.commitments,
        r.fund,
    );
    assert(announce_run(funded, s, a, asset).ok());
    assert(funded.ok());
    assert(minted.ok());
    assert(checked.ok());
}

} // verus!
