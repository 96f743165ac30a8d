//! Laws of the escrow: what it holds is what the records say, and it pays
//! nobody else.
use crate::BPS;
use crate::accounts::derived;
use crate::config::{Call, Constants, Run};
use crate::laws::creation::lemma_scan_moves_nothing;
use crate::laws::flow::{
    group_quote_flow, group_token_flow, lemma_quote_call, lemma_tokens_call, quote_flow, token_flow,
};
use crate::laws::passed::{
    lemma_buy_passed, lemma_create_passed, lemma_disburse_passed, lemma_rescue_passed,
    lemma_seed_passed, lemma_sell_passed, lemma_slice_passed,
};
use crate::pallet::Store;
use crate::pallet::commitments::{claim_run, fees_taken};
use crate::pallet::create::{
    announce_run, check_run, create_run, create_store, first_buy, fund_run, launch_created,
    launch_run, launch_store, launch_written, mint_run, CreateArgs, CreateReplies,
};
use crate::pallet::disburse::{
    claim_legs_run, curve_leg, disburse_run, disburse_store, leg_taken, slice_buy, slice_due,
    slice_size, slice_size_run, slice_trade_run, slice_trades, venue_quote, DisburseReplies,
};
use crate::pallet::govern::{
    deposit_run, kept, rescue_due_run, rescue_run, sweep_run, RescueReplies,
};
use crate::pallet::terms::{fee_parts, lemma_shares_fit, reserved_tokens};
use crate::pallet::trade::{
    buy_quoted, buy_run, buy_state, buy_trade_run, deliver_run, do_seed_run, fee_run, graduated,
    open_run, pay_run, sell_open_run, sell_quoted, sell_run, sell_state, BuyArgs, BuyReplies,
    FeeReplies, SeedReplies, SellReplies,
};
use crate::records::{CurveState, Launch, Phase};
use crate::types::{
    sat_sub, AccountId, AssetKind, Balance, DispatchError, LaunchId, Origin, Preservation,
};
use vstd::prelude::*;

verus! {

/// The quote that a launch's escrow owes: to the curve, and to the creator.
pub open spec fn backing(state: CurveState) -> int {
    state.real_quote + state.creator_fees_unclaimed
}

/// The tokens that a launch's escrow holds: what the curve still sells, and
/// what seeds the pool, until it has.
pub open spec fn holding(c: Constants, state: CurveState) -> int {
    state.tokens_remaining + if state.phase == Phase::Graduated {
        0
    } else {
        reserved_tokens(c) as int
    }
}

/// Paying a fee's parts takes exactly these parts out of the escrow.
proof fn lemma_fee_flow(
    run: Run,
    c: Constants,
    launch: Launch,
    protocol: u128,
    treasury: u128,
    r: FeeReplies,
)
    requires
        fee_run(run, c, launch, protocol, treasury, r).ok(),
        protocol + treasury <= u128::MAX,
        c.treasury != launch.escrow,
        r.sink != Some(launch.escrow),
    ensures
        run.ok(),
        quote_flow(fee_run(run, c, launch, protocol, treasury, r).log, launch.escrow)
            == quote_flow(run.log, launch.escrow) - protocol - treasury,
{
    broadcast use group_quote_flow;

}

/// A buy moves into the escrow exactly what the records say it owes more: the
/// quote it took in, less the fee's parts it paid out, less the seed.
pub proof fn law_buy_keeps_escrow_backed(run: Run, s: Store, a: BuyArgs, r: BuyReplies)
    requires
        s.wf(),
        buy_run(run, s, a, r).ok(),
        // The escrow trades with others, not with itself.
        a.who != s.launches[a.launch_id].escrow,
        s.constants.treasury != s.launches[a.launch_id].escrow,
        r.pay.fees.sink != Some(s.launches[a.launch_id].escrow),
        // The creator's fees still fit in a balance.
        s.curves[a.launch_id].creator_fees_unclaimed + buy_quoted(s, a, r).fee <= u128::MAX,
    ensures
        quote_flow(buy_run(run, s, a, r).log, s.launches[a.launch_id].escrow) - quote_flow(
            run.log,
            s.launches[a.launch_id].escrow,
        ) == backing(buy_state(s, a, r)) - backing(s.curves[a.launch_id]),
{
    broadcast use group_quote_flow;

    lemma_buy_passed(run, s, a, r);
    let launch = s.launches[a.launch_id];
    let q = buy_quoted(s, a, r);
    let (protocol, treasury, creator) = fee_parts(
        q.fee,
        launch.curve.protocol_share_bps,
        launch.curve.treasury_share_bps,
    );
    lemma_shares_fit(q.fee, launch.curve.protocol_share_bps, launch.curve.treasury_share_bps);
    let open = open_run(run, s, a, r.open);
    let funded = open.call(
        Call::Transfer {
            from: a.who,
            to: launch.escrow,
            amount: q.quote_used,
            keep: Preservation::Preserve,
            reply: r.pay.funded,
        },
    );
    let paid = pay_run(open, s.constants, launch, a.who, q, r.pay);
    assert(paid == fee_run(funded, s.constants, launch, protocol, treasury, r.pay.fees));
    assert(paid.ok());
    lemma_fee_flow(funded, s.constants, launch, protocol, treasury, r.pay.fees);
    assert(quote_flow(open.log, launch.escrow) == quote_flow(run.log, launch.escrow));
    let traded = deliver_run(paid, launch, s.curves[a.launch_id], a, q, r.delivered);
    assert(traded == buy_trade_run(run, s, a, r));
    assert(quote_flow(traded.log, launch.escrow) == quote_flow(run.log, launch.escrow)
        + q.quote_used - protocol - treasury);
}

/// A sell moves out of the escrow exactly what the records say it owes less.
pub proof fn law_sell_keeps_escrow_backed(
    run: Run,
    s: Store,
    who: AccountId,
    id: LaunchId,
    tokens_in: Balance,
    min_quote_out: Balance,
    r: SellReplies,
)
    requires
        s.wf(),
        sell_run(run, s, who, id, tokens_in, min_quote_out, r).ok(),
        who != s.launches[id].escrow,
        s.constants.treasury != s.launches[id].escrow,
        r.fees.sink != Some(s.launches[id].escrow),
        s.curves[id].creator_fees_unclaimed + sell_quoted(s, id, tokens_in).fee <= u128::MAX,
    ensures
        quote_flow(
            sell_run(run, s, who, id, tokens_in, min_quote_out, r).log,
            s.launches[id].escrow,
        ) - quote_flow(run.log, s.launches[id].escrow) == backing(sell_state(s, id, tokens_in, r))
            - backing(s.curves[id]),
{
    broadcast use group_quote_flow;

    lemma_sell_passed(run, s, who, id, tokens_in, min_quote_out, r);
    let launch = s.launches[id];
    let q = sell_quoted(s, id, tokens_in);
    let (protocol, treasury, creator) = fee_parts(
        q.fee,
        launch.curve.protocol_share_bps,
        launch.curve.treasury_share_bps,
    );
    lemma_shares_fit(q.fee, launch.curve.protocol_share_bps, launch.curve.treasury_share_bps);
    let open = sell_open_run(run, s, id, tokens_in, min_quote_out);
    let delivered = open.call(
        Call::AssetTransfer {
            asset: launch.asset_id,
            from: who,
            to: launch.escrow,
            amount: tokens_in,
            keep: Preservation::Expendable,
            reply: r.delivered,
        },
    );
    let paid = fee_run(delivered, s.constants, launch, protocol, treasury, r.fees);
    assert(paid.ok());
    lemma_fee_flow(delivered, s.constants, launch, protocol, treasury, r.fees);
    assert(quote_flow(open.log, launch.escrow) == quote_flow(run.log, launch.escrow));
}

/// A seed hands the pool exactly what the curve raised and exactly the reserved
/// tokens: the escrow then owes only the creator's fees and holds no token.
pub proof fn law_seed_empties_the_escrow(
    run: Run,
    s: Store,
    id: LaunchId,
    nested: bool,
    r: SeedReplies,
)
    requires
        do_seed_run(run, s, id, nested, r).ok(),
        r.shares is Ok,
    ensures
        ({
            let launch = s.launches[id];
            let log = do_seed_run(run, s, id, nested, r).log;
            let next = graduated(s.curves[id], r.shares->Ok_0, r.now);
            &&& quote_flow(log, launch.escrow) - quote_flow(run.log, launch.escrow) == backing(next)
                - backing(s.curves[id])
            &&& token_flow(log, launch.asset_id, launch.escrow) - token_flow(
                run.log,
                launch.asset_id,
                launch.escrow,
            ) == holding(s.constants, next) - holding(s.constants, s.curves[id])
            &&& backing(next) == s.curves[id].creator_fees_unclaimed
        }),
{
    broadcast use group_quote_flow, group_token_flow;

    lemma_seed_passed(run, s, id, nested, r);
}

/// A claim pays out exactly the creator's fees.
pub proof fn law_claim_keeps_escrow_backed(
    run: Run,
    s: Store,
    who: AccountId,
    id: LaunchId,
    paid: Result<(), DispatchError>,
)
    requires
        claim_run(run, s, who, id, paid).ok(),
        who != s.launches[id].escrow,
    ensures
        quote_flow(claim_run(run, s, who, id, paid).log, s.launches[id].escrow) - quote_flow(
            run.log,
            s.launches[id].escrow,
        ) == backing(fees_taken(s.curves[id])) - backing(s.curves[id]),
{
    broadcast use group_quote_flow;

}

/// A disbursement moves out of the escrow exactly the creator's fees, and its
/// slice, where it buys on the curve, keeps the escrow backed and its tokens
/// accounted for as any buy does.
#[verifier::rlimit(60)]
pub proof fn law_disburse_keeps_escrow_backed(run: Run, s: Store, id: LaunchId, r: DisburseReplies)
    requires
        s.wf(),
        s.has(id),
        disburse_run(run, s, id, r).ok(),
        derived(s.constants.commit_pallet_id, id) != s.launches[id].escrow,
        s.constants.treasury != s.launches[id].escrow,
        r.slice.buy.pay.fees.sink != Some(s.launches[id].escrow),
    ensures
        quote_flow(disburse_run(run, s, id, r).log, s.launches[id].escrow) - quote_flow(
            run.log,
            s.launches[id].escrow,
        ) == backing(disburse_store(s, id, r).curves[id]) - backing(s.curves[id]),
        token_flow(
            disburse_run(run, s, id, r).log,
            s.launches[id].asset_id,
            s.launches[id].escrow,
        ) - token_flow(run.log, s.launches[id].asset_id, s.launches[id].escrow) == holding(
            s.constants,
            disburse_store(s, id, r).curves[id],
        ) - holding(s.constants, s.curves[id]),
{
    broadcast use group_quote_flow, group_token_flow;

    lemma_disburse_passed(run, s, id, r);
    let e = s.launches[id].escrow;
    let s1 = leg_taken(s, id);
    let claimed = claim_legs_run(run, s, id, r);
    assert(quote_flow(claimed.log, e) == quote_flow(run.log, e) - curve_leg(s, id));
    assert(backing(s1.curves[id]) == backing(s.curves[id]) - curve_leg(s, id));
    if slice_due(s, id, r) {
        let sized = slice_size_run(claimed, s1, id, r.slice);
        assert(quote_flow(sized.log, e) == quote_flow(claimed.log, e));
        let measured = lemma_slice_passed(claimed, s1, id, r.pending, r.slice);
        if slice_trades(s1, id, r.pending, r.slice) {
            let commit = derived(s.constants.commit_pallet_id, id);
            let size = slice_size(s1.constants, venue_quote(s1, id, r.slice.pool), r.pending);
            let before = sized.call(Call::CurrencyBalance { who: commit, reply: r.slice.before });
            let traded = slice_trade_run(before, s1, id, size, r.slice);
            assert(traded.ok());
            assert(quote_flow(before.log, e) == quote_flow(claimed.log, e));
            if s1.curves[id].phase == Phase::Trading {
                let buy = slice_buy(s1.constants, id, size);
                lemma_buy_passed(before, s1, buy, r.slice.buy);
                law_buy_keeps_escrow_backed(before, s1, buy, r.slice.buy);
                law_buy_tracks_escrow_tokens(before, s1, buy, r.slice.buy);
            }
        }
    }
}

/// A buy takes out of the escrow exactly the tokens that the records say the
/// curve no longer sells, and the reserved ones where it seeded the pool.
pub proof fn law_buy_tracks_escrow_tokens(run: Run, s: Store, a: BuyArgs, r: BuyReplies)
    requires
        buy_run(run, s, a, r).ok(),
        a.who != s.launches[a.launch_id].escrow,
    ensures
        ({
            let launch = s.launches[a.launch_id];
            token_flow(buy_run(run, s, a, r).log, launch.asset_id, launch.escrow) - token_flow(
                run.log,
                launch.asset_id,
                launch.escrow,
            ) == holding(s.constants, buy_state(s, a, r)) - holding(
                s.constants,
                s.curves[a.launch_id],
            )
        }),
{
    broadcast use group_token_flow;

    lemma_buy_passed(run, s, a, r);
    let launch = s.launches[a.launch_id];
    let q = buy_quoted(s, a, r);
    let open = open_run(run, s, a, r.open);
    let paid = pay_run(open, s.constants, launch, a.who, q, r.pay);
    assert(token_flow(open.log, launch.asset_id, launch.escrow) == token_flow(
        run.log,
        launch.asset_id,
        launch.escrow,
    ));
    assert(token_flow(paid.log, launch.asset_id, launch.escrow) == token_flow(
        open.log,
        launch.asset_id,
        launch.escrow,
    ));
    let traded = deliver_run(paid, launch, s.curves[a.launch_id], a, q, r.delivered);
    assert(traded == buy_trade_run(run, s, a, r));
    assert(token_flow(traded.log, launch.asset_id, launch.escrow) == token_flow(
        run.log,
        launch.asset_id,
        launch.escrow,
    ) - q.tokens_out);
}

/// A sell puts into the escrow exactly the tokens that the records say the
/// curve sells again.
pub proof fn law_sell_tracks_escrow_tokens(
    run: Run,
    s: Store,
    who: AccountId,
    id: LaunchId,
    tokens_in: Balance,
    min_quote_out: Balance,
    r: SellReplies,
)
    requires
        sell_run(run, s, who, id, tokens_in, min_quote_out, r).ok(),
        who != s.launches[id].escrow,
    ensures
        ({
            let launch = s.launches[id];
            token_flow(
                sell_run(run, s, who, id, tokens_in, min_quote_out, r).log,
                launch.asset_id,
                launch.escrow,
            ) - token_flow(run.log, launch.asset_id, launch.escrow) == holding(
                s.constants,
                sell_state(s, id, tokens_in, r),
            ) - holding(s.constants, s.curves[id])
        }),
{
    broadcast use group_token_flow;

    lemma_sell_passed(run, s, who, id, tokens_in, min_quote_out, r);
    let launch = s.launches[id];
    let q = sell_quoted(s, id, tokens_in);
    let open = sell_open_run(run, s, id, tokens_in, min_quote_out);
    assert(token_flow(open.log, launch.asset_id, launch.escrow) == token_flow(
        run.log,
        launch.asset_id,
        launch.escrow,
    ));
}

/// A rescue accounts for everything: what the pool took and what was swept to
/// the treasury are together all that the curve raised and all that was
/// reserved, wherever the pool took no more than it was offered.
pub proof fn law_rescue_accounts_for_everything(
    run: Run,
    s: Store,
    origin: Origin,
    id: LaunchId,
    deviation_bps: u16,
    r: RescueReplies,
)
    requires
        rescue_run(run, s, origin, id, deviation_bps, r).ok(),
        s.constants.treasury != s.launches[id].escrow,
        r.deposit.quote_spent() <= s.curves[id].real_quote,
        r.deposit.tokens_spent() <= reserved_tokens(s.constants),
    ensures
        ({
            let launch = s.launches[id];
            let log = rescue_run(run, s, origin, id, deviation_bps, r).log;
            let next = graduated(s.curves[id], r.deposit.shares->Ok_0, r.due.now);
            &&& quote_flow(log, launch.escrow) - quote_flow(run.log, launch.escrow)
                - r.deposit.quote_spent() == backing(next) - backing(s.curves[id])
            &&& quote_flow(log, s.constants.treasury) - quote_flow(run.log, s.constants.treasury)
                == s.curves[id].real_quote - r.deposit.quote_spent()
            &&& token_flow(log, launch.asset_id, launch.escrow) - token_flow(
                run.log,
                launch.asset_id,
                launch.escrow,
            ) - r.deposit.tokens_spent() == holding(s.constants, next) - holding(
                s.constants,
                s.curves[id],
            )
            &&& token_flow(log, launch.asset_id, s.constants.treasury) - token_flow(
                run.log,
                launch.asset_id,
                s.constants.treasury,
            ) == reserved_tokens(s.constants) - r.deposit.tokens_spent()
        }),
{
    broadcast use group_quote_flow, group_token_flow;

    lemma_rescue_passed(run, s, origin, id, deviation_bps, r);
    let launch = s.launches[id];
    let e = launch.escrow;
    let t = s.constants.treasury;
    let quote = s.curves[id].real_quote;
    let due = rescue_due_run(run, s, origin, id, deviation_bps, r.due);
    let deposited = deposit_run(due, s.constants, launch, quote, deviation_bps, r.deposit);
    let swept = sweep_run(
        deposited,
        s.constants,
        launch,
        sat_sub(quote, r.deposit.quote_spent()),
        sat_sub(reserved_tokens(s.constants), r.deposit.tokens_spent()),
        r.quote_swept,
        r.tokens_swept,
    );
    assert(swept.ok());
    assert(deposited.ok());
    assert(quote_flow(due.log, e) == quote_flow(run.log, e));
    assert(quote_flow(due.log, t) == quote_flow(run.log, t));
    assert(token_flow(due.log, launch.asset_id, e) == token_flow(run.log, launch.asset_id, e));
    assert(quote_flow(deposited.log, e) == quote_flow(due.log, e));
    assert(quote_flow(deposited.log, t) == quote_flow(due.log, t));
    assert(token_flow(deposited.log, launch.asset_id, e) == token_flow(
        due.log,
        launch.asset_id,
        e,
    ));
}

/// A creation mints the whole supply into the escrow, and leaves there what
/// the records say: all of it, or all but what its first buy took. Of quote it
/// leaves the creation fee, less what the escrow could spare, plus what the
/// first buy put in.
#[verifier::rlimit(60)]
pub proof fn law_creation_fills_the_escrow(run: Run, s: Store, a: CreateArgs, r: CreateReplies)
    requires
        s.wf(),
        create_run(run, s, a, r).ok(),
        s.constants.sellable <= s.constants.total_supply,
        a.creator != launch_created(s, a, r).escrow,
        s.constants.treasury != launch_created(s, a, r).escrow,
        r.buy.pay.fees.sink != Some(launch_created(s, a, r).escrow),
        derived(s.constants.commit_pallet_id, s.next_launch_id) != launch_created(s, a, r).escrow,
        derived(s.constants.lock_pallet_id, s.next_launch_id) != launch_created(s, a, r).escrow,
    ensures
        ({
            let launch = launch_created(s, a, r);
            let log = create_run(run, s, a, r).log;
            let state = create_store(s, a, r).curves[s.next_launch_id];
            &&& token_flow(log, launch.asset_id, launch.escrow) - token_flow(
                run.log,
                launch.asset_id,
                launch.escrow,
            ) == holding(s.constants, state)
            &&& quote_flow(log, launch.escrow) - quote_flow(run.log, launch.escrow)
                == s.live_params().creation_fee - r.mint.spare + backing(state)
        }),
{
    lemma_create_passed(run, s, a, r);
    let launch = launch_created(s, a, r);
    let e = launch.escrow;
    let asset = launch.asset_id;
    let s1 = launch_store(s, a, r);
    let launched = launch_run(run, s, a, r);
    lemma_launch_flow(run, s, a, r);
    if a.initial_buy != 0 {
        let buy = first_buy(s, a);
        let handed = launch_written(s1, launch, buy.launch_id);
        let written = launched.call(handed);
        lemma_quote_call(launched, handed, e);
        lemma_tokens_call(launched, handed, asset, e);
        let bought = buy_run(written, s1, buy, r.buy);
        assert(s1.wf());
        lemma_buy_passed(written, s1, buy, r.buy);
        law_buy_keeps_escrow_backed(written, s1, buy, r.buy);
        law_buy_tracks_escrow_tokens(written, s1, buy, r.buy);
        match a.commitments.lock {
            Some(schedule) => {
                broadcast use group_quote_flow, group_token_flow;

            },
            None => {},
        }
    }
}

/// What a creation moves into the escrow before any first buy.
proof fn lemma_launch_flow(run: Run, s: Store, a: CreateArgs, r: CreateReplies)
    requires
        launch_run(run, s, a, r).ok(),
        a.creator != launch_created(s, a, r).escrow,
        s.constants.treasury != launch_created(s, a, r).escrow,
        derived(s.constants.commit_pallet_id, s.next_launch_id) != launch_created(s, a, r).escrow,
        derived(s.constants.lock_pallet_id, s.next_launch_id) != launch_created(s, a, r).escrow,
    ensures
        ({
            let launch = launch_created(s, a, r);
            let log = launch_run(run, s, a, r).log;
            &&& token_flow(log, launch.asset_id, launch.escrow) - token_flow(
                run.log,
                launch.asset_id,
                launch.escrow,
            ) == s.constants.total_supply
            &&& quote_flow(log, launch.escrow) - quote_flow(run.log, launch.escrow)
                == s.live_params().creation_fee - r.mint.spare
        }),
{
    broadcast use group_quote_flow, group_token_flow;

    let launch = launch_created(s, a, r);
    let e = launch.escrow;
    let asset = launch.asset_id;
    let checked = check_run(run, s, a, r.check);
    let minted = mint_run(checked, s, asset, a.creator, a.name, a.symbol, r.mint);
    let funded = fund_run(
        minted,
        s.constants,
        s.next_launch_id,
        a.creator,
        a.commitments,
        r.fund,
    );
    let announced = announce_run(funded, s, a, asset);
    assert(announced.ok());
    assert(funded.ok());
    assert(minted.ok());
    assert(checked.ok());
    lemma_scan_moves_nothing(run, s, 0, r.check.scan, asset, e);
    assert(quote_flow(checked.log, e) == quote_flow(run.log, e));
    assert(token_flow(checked.log, asset, e) == token_flow(run.log, asset, e));
    assert(quote_flow(minted.log, e) == quote_flow(checked.log, e) + s.live_params().creation_fee
        - r.mint.spare);
    assert(token_flow(minted.log, asset, e) == token_flow(checked.log, asset, e)
        + s.constants.total_supply);
    assert(quote_flow(funded.log, e) == quote_flow(minted.log, e));
    assert(token_flow(funded.log, asset, e) == token_flow(minted.log, asset, e));
}

/// A rescue asks the pool for amounts within the allowed deviation of the stored
/// ones, and locks what it deposits for good.
pub proof fn law_rescue_locks_for_good(
    run: Run,
    s: Store,
    origin: Origin,
    id: LaunchId,
    deviation_bps: u16,
    r: RescueReplies,
)
    requires
        rescue_run(run, s, origin, id, deviation_bps, r).ok(),
    ensures
        ({
            let log = rescue_run(run, s, origin, id, deviation_bps, r).log;
            let n = run.log.len() as int;
            let launch = s.launches[id];
            let reserved = reserved_tokens(s.constants);
            let quote = s.curves[id].real_quote;
            &&& log.len() > n + 6
            &&& log[n + 5] == (Call::AddLiquidity {
                who: launch.escrow,
                a: AssetKind::WithId(launch.asset_id),
                b: AssetKind::Native,
                amount_a: reserved,
                amount_b: quote,
                min_a: kept(reserved, deviation_bps),
                min_b: kept(quote, deviation_bps),
                reply: r.deposit.shares,
            })
            &&& log[n + 6] == (Call::LockLiquidity {
                who: launch.escrow,
                a: AssetKind::WithId(launch.asset_id),
                b: AssetKind::Native,
                until: u32::MAX,
                reply: r.deposit.locked,
            })
            &&& r.deposit.shares is Ok
            &&& r.deposit.locked is Ok
            &&& kept(reserved, deviation_bps) <= reserved
            &&& kept(quote, deviation_bps) <= quote
        }),
{
    lemma_rescue_passed(run, s, origin, id, deviation_bps, r);
    let launch = s.launches[id];
    let quote = s.curves[id].real_quote;
    let reserved = reserved_tokens(s.constants);
    lemma_shares_fit(reserved, (BPS - deviation_bps) as u16, 0);
    lemma_shares_fit(quote, (BPS - deviation_bps) as u16, 0);
    let due = rescue_due_run(run, s, origin, id, deviation_bps, r.due);
    let deposited = deposit_run(due, s.constants, launch, quote, deviation_bps, r.deposit);
    let swept = sweep_run(
        deposited,
        s.constants,
        launch,
        sat_sub(quote, r.deposit.quote_spent()),
        sat_sub(reserved, r.deposit.tokens_spent()),
        r.quote_swept,
        r.tokens_swept,
    );
    assert(swept.ok());
    assert(deposited.ok());
    assert(due.ok());
    assert(due.log.len() == run.log.len() + 3);
    assert(deposited.log.is_prefix_of(swept.log));
    assert(swept.log.is_prefix_of(rescue_run(run, s, origin, id, deviation_bps, r).log));
}

} // verus!
