//! Laws of trading.
use crate::accounts::derived;
use crate::config::{asked, faithful, Call, Config, Constants, Run};
use crate::event::Event;
use crate::laws::action::Action;
use crate::laws::flow::{group_quote_flow, group_token_flow, quote_flow, token_flow};
use crate::laws::passed::{lemma_buy_passed, lemma_sell_passed};
use crate::pallet::Store;
use crate::pallet::commitments::{claim_done, release_done};
use crate::pallet::disburse::{
    claim_legs_run, disburse_call_run, disburse_called, disburse_done, disburse_run, disburse_store,
    disburse_value, leg_taken, slice_buy, slice_run, slice_size, slice_size_run, slice_tokens,
    slice_trade_run, slice_value, venue_quote, DisburseReplies,
};
use crate::pallet::govern::{rescue_done, rescue_run};
use crate::pallet::terms::{fee_parts, lemma_shares_fit};
use crate::pallet::trade::{
    buy_done, buy_quoted, buy_run, buy_state, buy_trade_run, buy_value, crosses, deliver_run,
    do_seed_run, fee_run, open_run, parts_paid, pay_run, seed_done, sell_done, sell_open_run,
    sell_quoted, sell_run, sell_state, BuyArgs, BuyReplies, FeeReplies, SeedReplies, SellReplies,
};
use crate::records::{DisburseOutcome, Launch, LaunchMetadata, Phase};
use crate::types::{AccountId, AssetId, Balance, DispatchError, LaunchId, Preservation};
use vstd::prelude::*;

verus! {

/// What the protocol and the treasury are paid and what the creator is owed of
/// a fee is exactly the fee.
pub proof fn law_fee_is_split_without_rest(s: Store, id: LaunchId, fee: u128, r: FeeReplies)
    requires
        s.wf(),
        s.launches.contains_key(id),
    ensures
        ({
            let (to_protocol, to_vault, creator) = parts_paid(s.launches[id], fee, r);
            to_protocol + to_vault + creator == fee
        }),
{
    let p = s.launches[id].curve;
    lemma_shares_fit(fee, p.protocol_share_bps, p.treasury_share_bps);
}

/// Paying a fee touches no account but the escrow, the treasury and the vault.
proof fn lemma_fee_stranger(
    run: Run,
    c: Constants,
    launch: Launch,
    protocol: u128,
    treasury: u128,
    r: FeeReplies,
    asset: AssetId,
    w: AccountId,
)
    requires
        w != launch.escrow,
        w != c.treasury,
        r.sink != Some(w),
    ensures
        quote_flow(fee_run(run, c, launch, protocol, treasury, r).log, w) == quote_flow(run.log, w),
        token_flow(fee_run(run, c, launch, protocol, treasury, r).log, asset, w) == token_flow(
            run.log,
            asset,
            w,
        ),
{
    broadcast use group_quote_flow, group_token_flow;

}

/// A buyer pays what the buy used and what the hook routed to the treasury, no
/// more than the hook let through, and gets the tokens, no fewer than asked for.
pub proof fn law_buyer_gets_the_minimum(run: Run, s: Store, a: BuyArgs, r: BuyReplies)
    requires
        buy_run(run, s, a, r).ok(),
        a.who != s.launches[a.launch_id].escrow,
        a.who != s.constants.treasury,
        r.pay.fees.sink != Some(a.who),
    ensures
        ({
            let q = buy_quoted(s, a, r);
            let asset = s.launches[a.launch_id].asset_id;
            let log = buy_run(run, s, a, r).log;
            &&& quote_flow(log, a.who) == quote_flow(run.log, a.who) - q.quote_used - r.open.extra()
            &&& q.quote_used <= r.open.to_curve()
            &&& token_flow(log, asset, a.who) == token_flow(run.log, asset, a.who) + q.tokens_out
            &&& q.tokens_out >= a.min_tokens_out
            &&& q.tokens_out > 0
        }),
{
    broadcast use group_quote_flow, group_token_flow;

    lemma_buy_passed(run, s, a, r);
    let launch = s.launches[a.launch_id];
    let asset = launch.asset_id;
    let q = buy_quoted(s, a, r);
    let (protocol, treasury, creator) = fee_parts(
        q.fee,
        launch.curve.protocol_share_bps,
        launch.curve.treasury_share_bps,
    );
    let open = open_run(run, s, a, r.open);
    assert(quote_flow(open.log, a.who) == quote_flow(run.log, a.who) - r.open.extra());
    assert(token_flow(open.log, asset, a.who) == token_flow(run.log, asset, a.who));
    let funded = open.call(
        Call::Transfer {
            from: a.who,
            to: launch.escrow,
            amount: q.quote_used,
            keep: Preservation::Preserve,
            reply: r.pay.funded,
        },
    );
    let paid = pay_run(open, s.constants, launch, a.who, q, r.pay);
    assert(paid == fee_run(funded, s.constants, launch, protocol, treasury, r.pay.fees));
    assert(paid.ok());
    assert(funded.ok());
    lemma_fee_stranger(
        funded,
        s.constants,
        launch,
        protocol,
        treasury,
        r.pay.fees,
        asset,
        a.who,
    );
    let traded = deliver_run(paid, launch, s.curves[a.launch_id], a, q, r.delivered);
    assert(traded == buy_trade_run(run, s, a, r));
    assert(token_flow(traded.log, asset, a.who) == token_flow(run.log, asset, a.who)
        + q.tokens_out);
    assert(quote_flow(traded.log, a.who) == quote_flow(run.log, a.who) - q.quote_used
        - r.open.extra());
}

/// A seller hands in exactly the tokens and gets the quote, no less than asked for.
pub proof fn law_seller_gets_the_minimum(
    run: Run,
    s: Store,
    who: AccountId,
    id: LaunchId,
    tokens_in: Balance,
    min_quote_out: Balance,
    r: SellReplies,
)
    requires
        sell_run(run, s, who, id, tokens_in, min_quote_out, r).ok(),
        who != s.launches[id].escrow,
        who != s.constants.treasury,
        r.fees.sink != Some(who),
    ensures
        ({
            let q = sell_quoted(s, id, tokens_in);
            let asset = s.launches[id].asset_id;
            let log = sell_run(run, s, who, id, tokens_in, min_quote_out, r).log;
            &&& quote_flow(log, who) == quote_flow(run.log, who) + q.quote_out
            &&& token_flow(log, asset, who) == token_flow(run.log, asset, who) - tokens_in
            &&& q.quote_out >= min_quote_out
            &&& q.quote_out > 0
        }),
{
    broadcast use group_quote_flow, group_token_flow;

    lemma_sell_passed(run, s, who, id, tokens_in, min_quote_out, r);
    let launch = s.launches[id];
    let asset = launch.asset_id;
    let q = sell_quoted(s, id, tokens_in);
    let (protocol, treasury, creator) = fee_parts(
        q.fee,
        launch.curve.protocol_share_bps,
        launch.curve.treasury_share_bps,
    );
    let open = sell_open_run(run, s, id, tokens_in, min_quote_out);
    assert(quote_flow(open.log, who) == quote_flow(run.log, who));
    assert(token_flow(open.log, asset, who) == token_flow(run.log, asset, who));
    let delivered = open.call(
        Call::AssetTransfer {
            asset: launch.asset_id,
            from: who,
            to: launch.escrow,
            amount: tokens_in,
            keep: Preservation::Expendable,
            reply: r.delivered,
        },
    );
    let paid = fee_run(delivered, s.constants, launch, protocol, treasury, r.fees);
    assert(paid.ok());
    assert(delivered.ok());
    lemma_fee_stranger(delivered, s.constants, launch, protocol, treasury, r.fees, asset, who);
}

/// A buy touches no account but the buyer's, the escrow, the treasury and the vault.
pub proof fn law_buy_touches_no_stranger(
    run: Run,
    s: Store,
    a: BuyArgs,
    r: BuyReplies,
    asset: AssetId,
    w: AccountId,
)
    requires
        w != a.who,
        w != s.launches[a.launch_id].escrow,
        w != s.constants.treasury,
        r.pay.fees.sink != Some(w),
    ensures
        quote_flow(buy_run(run, s, a, r).log, w) == quote_flow(run.log, w),
        token_flow(buy_run(run, s, a, r).log, asset, w) == token_flow(run.log, asset, w),
{
    broadcast use group_quote_flow, group_token_flow;

    let launch = s.launches[a.launch_id];
    let q = buy_quoted(s, a, r);
    let (protocol, treasury, creator) = fee_parts(
        q.fee,
        launch.curve.protocol_share_bps,
        launch.curve.treasury_share_bps,
    );
    let open = open_run(run, s, a, r.open);
    assert(quote_flow(open.log, w) == quote_flow(run.log, w));
    assert(token_flow(open.log, asset, w) == token_flow(run.log, asset, w));
    let funded = open.call(
        Call::Transfer {
            from: a.who,
            to: launch.escrow,
            amount: q.quote_used,
            keep: Preservation::Preserve,
            reply: r.pay.funded,
        },
    );
    let paid = pay_run(open, s.constants, launch, a.who, q, r.pay);
    assert(paid == fee_run(funded, s.constants, launch, protocol, treasury, r.pay.fees));
    lemma_fee_stranger(funded, s.constants, launch, protocol, treasury, r.pay.fees, asset, w);
    let traded = deliver_run(paid, launch, s.curves[a.launch_id], a, q, r.delivered);
    assert(traded == buy_trade_run(run, s, a, r));
    assert(quote_flow(traded.log, w) == quote_flow(run.log, w));
    assert(token_flow(traded.log, asset, w) == token_flow(run.log, asset, w));
}

/// Nothing of a disbursement reaches an account but the escrow, the commitment
/// account, the treasury and the vault: nothing is paid to the caller.
pub proof fn law_disburse_pays_no_stranger(
    run: Run,
    s: Store,
    id: LaunchId,
    r: DisburseReplies,
    asset: AssetId,
    w: AccountId,
)
    requires
        w != derived(s.constants.commit_pallet_id, id),
        w != s.launches[id].escrow,
        w != s.constants.treasury,
        r.slice.buy.pay.fees.sink != Some(w),
    ensures
        quote_flow(disburse_run(run, s, id, r).log, w) == quote_flow(run.log, w),
        token_flow(disburse_run(run, s, id, r).log, asset, w) == token_flow(run.log, asset, w),
{
    broadcast use group_quote_flow, group_token_flow;

    let commit = derived(s.constants.commit_pallet_id, id);
    let claimed = claim_legs_run(run, s, id, r);
    assert(quote_flow(claimed.log, w) == quote_flow(run.log, w));
    assert(token_flow(claimed.log, asset, w) == token_flow(run.log, asset, w));
    let s1 = leg_taken(s, id);
    let sized = slice_size_run(claimed, s1, id, r.slice);
    assert(quote_flow(sized.log, w) == quote_flow(run.log, w));
    assert(token_flow(sized.log, asset, w) == token_flow(run.log, asset, w));
    let size = slice_size(s1.constants, venue_quote(s1, id, r.slice.pool), r.pending);
    let measured = sized.call(Call::CurrencyBalance { who: commit, reply: r.slice.before });
    law_buy_touches_no_stranger(
        measured,
        s1,
        slice_buy(s1.constants, id, size),
        r.slice.buy,
        asset,
        w,
    );
    let traded = slice_trade_run(measured, s1, id, size, r.slice);
    assert(quote_flow(traded.log, w) == quote_flow(run.log, w));
    assert(token_flow(traded.log, asset, w) == token_flow(run.log, asset, w));
}

/// A seed that the DEX refuses inside the buy that sells out leaves the buy
/// standing: the buyer keeps the tokens, the launch is complete, its quote is
/// kept, and anyone may graduate it later.
pub proof fn law_refused_seed_only_defers(
    run: Run,
    s: Store,
    a: BuyArgs,
    r: BuyReplies,
    later: Run,
    retry: SeedReplies,
)
    requires
        buy_run(run, s, a, r).ok(),
        crosses(s, a, r),
        r.seed.shares is Err,
        later.ok(),
        retry.shares is Ok,
    ensures
        ({
            let s1 = s.with_curve(a.launch_id, buy_state(s, a, r));
            let state = s1.curves[a.launch_id];
            &&& state.phase == Phase::Complete
            &&& state.completed_at == Some(r.open.now)
            &&& state.real_quote == s.curves[a.launch_id].real_quote + buy_quoted(
                s,
                a,
                r,
            ).quote_net_used
            &&& buy_run(run, s, a, r).log.last() == (Call::DepositEvent {
                event: Event::GraduationDeferred {
                    launch_id: a.launch_id,
                    error: r.seed.shares->Err_0,
                },
            })
            &&& do_seed_run(later, s1, a.launch_id, false, retry).ok()
        }),
{
    lemma_buy_passed(run, s, a, r);
}

/// A launch graduates only once it has sold out, and then for good.
pub proof fn law_only_a_sold_out_launch_is_seeded(
    run: Run,
    s: Store,
    id: LaunchId,
    nested: bool,
    r: SeedReplies,
)
    requires
        run.ok(),
        !s.has(id) || s.curves[id].phase != Phase::Complete,
    ensures
        !do_seed_run(run, s, id, nested, r).ok(),
        do_seed_run(run, s, id, nested, r).log == run.log,
{
}

/// Two stores with the same launches.
pub open spec fn same_launches(s: Store, t: Store) -> bool {
    &&& t.constants == s.constants
    &&& t.launches == s.launches
    &&& t.curves == s.curves
    &&& t.metadata == s.metadata
    &&& t.locks == s.locks
    &&& t.last_disburse_block == s.last_disburse_block
}

/// `t` with the launches of `s1`.
pub open spec fn with_launches_of(t: Store, s1: Store) -> Store {
    Store {
        launches: s1.launches,
        curves: s1.curves,
        metadata: s1.metadata,
        locks: s1.locks,
        last_disburse_block: s1.last_disburse_block,
        ..t
    }
}

proof fn lemma_buy_same(run: Run, s: Store, t: Store, a: BuyArgs, r: BuyReplies)
    requires
        t.constants == s.constants,
        t.launches == s.launches,
        t.curves == s.curves,
    ensures
        buy_run(run, t, a, r) == buy_run(run, s, a, r),
        buy_state(t, a, r) == buy_state(s, a, r),
        buy_quoted(t, a, r) == buy_quoted(s, a, r),
{
    assert(open_run(run, t, a, r.open) == open_run(run, s, a, r.open));
    assert(buy_quoted(t, a, r) == buy_quoted(s, a, r));
    assert(buy_trade_run(run, t, a, r) == buy_trade_run(run, s, a, r));
}

proof fn lemma_disburse_same(run: Run, s: Store, t: Store, id: LaunchId, r: DisburseReplies)
    requires
        same_launches(s, t),
    ensures
        disburse_run(run, t, id, r) == disburse_run(run, s, id, r),
        disburse_value(t, id, r) == disburse_value(s, id, r),
        disburse_store(t, id, r) == with_launches_of(t, disburse_store(s, id, r)),
{
    let s1 = leg_taken(s, id);
    let t1 = leg_taken(t, id);
    assert(claim_legs_run(run, t, id, r) == claim_legs_run(run, s, id, r));
    let claimed = claim_legs_run(run, s, id, r);
    assert(t1.curves == s1.curves);
    assert(venue_quote(t1, id, r.slice.pool) == venue_quote(s1, id, r.slice.pool));
    let size = slice_size(s1.constants, venue_quote(s1, id, r.slice.pool), r.pending);
    let buy = slice_buy(s1.constants, id, size);
    let sized = slice_size_run(claimed, s1, id, r.slice);
    assert(slice_size_run(claimed, t1, id, r.slice) == sized);
    let commit = derived(s.constants.commit_pallet_id, id);
    let measured = sized.call(Call::CurrencyBalance { who: commit, reply: r.slice.before });
    lemma_buy_same(measured, s1, t1, buy, r.slice.buy);
    assert(slice_trade_run(measured, t1, id, size, r.slice) == slice_trade_run(
        measured,
        s1,
        id,
        size,
        r.slice,
    ));
    assert(slice_tokens(t1, id, r.pending, r.slice) == slice_tokens(
        s1,
        id,
        r.pending,
        r.slice,
    ));
    assert(slice_run(claimed, t1, id, r.pending, r.slice) == slice_run(
        claimed,
        s1,
        id,
        r.pending,
        r.slice,
    ));
    assert(slice_value(t1, id, r.pending, r.slice) == slice_value(s1, id, r.pending, r.slice));
    assert(disburse_store(t, id, r) =~= with_launches_of(t, disburse_store(s, id, r)));
}

/// Neither the live parameters nor a pause touch a launch that exists: every
/// call but a creation does to it what it would do under any other parameters,
/// paused or not.
#[verifier::rlimit(60)]
pub proof fn law_governance_never_touches_a_launch(
    x: Action,
    s: Store,
    t: Store,
    log0: Seq<Call>,
    s1: Store,
    log1: Seq<Call>,
)
    requires
        same_launches(s, t),
        !(x is Create) && !(x is SetParams) && !(x is SetCreationPaused),
        x.done(s, log0, s1, log1),
    ensures
        x.done(t, log0, with_launches_of(t, s1), log1),
{
    let run = Run::from(log0);
    let t1 = with_launches_of(t, s1);
    match x {
        Action::Buy { a, r } => {
            let result = choose|result: Result<(bool, Balance), DispatchError>|
                buy_done(s, log0, a, r, result, s1, log1);
            lemma_buy_same(run, s, t, a, r);
            assert(buy_done(t, log0, a, r, result, t1, log1));
        },
        Action::Sell { who, id, tokens_in, min_quote_out, r } => {
            let result = choose|result: Result<(), DispatchError>|
                sell_done(
                    s,
                    log0,
                    who,
                    id,
                    tokens_in,
                    min_quote_out,
                    r,
                    result,
                    s1,
                    log1,
                );
            assert(sell_open_run(run, t, id, tokens_in, min_quote_out) == sell_open_run(
                run,
                s,
                id,
                tokens_in,
                min_quote_out,
            ));
            assert(sell_run(run, t, who, id, tokens_in, min_quote_out, r) == sell_run(
                run,
                s,
                who,
                id,
                tokens_in,
                min_quote_out,
                r,
            ));
            assert(sell_done(
                t,
                log0,
                who,
                id,
                tokens_in,
                min_quote_out,
                r,
                result,
                t1,
                log1,
            ));
        },
        Action::Graduate { id, r } => {
            let result = choose|result: Result<(), DispatchError>|
                seed_done(s, log0, id, false, r, result, s1, log1);
            assert(do_seed_run(run, t, id, false, r) == do_seed_run(run, s, id, false, r));
            assert(seed_done(t, log0, id, false, r, result, t1, log1));
        },
        Action::ClaimCreatorFees { who, id, paid } => {
            let result = choose|result: Result<(), DispatchError>|
                claim_done(
                    s,
                    log0,
                    who,
                    id,
                    paid,
                    result,
                    s1,
                    log1,
                );
            assert(claim_done(
                t,
                log0,
                who,
                id,
                paid,
                result,
                t1,
                log1,
            ));
        },
        Action::Disburse { id, r } => {
            let result = choose|result: Result<(), DispatchError>|
                disburse_called(s, log0, id, r, result, s1, log1);
            lemma_disburse_same(run, s, t, id, r.inner);
            assert(disburse_call_run(run, t, id, r) == disburse_call_run(run, s, id, r));
            assert(disburse_called(t, log0, id, r, result, t1, log1));
        },
        Action::DoDisburse { id, r } => {
            let result = choose|result: Result<DisburseOutcome, DispatchError>|
                disburse_done(s, log0, id, r, result, s1, log1);
            lemma_disburse_same(run, s, t, id, r);
            assert(disburse_done(t, log0, id, r, result, t1, log1));
        },
        Action::ClaimLocked { who, id, r } => {
            let result = choose|result: Result<(), DispatchError>|
                release_done(
                    s,
                    log0,
                    who,
                    id,
                    r,
                    result,
                    s1,
                    log1,
                );
            assert(release_done(
                t,
                log0,
                who,
                id,
                r,
                result,
                t1,
                log1,
            ));
        },
        Action::ForceSeed { origin, id, deviation_bps, r } => {
            let result = choose|result: Result<(), DispatchError>|
                rescue_done(
                    s,
                    log0,
                    origin,
                    id,
                    deviation_bps,
                    r,
                    result,
                    s1,
                    log1,
                );
            assert(rescue_run(run, t, origin, id, deviation_bps, r)
                == rescue_run(run, s, origin, id, deviation_bps, r));
            assert(rescue_done(
                t,
                log0,
                origin,
                id,
                deviation_bps,
                r,
                result,
                t1,
                log1,
            ));
        },
        _ => {},
    }
}

/// The hook's question and answer, second on record of a buy that gets as far.
pub open spec fn hook_call(s: Store, a: BuyArgs, r: BuyReplies) -> Call {
    Call::OnBuy {
        launch_id: a.launch_id,
        created_at: s.launches[a.launch_id].created_at,
        now: r.open.now,
        who: a.who,
        is_creator: a.is_creator,
        quote_in: a.quote_in,
        reply: r.open.hook,
    }
}

/// A buy adds to the record and asks the hook before it moves anything.
pub proof fn lemma_buy_asks_the_hook(run: Run, s: Store, a: BuyArgs, r: BuyReplies)
    requires
        run.ok(),
        s.has(a.launch_id),
        s.curves[a.launch_id].phase == Phase::Trading,
        a.quote_in != 0,
    ensures
        ({
            let n = run.log.len() as int;
            let log = buy_run(run, s, a, r).log;
            &&& run.log.is_prefix_of(log)
            &&& log.len() > n + 1
            &&& log[n] == (Call::BlockNumber { reply: r.open.now })
            &&& log[n + 1] == hook_call(s, a, r)
        }),
{
    let launch = s.launches[a.launch_id];
    let q = buy_quoted(s, a, r);
    let open = open_run(run, s, a, r.open);
    let hooked = run.call(Call::BlockNumber { reply: r.open.now }).call(hook_call(s, a, r));
    assert(hooked.log.is_prefix_of(open.log));
    let paid = pay_run(open, s.constants, launch, a.who, q, r.pay);
    assert(open.log.is_prefix_of(paid.log));
    let traded = buy_trade_run(run, s, a, r);
    assert(paid.log.is_prefix_of(traded.log));
    let log = buy_run(run, s, a, r).log;
    assert(traded.log.is_prefix_of(log));
    let n = run.log.len() as int;
    assert(run.log.is_prefix_of(hooked.log));
    assert(hooked.log[n] == log[n]);
    assert(hooked.log[n + 1] == log[n + 1]);
}

/// Every buy that goes through has asked the hook first, with its own block,
/// buyer and amount.
pub proof fn law_every_buy_passes_the_hook(run: Run, s: Store, a: BuyArgs, r: BuyReplies)
    requires
        buy_run(run, s, a, r).ok(),
    ensures
        ({
            let n = run.log.len() as int;
            let log = buy_run(run, s, a, r).log;
            &&& log.len() > n + 1
            &&& log[n] == (Call::BlockNumber { reply: r.open.now })
            &&& log[n + 1] == hook_call(s, a, r)
            &&& r.open.hook is Ok
        }),
{
    lemma_buy_passed(run, s, a, r);
    lemma_buy_asks_the_hook(run, s, a, r);
}

/// With the hook `()` every buy that gets as far as the hook, whatever becomes of
/// it afterwards, is let through whole: all of it reaches the curve, and nothing
/// extra goes to the treasury.
pub proof fn law_default_hook_lets_every_buy_through<T: Config<BuyHook = ()>>(
    run: Run,
    s: Store,
    a: BuyArgs,
    r: BuyReplies,
)
    requires
        run.ok(),
        s.has(a.launch_id),
        s.curves[a.launch_id].phase == Phase::Trading,
        a.quote_in != 0,
        faithful::<T>(buy_run(run, s, a, r).log),
    ensures
        r.open.hook == Ok::<(Balance, Balance), DispatchError>((a.quote_in, 0)),
        r.open.to_curve() == a.quote_in,
        r.open.extra() == 0,
{
    lemma_buy_asks_the_hook(run, s, a, r);
    assert(asked::<T>(buy_run(run, s, a, r).log[run.log.len() as int + 1]));
}

/// A launch's metadata is never read on a trade.
pub proof fn law_metadata_never_touches_a_trade(
    run: Run,
    s: Store,
    metadata: Map<LaunchId, LaunchMetadata>,
    a: BuyArgs,
    r: BuyReplies,
    who: AccountId,
    id: LaunchId,
    tokens_in: Balance,
    min_quote_out: Balance,
    sell: SellReplies,
)
    ensures
        ({
            let t = Store { metadata, ..s };
            &&& buy_run(run, t, a, r) == buy_run(run, s, a, r)
            &&& buy_value(t, a, r) == buy_value(s, a, r)
            &&& buy_state(t, a, r) == buy_state(s, a, r)
            &&& sell_run(run, t, who, id, tokens_in, min_quote_out, sell) == sell_run(
                run,
                s,
                who,
                id,
                tokens_in,
                min_quote_out,
                sell,
            )
            &&& sell_state(t, id, tokens_in, sell) == sell_state(s, id, tokens_in, sell)
        }),
{
    let t = Store { metadata, ..s };
    lemma_buy_same(run, s, t, a, r);
    assert(sell_open_run(run, t, id, tokens_in, min_quote_out) == sell_open_run(
        run,
        s,
        id,
        tokens_in,
        min_quote_out,
    ));
}

} // verus!
