//! In which order each call checks and asks, up to the first thing that refuses it.
//! A refused call asks nothing more: what stands here is what it asked whether it
//! went through or not.
use crate::accounts::derived;
use crate::config::{Call, Constants, Run};
use crate::event::Event;
use crate::laws::burning::{owed_nothing, owed_on_curve};
use crate::laws::launching::nth_id;
use crate::laws::outcomes::{buy_offer, legs, sell_offer};
use crate::laws::rules::{greatest, least};
use crate::pallet::Store;
use crate::pallet::commitments::{claim_done, release_done, ReleaseReplies};
use crate::pallet::create::{
    asset_chosen, asset_tried, create_done, launch_run, scan_run, CreateArgs, CreateReplies,
};
use crate::pallet::disburse::{claim_legs_run, disburse_done, DisburseReplies};
use crate::pallet::govern::{kept, rescue_done, RescueReplies};
use crate::pallet::terms::{fee_parts, math_error, seedable, snapshot_of, terms_hash, vested_at};
use crate::pallet::trade::{
    buy_done, buy_quoted, buy_trade_run, sell_done, BuyArgs, BuyReplies, FeeReplies, SellReplies,
};
use crate::records::{DisburseOutcome, Launch};
use crate::types::{
    AccountId, ActualWeight, AssetKind, Balance, BlockNumber, DispatchError, Error, LaunchId,
    Origin, Preservation,
};
use vstd::prelude::*;

verus! {

/// How a dispatch goes on: a call that is made is on record, and where the runtime
/// refuses it the dispatch ends with that error; a check that fails ends it with the
/// launchpad's own; and once it has ended, nothing more is asked.
pub proof fn law_dispatch_ends_at_the_first_refusal(
    run: Run,
    c: Call,
    due: bool,
    condition: bool,
    e: Error,
    stop: Option<DispatchError>,
)
    ensures
        !run.ok() ==> {
            &&& run.call(c) == run
            &&& run.call_if(due, c) == run
            &&& run.ensure(condition, e) == run
            &&& run.stop(stop) == run
        },
        run.ok() ==> {
            &&& run.call(c).log == run.log.push(c)
            &&& run.call(c).error == c.refusal()
            &&& due ==> run.call_if(due, c) == run.call(c)
            &&& !due ==> run.call_if(due, c) == run
            &&& condition ==> run.ensure(condition, e) == run
            &&& !condition ==> run.ensure(condition, e) == (Run {
                log: run.log,
                error: Some(DispatchError::Module(e)),
            })
            &&& run.stop(stop) == (Run { log: run.log, error: stop })
        },
        c matches Call::Transfer { reply: Err(x), .. } ==> c.refusal() == Some(x),
        c matches Call::AssetTransfer { reply: Err(x), .. } ==> c.refusal() == Some(x),
        c matches Call::OnBuy { reply: Err(x), .. } ==> c.refusal() == Some(x),
        c matches Call::Swap { reply: Err(x), .. } ==> c.refusal() == Some(x),
        c matches Call::AssetBurn { reply: Err(x), .. } ==> c.refusal() == Some(x),
        c matches Call::LockLiquidity { reply: Err(x), .. } ==> c.refusal() == Some(x),
        c matches Call::EnsureManageOrigin { reply: Err(x), .. } ==> c.refusal() == Some(x),
        c matches Call::ClaimPoolCreatorFees { reply: Err(x), .. } ==> c.refusal() == Some(x),
        c is DepositEvent ==> c.refusal() is None,
{
}

/// Paying out a fee's parts.
pub open spec fn fee_asks(run: Run, c: Constants, launch: Launch, fee: u128, r: FeeReplies) -> Run {
    let asset = AssetKind::WithId(launch.asset_id);
    let treasury = fee_parts(
        fee,
        launch.curve.protocol_share_bps,
        launch.curve.treasury_share_bps,
    ).1;
    let (to_protocol, to_vault, vault, creator) = legs(launch, fee, r);
    run.call_if(treasury > 0, Call::TreasuryAccountFor { asset, reply: r.sink }).call(
        Call::MinimumBalance { reply: r.minimum },
    ).call_if(
        treasury > 0 && r.sink is Some && treasury < r.minimum,
        Call::AccountExists { who: r.sink->0, reply: r.sink_exists },
    ).call_if(
        to_protocol > 0,
        Call::Transfer {
            from: launch.escrow,
            to: c.treasury,
            amount: to_protocol,
            keep: Preservation::Preserve,
            reply: r.protocol_paid,
        },
    ).call_if(
        vault is Some,
        Call::Transfer {
            from: launch.escrow,
            to: vault->0,
            amount: to_vault,
            keep: Preservation::Preserve,
            reply: r.vault_paid,
        },
    ).call_if(vault is Some, Call::TreasuryNoteFee { asset, amount: to_vault })
}

/// A buy until its tokens are handed over.
pub open spec fn buy_asks(run: Run, s: Store, a: BuyArgs, r: BuyReplies) -> Run {
    let id = a.launch_id;
    let launch = s.launches[id];
    let (to_curve, extra) = r.open.hook->Ok_0;
    let offer = buy_offer(s, id, to_curve);
    let q = offer->Ok_0;
    let priced = run.ensure(
        s.launches.contains_key(id) && s.curves.contains_key(id),
        Error::LaunchNotFound,
    ).ensure(s.curves[id].phase is Trading, Error::WrongPhase).ensure(
        a.quote_in != 0,
        Error::ZeroAmount,
    ).call(Call::BlockNumber { reply: r.open.now }).call(
        Call::OnBuy {
            launch_id: id,
            created_at: launch.created_at,
            now: r.open.now,
            who: a.who,
            is_creator: a.is_creator,
            quote_in: a.quote_in,
            reply: r.open.hook,
        },
    ).call_if(
        extra > 0,
        Call::Transfer {
            from: a.who,
            to: s.constants.treasury,
            amount: extra,
            keep: Preservation::Preserve,
            reply: r.open.extra_paid,
        },
    ).stop(
        match offer {
            Err(e) => Some(math_error(e)),
            Ok(_) => None,
        },
    ).ensure(q.tokens_out >= a.min_tokens_out, Error::SlippageExceeded);
    fee_asks(
        priced.call(
            Call::Transfer {
                from: a.who,
                to: launch.escrow,
                amount: q.quote_used,
                keep: Preservation::Preserve,
                reply: r.pay.funded,
            },
        ),
        s.constants,
        launch,
        q.fee,
        r.pay.fees,
    ).ensure(q.tokens_out <= s.curves[id].tokens_remaining, Error::ArithmeticOverflow).call(
        Call::AssetTransfer {
            asset: launch.asset_id,
            from: launch.escrow,
            to: a.who,
            amount: q.tokens_out,
            keep: Preservation::Expendable,
            reply: r.delivered,
        },
    )
}

/// A refused buy asked what stands above, up to its refusal, and nothing more.
#[verifier::rlimit(60)]
pub proof fn law_refused_buy_asks_no_more(
    s0: Store,
    log0: Seq<Call>,
    a: BuyArgs,
    r: BuyReplies,
    result: Result<(bool, Balance), DispatchError>,
    s1: Store,
    log1: Seq<Call>,
)
    requires
        buy_done(s0, log0, a, r, result, s1, log1),
    ensures
        result is Err <==> !buy_asks(Run::from(log0), s0, a, r).ok(),
        result is Err ==> log1 == buy_asks(Run::from(log0), s0, a, r).log,
{
    let run = Run::from(log0);
    let traded = buy_trade_run(run, s0, a, r);
    let asks = buy_asks(run, s0, a, r);
    assert(traded == asks.event(
        Event::Bought {
            launch_id: a.launch_id,
            who: a.who,
            quote_used: buy_quoted(s0, a, r).quote_used,
            fee: buy_quoted(s0, a, r).fee,
            tokens_out: buy_quoted(s0, a, r).tokens_out,
        },
    ));
}

/// A sell until the seller is paid.
pub open spec fn sell_asks(
    run: Run,
    s: Store,
    who: AccountId,
    id: LaunchId,
    tokens_in: Balance,
    min_quote_out: Balance,
    r: SellReplies,
) -> Run {
    let launch = s.launches[id];
    let state = s.curves[id];
    let offer = sell_offer(s, id, tokens_in);
    let q = offer->Ok_0;
    let priced = run.ensure(
        s.launches.contains_key(id) && s.curves.contains_key(id),
        Error::LaunchNotFound,
    ).ensure(state.phase is Trading, Error::WrongPhase).ensure(
        tokens_in != 0,
        Error::ZeroAmount,
    ).ensure(
        tokens_in <= greatest(s.constants.sellable - state.tokens_remaining, 0),
        Error::SellExceedsSold,
    ).stop(
        match offer {
            Err(e) => Some(math_error(e)),
            Ok(_) => None,
        },
    ).ensure(q.quote_out >= min_quote_out, Error::SlippageExceeded);
    fee_asks(
        priced.call(
            Call::AssetTransfer {
                asset: launch.asset_id,
                from: who,
                to: launch.escrow,
                amount: tokens_in,
                keep: Preservation::Expendable,
                reply: r.delivered,
            },
        ),
        s.constants,
        launch,
        q.fee,
        r.fees,
    ).call(Call::BlockNumber { reply: r.now }).ensure(
        q.quote_gross <= state.real_quote,
        Error::ArithmeticOverflow,
    ).call(
        Call::Transfer {
            from: launch.escrow,
            to: who,
            amount: q.quote_out,
            keep: Preservation::Preserve,
            reply: r.paid_out,
        },
    )
}

/// A refused sell asked what stands above, up to its refusal, and nothing more.
#[verifier::rlimit(60)]
pub proof fn law_refused_sell_asks_no_more(
    s0: Store,
    log0: Seq<Call>,
    who: AccountId,
    id: LaunchId,
    tokens_in: Balance,
    min_quote_out: Balance,
    r: SellReplies,
    result: Result<(), DispatchError>,
    s1: Store,
    log1: Seq<Call>,
)
    requires
        sell_done(s0, log0, who, id, tokens_in, min_quote_out, r, result, s1, log1),
    ensures
        ({
            let asks = sell_asks(Run::from(log0), s0, who, id, tokens_in, min_quote_out, r);
            &&& result is Err <==> !asks.ok()
            &&& result is Err ==> log1 == asks.log
        }),
{
}

/// A claim, a release or a change by the recipient that is refused by the launchpad
/// itself asks nothing but, for a release, which block it is; one that the runtime
/// refuses asks no more than that.
pub proof fn law_refused_claims_ask_no_more(
    s0: Store,
    log0: Seq<Call>,
    who: AccountId,
    id: LaunchId,
    paid: Result<(), DispatchError>,
    claimed: Result<(), DispatchError>,
    claim_log: Seq<Call>,
    r: ReleaseReplies,
    released: Result<(), DispatchError>,
    release_log: Seq<Call>,
    s1: Store,
    s2: Store,
)
    requires
        claim_done(s0, log0, who, id, paid, claimed, s1, claim_log),
        release_done(s0, log0, who, id, r, released, s2, release_log),
    ensures
        claimed is Err ==> claim_log == log0 || claim_log == log0.push(
            Call::Transfer {
                from: s0.launches[id].escrow,
                to: who,
                amount: s0.curves[id].creator_fees_unclaimed,
                keep: Preservation::Preserve,
                reply: paid,
            },
        ) && paid is Err,
        released is Err ==> {
            ||| release_log == log0
            ||| release_log == log0.push(Call::BlockNumber { reply: r.now })
            ||| r.moved is Err && release_log == log0.push(
                Call::BlockNumber { reply: r.now },
            ).push(
                Call::AssetTransfer {
                    asset: s0.launches[id].asset_id,
                    from: derived(s0.constants.lock_pallet_id, id),
                    to: who,
                    amount: greatest(
                        vested_at(s0.locks[id], r.now) - s0.locks[id].released,
                        0,
                    ) as u128,
                    keep: Preservation::Expendable,
                    reply: r.moved,
                },
            )
        },
{
}

/// A rescue until what the pool did not take is swept.
pub open spec fn rescue_asks(
    run: Run,
    s: Store,
    origin: Origin,
    id: LaunchId,
    deviation_bps: u16,
    r: RescueReplies,
) -> Run {
    let launch = s.launches[id];
    let state = s.curves[id];
    let e = launch.escrow;
    let d = r.deposit;
    let asset = AssetKind::WithId(launch.asset_id);
    let reserved = greatest(s.constants.total_supply - s.constants.sellable, 0) as u128;
    let quote_left = greatest(
        state.real_quote - greatest(d.quote_before - d.quote_after, 0),
        0,
    ) as u128;
    let tokens_left = greatest(
        reserved - greatest(d.tokens_before - d.tokens_after, 0),
        0,
    ) as u128;
    run.call(Call::EnsureManageOrigin { origin, reply: r.due.allowed }).ensure(
        deviation_bps <= 10_000,
        Error::ParamsOutOfBounds,
    ).ensure(
        s.launches.contains_key(id) && s.curves.contains_key(id),
        Error::LaunchNotFound,
    ).ensure(state.phase is Complete && state.completed_at is Some, Error::WrongPhase).call(
        Call::BlockNumber { reply: r.due.now },
    ).ensure(
        r.due.now >= least(state.completed_at->0 + s.constants.rescue_delay, u32::MAX as int),
        Error::RescueNotDue,
    ).call(Call::PoolExists { a: AssetKind::Native, b: asset, reply: r.due.pool }).ensure(
        r.due.pool,
        Error::PoolNotFound,
    ).call(Call::CurrencyBalance { who: e, reply: d.quote_before }).call(
        Call::AssetBalance { asset: launch.asset_id, who: e, reply: d.tokens_before },
    ).call(
        Call::AddLiquidity {
            who: e,
            a: asset,
            b: AssetKind::Native,
            amount_a: reserved,
            amount_b: state.real_quote,
            min_a: kept(reserved, deviation_bps),
            min_b: kept(state.real_quote, deviation_bps),
            reply: d.shares,
        },
    ).call(
        Call::LockLiquidity {
            who: e,
            a: asset,
            b: AssetKind::Native,
            until: u32::MAX,
            reply: d.locked,
        },
    ).call(Call::CurrencyBalance { who: e, reply: d.quote_after }).call(
        Call::AssetBalance { asset: launch.asset_id, who: e, reply: d.tokens_after },
    ).call_if(
        quote_left > 0,
        Call::Transfer {
            from: e,
            to: s.constants.treasury,
            amount: quote_left,
            keep: Preservation::Preserve,
            reply: r.quote_swept,
        },
    ).call_if(
        tokens_left > 0,
        Call::AssetTransfer {
            asset: launch.asset_id,
            from: e,
            to: s.constants.treasury,
            amount: tokens_left,
            keep: Preservation::Expendable,
            reply: r.tokens_swept,
        },
    )
}

/// A refused rescue asked what stands above, up to its refusal, and nothing more.
#[verifier::rlimit(60)]
pub proof fn law_refused_rescue_asks_no_more(
    s0: Store,
    log0: Seq<Call>,
    origin: Origin,
    id: LaunchId,
    deviation_bps: u16,
    r: RescueReplies,
    result: Result<(), DispatchError>,
    s1: Store,
    log1: Seq<Call>,
)
    requires
        rescue_done(s0, log0, origin, id, deviation_bps, r, result, s1, log1),
    ensures
        ({
            let asks = rescue_asks(Run::from(log0), s0, origin, id, deviation_bps, r);
            &&& result is Err <==> !asks.ok()
            &&& result is Err ==> log1 == asks.log
        }),
{
}

/// Walking on to a free asset id once `n` were tried.
pub open spec fn walk_asks(run: Run, s: Store, n: nat, replies: Seq<bool>) -> Run
    decreases 256 - n,
{
    if !run.ok() {
        run
    } else if n >= 256 {
        run.ensure(false, Error::AssetIdTaken)
    } else {
        let id = nth_id(s, n as int);
        let asked = run.call(Call::AssetExists { asset: id, reply: replies[n as int] });
        if !replies[n as int] && !s.asset_to_launch.contains_key(id) {
            asked
        } else {
            walk_asks(asked, s, n + 1, replies)
        }
    }
}

proof fn lemma_walk(run: Run, s: Store, n: nat, replies: Seq<bool>)
    ensures
        walk_asks(run, s, n, replies) == scan_run(run, s, n, replies),
    decreases 256 - n,
{
    if run.ok() && n < 256 {
        assert(asset_tried(s, n) == nth_id(s, n as int));
        let asked = run.call(
            Call::AssetExists { asset: nth_id(s, n as int), reply: replies[n as int] },
        );
        lemma_walk(asked, s, n + 1, replies);
    }
}

/// A creation until its launch is reported.
pub open spec fn launch_asks(run: Run, s: Store, a: CreateArgs, r: CreateReplies) -> Run {
    let c = s.constants;
    let id = s.next_launch_id;
    let live = s.live_params();
    let asset = asset_chosen(s, r.check.scan);
    let e = derived(c.pallet_id, id);
    let hash = terms_hash(c, snapshot_of(live));
    let burns = a.commitments.fee_disposition is BuybackBurn;
    let locks = a.commitments.lock is Some;
    let reserved = greatest(c.total_supply - c.sellable, 0) as u128;
    let ready = run.ensure(!s.creation_paused, Error::CreationPaused).ensure(
        a.name.len() > 0 && a.symbol.len() > 0,
        Error::InvalidMetadata,
    ).ensure(locks ==> a.initial_buy != 0, Error::LockWithoutPosition).ensure(
        locks ==> a.commitments.lock->0.cliff + a.commitments.lock->0.vest <= c.max_lock_blocks,
        Error::CommitmentOutOfBounds,
    );
    let checked = walk_asks(ready, s, 0, r.check.scan).ensure(
        a.expected_params_hash is Some ==> a.expected_params_hash->0 == hash,
        Error::ParamsMismatch,
    ).call(
        Call::PoolExists {
            a: AssetKind::Native,
            b: AssetKind::WithId(asset),
            reply: r.check.pool,
        },
    ).ensure(!r.check.pool, Error::PoolAlreadySeeded).ensure(
        seedable(c, live.graduation_target, reserved),
        Error::Unseedable,
    );
    let minted = checked.call(
        Call::Transfer {
            from: a.creator,
            to: e,
            amount: live.creation_fee,
            keep: Preservation::Preserve,
            reply: r.mint.fee_paid,
        },
    ).call(
        Call::AssetCreate {
            asset,
            admin: e,
            is_sufficient: false,
            min_balance: 1,
            reply: r.mint.created,
        },
    ).call(
        Call::AssetSetMetadata {
            asset,
            who: e,
            name: a.name,
            symbol: a.symbol,
            decimals: 18,
            reply: r.mint.described,
        },
    ).call(
        Call::AssetMint { asset, who: e, amount: c.total_supply, reply: r.mint.minted },
    ).call(Call::ReducibleBalance { who: e, reply: r.mint.spare }).call_if(
        r.mint.spare > 0,
        Call::Transfer {
            from: e,
            to: c.treasury,
            amount: r.mint.spare,
            keep: Preservation::Preserve,
            reply: r.mint.spare_paid,
        },
    ).call(Call::BlockNumber { reply: r.mint.now });
    minted.call_if(burns, Call::MinimumBalance { reply: r.fund.commit_minimum }).call_if(
        burns,
        Call::Transfer {
            from: a.creator,
            to: derived(c.commit_pallet_id, id),
            amount: r.fund.commit_minimum,
            keep: Preservation::Preserve,
            reply: r.fund.commit_funded,
        },
    ).call_if(locks, Call::MinimumBalance { reply: r.fund.lock_minimum }).call_if(
        locks,
        Call::Transfer {
            from: a.creator,
            to: derived(c.lock_pallet_id, id),
            amount: r.fund.lock_minimum,
            keep: Preservation::Preserve,
            reply: r.fund.lock_funded,
        },
    ).ensure(id < u64::MAX, Error::ArithmeticOverflow).event(
        Event::LaunchCreated { id, asset_id: asset, creator: a.creator, params_hash: hash },
    ).call_if(
        a.metadata is Some,
        Call::DepositEvent { event: Event::LaunchMetadataSet { launch_id: id } },
    )
}

/// A creation that is refused before its launch is recorded asked what stands above,
/// up to its refusal, and nothing more.
#[verifier::rlimit(60)]
pub proof fn law_refused_creation_asks_no_more(
    s0: Store,
    log0: Seq<Call>,
    a: CreateArgs,
    r: CreateReplies,
    result: Result<Option<ActualWeight>, DispatchError>,
    s1: Store,
    log1: Seq<Call>,
)
    requires
        create_done(s0, log0, a, r, result, s1, log1),
    ensures
        ({
            let asks = launch_asks(Run::from(log0), s0, a, r);
            &&& !asks.ok() ==> result is Err && log1 == asks.log
            &&& asks.ok() && a.initial_buy == 0 ==> result is Ok && log1 == asks.log
        }),
{
    let run = Run::from(log0);
    let c = s0.constants;
    let ready = run.ensure(!s0.creation_paused, Error::CreationPaused).ensure(
        a.name.len() > 0 && a.symbol.len() > 0,
        Error::InvalidMetadata,
    ).ensure(a.commitments.lock is Some ==> a.initial_buy != 0, Error::LockWithoutPosition).ensure(
        a.commitments.lock is Some ==> a.commitments.lock->0.cliff + a.commitments.lock->0.vest
            <= c.max_lock_blocks,
        Error::CommitmentOutOfBounds,
    );
    lemma_walk(ready, s0, 0, r.check.scan);
    assert(launch_asks(run, s0, a, r) == launch_run(run, s0, a, r));
}

/// Claiming both legs of a disbursement.
pub open spec fn claim_asks(run: Run, s: Store, id: LaunchId, r: DisburseReplies) -> Run {
    let launch = s.launches[id];
    let commit = derived(s.constants.commit_pallet_id, id);
    let asset = AssetKind::WithId(launch.asset_id);
    let owed = owed_on_curve(s, id);
    run.ensure(s.launches.contains_key(id), Error::LaunchNotFound).ensure(
        launch.commitments.fee_disposition is BuybackBurn,
        Error::NotCommitted,
    ).call_if(
        owed > 0,
        Call::CurveWritten { launch_id: id, curve: owed_nothing(s.curves[id]) },
    ).call_if(
        owed > 0,
        Call::Transfer {
            from: launch.escrow,
            to: commit,
            amount: owed,
            keep: Preservation::Preserve,
            reply: r.leg_paid,
        },
    ).call(Call::PoolCreatorFees { asset, reply: r.pool_leg }).call_if(
        r.pool_leg > 0,
        Call::ClaimPoolCreatorFees { who: commit, asset, reply: r.pool_claimed },
    ).call(Call::BlockNumber { reply: r.now }).call(
        Call::ReducibleBalance { who: commit, reply: r.pending },
    )
}

/// A disbursement that is refused before its slice asked what stands above, up to its
/// refusal, and nothing more.
pub proof fn law_refused_disbursement_asks_no_more(
    s0: Store,
    log0: Seq<Call>,
    id: LaunchId,
    r: DisburseReplies,
    result: Result<DisburseOutcome, DispatchError>,
    s1: Store,
    log1: Seq<Call>,
)
    requires
        disburse_done(s0, log0, id, r, result, s1, log1),
    ensures
        ({
            let asks = claim_asks(Run::from(log0), s0, id, r);
            !asks.ok() ==> result is Err && log1 == asks.log
        }),
{
    assert(claim_asks(Run::from(log0), s0, id, r) == claim_legs_run(Run::from(log0), s0, id, r));
}

} // verus!
