//! What a disbursement is for: the creator's committed fees are claimed from both
//! legs, and one slice of what is pending buys the token back and burns it.
use crate::accounts::derived;
use crate::config::{Call, Run};
use crate::event::Event;
use crate::laws::outcomes::then;
use crate::laws::rules::{greatest, least};
use crate::pallet::Store;
use crate::pallet::disburse::{
    claim_legs_run, disburse_called, disburse_done, disburse_run, disburse_store, disburse_value,
    leg_taken, slice_buy, slice_run, slice_size, slice_size_run, slice_trade_run, venue_quote,
    DisburseCallReplies, DisburseReplies,
};
use crate::pallet::trade::{buy_done, buy_store, buy_value, BuyArgs};
use crate::records::{CurveState, DisburseOutcome};
use crate::types::{AssetKind, Balance, BlockNumber, DispatchError, Error, LaunchId, Preservation};
use vstd::prelude::*;

verus! {

/// What the creator is owed on a launch's curve.
pub open spec fn owed_on_curve(s: Store, id: LaunchId) -> Balance {
    if s.curves.contains_key(id) {
        s.curves[id].creator_fees_unclaimed
    } else {
        0
    }
}

/// A launch's curve once its creator fees are claimed.
pub open spec fn owed_nothing(c: CurveState) -> CurveState {
    CurveState {
        phase: c.phase,
        real_quote: c.real_quote,
        tokens_remaining: c.tokens_remaining,
        creator_fees_unclaimed: 0,
        protocol_fees_paid: c.protocol_fees_paid,
        treasury_fees_paid: c.treasury_fees_paid,
        last_trade_block: c.last_trade_block,
        completed_at: c.completed_at,
        graduated_at: c.graduated_at,
        lp_shares: c.lp_shares,
    }
}

/// The records once the creator fees are claimed.
pub open spec fn claimed_store(s: Store, id: LaunchId) -> Store {
    if s.curves.contains_key(id) {
        Store { curves: s.curves.insert(id, owed_nothing(s.curves[id])), ..s }
    } else {
        s
    }
}

/// Why a disbursement is refused before its slice, if it is.
pub open spec fn claim_stopped(s: Store, id: LaunchId, r: DisburseReplies) -> Option<
    DispatchError,
> {
    if !s.launches.contains_key(id) {
        Some(DispatchError::Module(Error::LaunchNotFound))
    } else if s.launches[id].commitments.fee_disposition is Recipient {
        Some(DispatchError::Module(Error::NotCommitted))
    } else {
        match (r.leg_paid, r.pool_claimed) {
            (Err(e), _) if owed_on_curve(s, id) > 0 => Some(e),
            (_, Err(e)) if r.pool_leg > 0 => Some(e),
            _ => None,
        }
    }
}

/// The record once both legs were claimed.
pub open spec fn claimed_on_record(
    log: Seq<Call>,
    s: Store,
    id: LaunchId,
    r: DisburseReplies,
) -> Seq<Call> {
    let launch = s.launches[id];
    let commit = derived(s.constants.commit_pallet_id, id);
    let asset = AssetKind::WithId(launch.asset_id);
    let owed = owed_on_curve(s, id);
    let l1 = then(
        log,
        owed > 0,
        Call::CurveWritten { launch_id: id, curve: owed_nothing(s.curves[id]) },
    );
    let l2 = then(
        l1,
        owed > 0,
        Call::Transfer {
            from: launch.escrow,
            to: commit,
            amount: owed,
            keep: Preservation::Preserve,
            reply: r.leg_paid,
        },
    ).push(Call::PoolCreatorFees { asset, reply: r.pool_leg });
    then(
        l2,
        r.pool_leg > 0,
        Call::ClaimPoolCreatorFees { who: commit, asset, reply: r.pool_claimed },
    ).push(Call::BlockNumber { reply: r.now }).push(
        Call::ReducibleBalance { who: commit, reply: r.pending },
    )
}

/// A slice is in time: there was none before, or the burn interval has passed.
pub open spec fn in_time(s: Store, id: LaunchId, now: BlockNumber) -> bool {
    ||| !s.last_disburse_block.contains_key(id)
    ||| s.constants.min_burn_interval == 0
    ||| now >= s.last_disburse_block[id] + s.constants.min_burn_interval
}

/// The record once a slice's size is known, and its balance measured.
pub open spec fn sized_on_record(
    log: Seq<Call>,
    s: Store,
    id: LaunchId,
    r: DisburseReplies,
) -> Seq<Call> {
    let l1 = then(
        log,
        s.curves[id].phase is Graduated,
        Call::NativeReserves {
            asset: AssetKind::WithId(s.launches[id].asset_id),
            reply: r.slice.pool,
        },
    );
    then(
        l1,
        venue_quote(s, id, r.slice.pool) != 0,
        Call::MinimumBalance { reply: r.slice.minimum },
    )
}

/// How a disbursement ends once its slice was traded for `tokens`, with the
/// records `s2` and the calls `log2`: what the slice cost is measured, the tokens
/// are burned, and a slice that cost anything starts the interval anew.
pub open spec fn burned(
    s0: Store,
    id: LaunchId,
    r: DisburseReplies,
    tokens: Balance,
    s2: Store,
    log2: Seq<Call>,
    result: Result<DisburseOutcome, DispatchError>,
    s1: Store,
    log1: Seq<Call>,
) -> bool {
    let commit = derived(s0.constants.commit_pallet_id, id);
    let spent = greatest(r.slice.before - r.slice.after, 0) as u128;
    let claimed = least(owed_on_curve(s0, id) + r.pool_leg, u128::MAX as int) as u128;
    &&& log1 == then(
        log2.push(Call::CurrencyBalance { who: commit, reply: r.slice.after }),
        tokens > 0,
        Call::AssetBurn {
            asset: s0.launches[id].asset_id,
            who: commit,
            amount: tokens,
            reply: r.slice.burned,
        },
    )
    &&& match r.slice.burned {
        Err(e) if tokens > 0 => result == Err::<DisburseOutcome, _>(e) && s1 == s0,
        _ => {
            &&& result == Ok::<DisburseOutcome, DispatchError>((claimed, spent, tokens, true))
            &&& s1 == if spent > 0 {
                Store { last_disburse_block: s2.last_disburse_block.insert(id, r.now), ..s2 }
            } else {
                s2
            }
        },
    }
}

/// How a disbursement ends whose slice is bought on the curve: as the buy does.
pub open spec fn bought_back(
    s0: Store,
    id: LaunchId,
    r: DisburseReplies,
    buy: BuyArgs,
    log: Seq<Call>,
    result: Result<DisburseOutcome, DispatchError>,
    s1: Store,
    log1: Seq<Call>,
) -> bool {
    exists|inner: Result<(bool, Balance), DispatchError>, s2: Store, log2: Seq<Call>|
        {
            &&& #[trigger] buy_done(
                claimed_store(s0, id),
                log,
                buy,
                r.slice.buy,
                inner,
                s2,
                log2,
            )
            &&& match inner {
                Err(e) => result == Err::<DisburseOutcome, _>(e) && s1 == s0 && log1 == log2,
                Ok((_, tokens)) => burned(s0, id, r, tokens, s2, log2, result, s1, log1),
            }
        }
}

/// A disbursement is refused where the launch is not there or not committed, or
/// where a claim is; otherwise both legs are claimed whole. A slice follows whenever
/// something is pending and the interval has passed, whatever the phase: all that
/// is pending up to the cap, bought on the curve by the commitment account while the
/// launch trades, swapped in the pool once it has graduated, and burned. Without a
/// venue, or where the slice is dust, nothing is spent. Where anything of it fails,
/// nothing changes.
#[verifier::rlimit(100)]
pub proof fn law_what_a_disbursement_does(
    s0: Store,
    log0: Seq<Call>,
    id: LaunchId,
    r: DisburseReplies,
    buy: BuyArgs,
    result: Result<DisburseOutcome, DispatchError>,
    s1: Store,
    log1: Seq<Call>,
)
    requires
        disburse_done(s0, log0, id, r, result, s1, log1),
        buy == (BuyArgs {
            who: derived(s0.constants.commit_pallet_id, id),
            launch_id: id,
            quote_in: slice_size(
                s0.constants,
                venue_quote(s0, id, r.slice.pool),
                r.pending,
            ),
            min_tokens_out: 0,
            is_creator: false,
            is_trade: false,
        }),
    ensures
        match claim_stopped(s0, id, r) {
            Some(e) => result == Err::<DisburseOutcome, _>(e) && s1 == s0,
            None => {
                let asset = s0.launches[id].asset_id;
                let commit = derived(s0.constants.commit_pallet_id, id);
                let claimed = least(owed_on_curve(s0, id) + r.pool_leg, u128::MAX as int) as u128;
                let taken = claimed_store(s0, id);
                let l1 = claimed_on_record(log0, s0, id, r);
                let reserve = venue_quote(s0, id, r.slice.pool);
                let size = slice_size(s0.constants, reserve, r.pending);
                if r.pending == 0 || !in_time(s0, id, r.now) {
                    &&& result == Ok::<DisburseOutcome, DispatchError>(
                        (claimed, 0, 0, in_time(s0, id, r.now)),
                    )
                    &&& s1 == taken
                    &&& log1 == l1
                } else if !s0.curves.contains_key(id) {
                    &&& result == Err::<DisburseOutcome, _>(
                        DispatchError::Module(Error::LaunchNotFound),
                    )
                    &&& s1 == s0
                    &&& log1 == l1
                } else if reserve == 0 || size < r.slice.minimum {
                    &&& result == Ok::<DisburseOutcome, DispatchError>((claimed, 0, 0, true))
                    &&& s1 == taken
                    &&& log1 == sized_on_record(l1, s0, id, r)
                } else {
                    let l2 = sized_on_record(l1, s0, id, r).push(
                        Call::CurrencyBalance { who: commit, reply: r.slice.before },
                    );
                    if s0.curves[id].phase is Trading {
                        bought_back(s0, id, r, buy, l2, result, s1, log1)
                    } else {
                        let l3 = l2.push(
                            Call::Swap {
                                who: commit,
                                from: AssetKind::Native,
                                to: AssetKind::WithId(asset),
                                amount: size,
                                min_out: 0,
                                reply: r.slice.swapped,
                            },
                        );
                        match r.slice.swapped {
                            Err(e) => {
                                &&& result == Err::<DisburseOutcome, _>(e)
                                &&& s1 == s0
                                &&& log1 == l3
                            },
                            Ok(tokens) => burned(s0, id, r, tokens, taken, l3, result, s1, log1),
                        }
                    }
                }
            },
        },
{
    let run = Run::from(log0);
    let taken = claimed_store(s0, id);
    let claimed = claim_legs_run(run, s0, id, r);
    assert(leg_taken(s0, id) == taken);
    match claim_stopped(s0, id, r) {
        Some(e) => {
            assert(claimed.error == Some(e));
        },
        None => {
            assert(claimed.ok());
            assert(claimed.log == claimed_on_record(log0, s0, id, r));
            if r.pending > 0 && in_time(s0, id, r.now) && s0.curves.contains_key(id) {
                let reserve = venue_quote(s0, id, r.slice.pool);
                assert(venue_quote(taken, id, r.slice.pool) == reserve);
                let size = slice_size(s0.constants, reserve, r.pending);
                let sized = slice_size_run(claimed, taken, id, r.slice);
                assert(sized.ok());
                assert(sized.log == sized_on_record(claimed.log, s0, id, r));
                if reserve != 0 && size >= r.slice.minimum {
                    let commit = derived(s0.constants.commit_pallet_id, id);
                    let before = sized.call(
                        Call::CurrencyBalance { who: commit, reply: r.slice.before },
                    );
                    let done = slice_run(claimed, taken, id, r.pending, r.slice);
                    assert(disburse_run(run, s0, id, r) == done);
                    assert(buy == slice_buy(taken.constants, id, size));
                    let traded = slice_trade_run(before, taken, id, size, r.slice);
                    if s0.curves[id].phase is Trading {
                        assert(before == Run::from(before.log));
                        let inner = traded.result(buy_value(taken, buy, r.slice.buy));
                        let s2 = if traded.ok() {
                            buy_store(taken, buy, r.slice.buy)
                        } else {
                            taken
                        };
                        assert(buy_done(
                            taken,
                            before.log,
                            buy,
                            r.slice.buy,
                            inner,
                            s2,
                            traded.log,
                        ));
                        if let Ok((crossed, tokens)) = inner {
                            assert(burned(
                                s0,
                                id,
                                r,
                                tokens,
                                s2,
                                traded.log,
                                result,
                                s1,
                                log1,
                            ));
                        }
                        assert(bought_back(s0, id, r, buy, before.log, result, s1, log1));
                    }
                }
            }
        },
    }
}

/// The `disburse` call is a disbursement that must have done something: one that
/// claimed and spent nothing is refused, as too soon where only the interval stood
/// in the way of what is pending, and changes nothing. Any other is reported.
pub proof fn law_what_the_disburse_call_does(
    s0: Store,
    log0: Seq<Call>,
    id: LaunchId,
    r: DisburseCallReplies,
    result: Result<(), DispatchError>,
    s1: Store,
    log1: Seq<Call>,
)
    requires
        disburse_called(s0, log0, id, r, result, s1, log1),
    ensures
        exists|inner: Result<DisburseOutcome, DispatchError>, s2: Store, log2: Seq<Call>|
            {
                &&& #[trigger] disburse_done(s0, log0, id, r.inner, inner, s2, log2)
                &&& match inner {
                    Err(e) => result == Err::<(), _>(e) && s1 == s0 && log1 == log2,
                    Ok((claimed, spent, tokens, interval_ok)) => if claimed == 0 && spent == 0 {
                        &&& s1 == s0
                        &&& result == Err::<(), _>(
                            DispatchError::Module(
                                if !interval_ok && r.pending >= r.minimum {
                                    Error::TooSoon
                                } else {
                                    Error::NothingToDo
                                },
                            ),
                        )
                    } else {
                        &&& result is Ok
                        &&& s1 == s2
                        &&& log1 == log2.push(
                            Call::DepositEvent {
                                event: Event::Disbursed {
                                    launch_id: id,
                                    claimed,
                                    vtrs_burned_in: spent,
                                    tokens_burned: tokens,
                                },
                            },
                        )
                    },
                }
            },
{
    let run = disburse_run(Run::from(log0), s0, id, r.inner);
    let inner = run.result(disburse_value(s0, id, r.inner));
    let s2 = if run.ok() {
        disburse_store(s0, id, r.inner)
    } else {
        s0
    };
    assert(disburse_done(s0, log0, id, r.inner, inner, s2, run.log));
}

/// A refused `disburse` asked, for its reason, what is pending in the commitment
/// account, and what the least is that a slice spends where the interval has not
/// passed.
pub proof fn law_refused_disbursement_asked_what_is_pending(
    s0: Store,
    log0: Seq<Call>,
    id: LaunchId,
    r: DisburseCallReplies,
    inner: DisburseOutcome,
    s2: Store,
    log2: Seq<Call>,
    result: Result<(), DispatchError>,
    s1: Store,
    log1: Seq<Call>,
)
    requires
        disburse_called(s0, log0, id, r, result, s1, log1),
        disburse_done(s0, log0, id, r.inner, Ok(inner), s2, log2),
        inner.0 == 0,
        inner.1 == 0,
    ensures
        log1 == then(
            log2.push(
                Call::ReducibleBalance {
                    who: derived(s0.constants.commit_pallet_id, id),
                    reply: r.pending,
                },
            ),
            !inner.3,
            Call::MinimumBalance { reply: r.minimum },
        ),
{
}

/// Whenever something is pending and at least the interval has passed since the
/// last slice, a slice is due, whatever the phase; a launch that has graduated then
/// swaps in its pool and burns what it gets.
pub proof fn law_a_due_slice_is_not_held_back(
    s0: Store,
    log0: Seq<Call>,
    id: LaunchId,
    r: DisburseReplies,
    result: Result<DisburseOutcome, DispatchError>,
    s1: Store,
    log1: Seq<Call>,
)
    requires
        disburse_done(s0, log0, id, r, result, s1, log1),
        result is Ok,
        s0.last_disburse_block.contains_key(id) ==> r.now >= s0.last_disburse_block[id]
            + s0.constants.min_burn_interval,
    ensures
        (result->Ok_0).3,
        ({
            let reserve = (r.slice.pool->0).0;
            let size = slice_size(s0.constants, reserve, r.pending);
            s0.curves.contains_key(id) && s0.curves[id].phase is Graduated && r.slice.pool is Some
                && reserve > 0 && r.pending > 0 && size >= r.slice.minimum ==> {
                &&& r.slice.swapped matches Ok(tokens) && (result->Ok_0).2 == tokens
                &&& (result->Ok_0).1 == greatest(r.slice.before - r.slice.after, 0)
            }
        }),
{
    let buy = BuyArgs {
        who: derived(s0.constants.commit_pallet_id, id),
        launch_id: id,
        quote_in: slice_size(s0.constants, venue_quote(s0, id, r.slice.pool), r.pending),
        min_tokens_out: 0,
        is_creator: false,
        is_trade: false,
    };
    law_what_a_disbursement_does(s0, log0, id, r, buy, result, s1, log1);
}

} // verus!
