//! What each call is for: when it goes through and why it is refused otherwise,
//! what it leaves in the records, and what it asks of the runtime in which order.
//! All of it is said of the records and the answers as they stand; a call is
//! named only by what it did.
use crate::accounts::derived;
use crate::config::{Call, Constants, Run};
use crate::curve::{buy_quote, sell_quote, BuyQuote, MathError, SellQuote, State, Terms};
use crate::event::Event;
use crate::laws::action::{metadata_done, recipient_done};
use crate::laws::curve::{law_buy_adds_up, law_sell_adds_up};
use crate::laws::pricing::{is_floor, lemma_floor_is_unique};
use crate::laws::rules::{greatest, law_vesting_is_linear, least};
use crate::pallet::Store;
use crate::pallet::commitments::{
    claim_done, metadata_run, recipient_run, release_done, ReleaseReplies,
};
use crate::pallet::govern::{kept, rescue_done, set_params_done, set_paused_done, RescueReplies};
use crate::pallet::terms::{
    fee_parts, fee_vault, lemma_shares_fit, math_error, params_in_bounds, pricing, routed, terms_of,
    vested_at,
};
use crate::pallet::trade::{
    buy_called, buy_done, buy_run, buy_settled, buy_state, buy_value, seed_done, sell_done,
    user_buy, BuyArgs, BuyReplies, FeeReplies, SeedReplies, SellReplies,
};
use crate::pallet::views::{venue_buy, venue_buy_done};
use crate::records::{CurveState, Launch, LaunchMetadata, LaunchParams, LockState, Phase};
use crate::types::{
    AccountId, ActualWeight, AssetKind, Balance, BlockNumber, DispatchError, Error, LaunchId,
    Origin, Preservation,
};
use vstd::prelude::*;

verus! {

/// What a launch's curve charges now for a buy.
pub open spec fn buy_offer(s: Store, id: LaunchId, quote_in: Balance) -> Result<
    BuyQuote,
    MathError,
> {
    let launch = s.launches[id];
    let state = s.curves[id];
    buy_quote(
        Terms {
            virtual_quote: launch.curve.virtual_quote,
            token_floor: s.constants.virtual_token_floor,
            fee_bps: launch.curve.curve_fee_bps as u128,
        },
        State { real_quote: state.real_quote, tokens_remaining: state.tokens_remaining },
        quote_in,
    )
}

/// What a launch's curve pays now for a sell.
pub open spec fn sell_offer(s: Store, id: LaunchId, tokens_in: Balance) -> Result<
    SellQuote,
    MathError,
> {
    let launch = s.launches[id];
    let state = s.curves[id];
    sell_quote(
        Terms {
            virtual_quote: launch.curve.virtual_quote,
            token_floor: s.constants.virtual_token_floor,
            fee_bps: launch.curve.curve_fee_bps as u128,
        },
        State { real_quote: state.real_quote, tokens_remaining: state.tokens_remaining },
        tokens_in,
    )
}

/// Who gets what of a fee: `(to the protocol, to the vault, the vault, what the
/// creator is owed)`.
pub open spec fn legs(launch: Launch, fee: u128, r: FeeReplies) -> (
    u128,
    u128,
    Option<AccountId>,
    u128,
) {
    let (protocol, treasury, creator) = fee_parts(
        fee,
        launch.curve.protocol_share_bps,
        launch.curve.treasury_share_bps,
    );
    let vault = fee_vault(treasury, r.sink, r.minimum, r.sink_exists);
    let (to_protocol, to_vault) = routed(protocol, treasury, vault);
    (to_protocol, to_vault, vault, creator)
}

/// The refusal with which paying out a fee's parts ends, if one of them is due
/// and refused.
pub open spec fn fee_refused(launch: Launch, fee: u128, r: FeeReplies) -> Option<DispatchError> {
    let (to_protocol, to_vault, vault, creator) = legs(launch, fee, r);
    match (r.protocol_paid, r.vault_paid) {
        (Err(e), _) if to_protocol > 0 => Some(e),
        (_, Err(e)) if vault is Some => Some(e),
        _ => None,
    }
}

/// One more call on record, where it was due.
pub open spec fn then(log: Seq<Call>, due: bool, c: Call) -> Seq<Call> {
    if due {
        log.push(c)
    } else {
        log
    }
}

/// The record once a fee's parts were paid out of an escrow.
pub open spec fn fee_on_record(
    log: Seq<Call>,
    c: Constants,
    launch: Launch,
    fee: u128,
    r: FeeReplies,
) -> Seq<Call> {
    let asset = AssetKind::WithId(launch.asset_id);
    let treasury = fee_parts(
        fee,
        launch.curve.protocol_share_bps,
        launch.curve.treasury_share_bps,
    ).1;
    let (to_protocol, to_vault, vault, creator) = legs(launch, fee, r);
    let l1 = then(log, treasury > 0, Call::TreasuryAccountFor { asset, reply: r.sink });
    let l2 = l1.push(Call::MinimumBalance { reply: r.minimum });
    let l3 = then(
        l2,
        treasury > 0 && r.sink is Some && treasury < r.minimum,
        Call::AccountExists { who: r.sink->0, reply: r.sink_exists },
    );
    let l4 = then(
        l3,
        to_protocol > 0,
        Call::Transfer {
            from: launch.escrow,
            to: c.treasury,
            amount: to_protocol,
            keep: Preservation::Preserve,
            reply: r.protocol_paid,
        },
    );
    let l5 = then(
        l4,
        vault is Some,
        Call::Transfer {
            from: launch.escrow,
            to: vault->0,
            amount: to_vault,
            keep: Preservation::Preserve,
            reply: r.vault_paid,
        },
    );
    then(l5, vault is Some, Call::TreasuryNoteFee { asset, amount: to_vault })
}

// ---- buying --------------------------------------------------------------

/// Why a buy is refused, if it is.
pub open spec fn buy_stopped(s: Store, a: BuyArgs, r: BuyReplies) -> Option<DispatchError> {
    let id = a.launch_id;
    if !s.launches.contains_key(id) || !s.curves.contains_key(id) {
        Some(DispatchError::Module(Error::LaunchNotFound))
    } else if !(s.curves[id].phase is Trading) {
        Some(DispatchError::Module(Error::WrongPhase))
    } else if a.quote_in == 0 {
        Some(DispatchError::Module(Error::ZeroAmount))
    } else {
        match r.open.hook {
            Err(e) => Some(e),
            Ok((to_curve, extra)) => match (r.open.extra_paid, buy_offer(s, id, to_curve)) {
                (Err(e), _) if extra > 0 => Some(e),
                (_, Err(e)) => Some(math_error(e)),
                (_, Ok(q)) => if q.tokens_out < a.min_tokens_out {
                    Some(DispatchError::Module(Error::SlippageExceeded))
                } else {
                    match (
                        r.pay.funded,
                        fee_refused(s.launches[id], q.fee, r.pay.fees),
                        r.delivered,
                    ) {
                        (Err(e), _, _) => Some(e),
                        (_, Some(e), _) => Some(e),
                        (_, _, Err(e)) => Some(e),
                        _ => None,
                    }
                },
            },
        }
    }
}

/// What a buy at price `q` leaves of a curve: the tokens are gone from it, the
/// quote without the fee is on it, and each part of the fee is added to its own
/// sum. A buy that took the last token completes it, and a seed that the DEX took
/// graduates it. Nothing else of it changes.
pub open spec fn buy_leaves(
    before: CurveState,
    after: CurveState,
    launch: Launch,
    q: BuyQuote,
    is_trade: bool,
    r: BuyReplies,
) -> bool {
    let crossed = q.tokens_out == before.tokens_remaining;
    let seeded = crossed && r.seed.shares is Ok;
    let (to_protocol, to_vault, vault, creator) = legs(launch, q.fee, r.pay.fees);
    let most = u128::MAX as int;
    &&& after.tokens_remaining == before.tokens_remaining - q.tokens_out
    &&& after.real_quote == if seeded {
        0
    } else {
        before.real_quote + q.quote_net_used
    }
    &&& after.creator_fees_unclaimed == least(before.creator_fees_unclaimed + creator, most)
    &&& after.protocol_fees_paid == least(before.protocol_fees_paid + to_protocol, most)
    &&& after.treasury_fees_paid == least(before.treasury_fees_paid + to_vault, most)
    &&& after.last_trade_block == if is_trade {
        r.open.now
    } else {
        before.last_trade_block
    }
    &&& after.phase == if seeded {
        Phase::Graduated
    } else if crossed {
        Phase::Complete
    } else {
        before.phase
    }
    &&& after.completed_at == if crossed {
        Some(r.open.now)
    } else {
        before.completed_at
    }
    &&& after.graduated_at == if seeded {
        Some(r.seed.now)
    } else {
        before.graduated_at
    }
    &&& after.lp_shares == if seeded {
        r.seed.shares->Ok_0
    } else {
        before.lp_shares
    }
}

/// The record after a buy that went through: the hook is asked before anything
/// moves, the payment comes in before the fee goes out, and the tokens last. A buy
/// that took the last token goes on to the seed.
pub open spec fn buy_on_record(
    log: Seq<Call>,
    s: Store,
    a: BuyArgs,
    q: BuyQuote,
    settled: CurveState,
    r: BuyReplies,
) -> Seq<Call> {
    let id = a.launch_id;
    let launch = s.launches[id];
    let extra = (r.open.hook->Ok_0).1;
    let l1 = log.push(Call::BlockNumber { reply: r.open.now }).push(
        Call::OnBuy {
            launch_id: id,
            created_at: launch.created_at,
            now: r.open.now,
            who: a.who,
            is_creator: a.is_creator,
            quote_in: a.quote_in,
            reply: r.open.hook,
        },
    );
    let l2 = then(
        l1,
        extra > 0,
        Call::Transfer {
            from: a.who,
            to: s.constants.treasury,
            amount: extra,
            keep: Preservation::Preserve,
            reply: r.open.extra_paid,
        },
    );
    let l3 = l2.push(
        Call::Transfer {
            from: a.who,
            to: launch.escrow,
            amount: q.quote_used,
            keep: Preservation::Preserve,
            reply: r.pay.funded,
        },
    );
    let l4 = fee_on_record(l3, s.constants, launch, q.fee, r.pay.fees);
    let l5 = l4.push(
        Call::AssetTransfer {
            asset: launch.asset_id,
            from: launch.escrow,
            to: a.who,
            amount: q.tokens_out,
            keep: Preservation::Expendable,
            reply: r.delivered,
        },
    ).push(
        Call::DepositEvent {
            event: Event::Bought {
                launch_id: id,
                who: a.who,
                quote_used: q.quote_used,
                fee: q.fee,
                tokens_out: q.tokens_out,
            },
        },
    );
    if q.tokens_out != s.curves[id].tokens_remaining {
        l5
    } else {
        let l6 = l5.push(Call::CurveWritten { launch_id: id, curve: settled }).push(
            Call::DepositEvent {
                event: Event::CurveCompleted { launch_id: id, raised: settled.real_quote },
            },
        );
        let l7 = seed_on_record(l6, s.constants, launch, id, settled.real_quote, true, r.seed);
        match r.seed.shares {
            Ok(_) => l7,
            Err(error) => l7.push(
                Call::DepositEvent { event: Event::GraduationDeferred { launch_id: id, error } },
            ),
        }
    }
}

/// The record after a seed was asked for: all that was raised and all that was
/// reserved, at the launch's own tier.
pub open spec fn seed_on_record(
    log: Seq<Call>,
    c: Constants,
    launch: Launch,
    id: LaunchId,
    raised: Balance,
    nested: bool,
    r: SeedReplies,
) -> Seq<Call> {
    let reserved = greatest(c.total_supply - c.sellable, 0) as u128;
    let l1 = log.push(
        Call::SeedPool {
            nested,
            who: launch.escrow,
            asset: AssetKind::WithId(launch.asset_id),
            quote: AssetKind::Native,
            tokens: reserved,
            quote_amount: raised,
            fee_tier: launch.curve.pool_fee_tier,
            reply: r.shares,
        },
    );
    match r.shares {
        Err(_) => l1,
        Ok(shares) => l1.push(Call::BlockNumber { reply: r.now }).push(
            Call::DepositEvent {
                event: Event::Graduated {
                    launch_id: id,
                    quote_seeded: raised,
                    tokens_seeded: reserved,
                    shares,
                },
            },
        ),
    }
}

/// A buy goes through exactly where the launch is there and trades, something is
/// offered, the hook lets it pass, the curve has a price that meets the buyer's
/// minimum, and every payment is made; it then returns whether it took the last
/// token and how many it got, and changes that one curve alone. A refused buy
/// changes nothing.
#[verifier::rlimit(60)]
pub proof fn law_what_a_buy_does(
    s0: Store,
    log0: Seq<Call>,
    a: BuyArgs,
    r: BuyReplies,
    result: Result<(bool, Balance), DispatchError>,
    s1: Store,
    log1: Seq<Call>,
)
    requires
        s0.wf(),
        buy_done(s0, log0, a, r, result, s1, log1),
    ensures
        match buy_stopped(s0, a, r) {
            Some(e) => result == Err::<(bool, Balance), _>(e) && s1 == s0,
            None => {
                let id = a.launch_id;
                let q = buy_offer(s0, id, (r.open.hook->Ok_0).0)->Ok_0;
                let before = s0.curves[id];
                let after = s1.curves[id];
                &&& result == Ok::<_, DispatchError>(
                    (q.tokens_out == before.tokens_remaining, q.tokens_out),
                )
                &&& s1 == (Store { curves: s0.curves.insert(id, after), ..s0 })
                &&& buy_leaves(before, after, s0.launches[id], q, a.is_trade, r)
                &&& exists|settled: CurveState|
                    {
                        &&& #[trigger] buy_leaves(
                            before,
                            settled,
                            s0.launches[id],
                            q,
                            a.is_trade,
                            BuyReplies {
                                seed: SeedReplies {
                                    shares: Err(DispatchError::BadOrigin),
                                    ..r.seed
                                },
                                ..r
                            },
                        )
                        &&& log1 == buy_on_record(log0, s0, a, q, settled, r)
                    }
            },
        },
{
    let id = a.launch_id;
    let launch = s0.launches[id];
    let run = Run::from(log0);
    if s0.has(id) && s0.curves[id].phase == Phase::Trading && a.quote_in != 0 {
        if let Ok((to_curve, extra)) = r.open.hook {
            if let Ok(q) = buy_offer(s0, id, to_curve) {
                law_buy_adds_up(
                    terms_of(s0.constants, launch.curve),
                    pricing(s0.curves[id]),
                    to_curve,
                    q,
                );
                lemma_shares_fit(
                    q.fee,
                    launch.curve.protocol_share_bps,
                    launch.curve.treasury_share_bps,
                );
                if buy_stopped(s0, a, r) is None {
                    let settled = buy_settled(s0, a, r);
                    assert(buy_leaves(
                        s0.curves[id],
                        settled,
                        launch,
                        q,
                        a.is_trade,
                        BuyReplies {
                            seed: SeedReplies { shares: Err(DispatchError::BadOrigin), ..r.seed },
                            ..r
                        },
                    ));
                    assert(s1.curves[id] == buy_state(s0, a, r));
                    assert(log1 == buy_on_record(log0, s0, a, q, settled, r));
                }
            }
        }
    }
}

/// The `buy` call is a buy of the caller's own, and a trade; the hook is told
/// whether the caller is the launch's creator. It gives back the weight of a
/// crossing where there was none.
pub proof fn law_what_the_buy_call_does(
    s0: Store,
    log0: Seq<Call>,
    who: AccountId,
    launch_id: LaunchId,
    quote_in: Balance,
    min_tokens_out: Balance,
    a: BuyArgs,
    r: BuyReplies,
    result: Result<Option<ActualWeight>, DispatchError>,
    s1: Store,
    log1: Seq<Call>,
)
    requires
        a == user_buy(s0, who, launch_id, quote_in, min_tokens_out),
        buy_called(s0, log0, a, r, result, s1, log1),
    ensures
        a.who == who,
        a.launch_id == launch_id,
        a.quote_in == quote_in,
        a.min_tokens_out == min_tokens_out,
        a.is_creator == (who == s0.launches[launch_id].creator),
        a.is_trade,
        exists|inner: Result<(bool, Balance), DispatchError>|
            {
                &&& #[trigger] buy_done(s0, log0, a, r, inner, s1, log1)
                &&& result == match inner {
                    Err(e) => Err(e),
                    Ok((true, _)) => Ok(None),
                    Ok((false, _)) => Ok(Some(ActualWeight::Buy)),
                }
            },
{
    let inner = buy_run(Run::from(log0), s0, a, r).result(buy_value(s0, a, r));
    assert(buy_done(s0, log0, a, r, inner, s1, log1));
}

/// A buy on a venue's behalf is an ordinary buy that is no trade for the dormancy
/// clock; it returns the tokens.
pub proof fn law_what_a_venue_buy_does(
    s0: Store,
    log0: Seq<Call>,
    who: AccountId,
    launch_id: LaunchId,
    quote_in: Balance,
    min_tokens_out: Balance,
    a: BuyArgs,
    r: BuyReplies,
    result: Result<Balance, DispatchError>,
    s1: Store,
    log1: Seq<Call>,
)
    requires
        a == venue_buy(s0, who, launch_id, quote_in, min_tokens_out),
        venue_buy_done(s0, log0, a, r, result, s1, log1),
    ensures
        a.who == who,
        a.launch_id == launch_id,
        a.quote_in == quote_in,
        a.min_tokens_out == min_tokens_out,
        a.is_creator == (who == s0.launches[launch_id].creator),
        !a.is_trade,
        exists|inner: Result<(bool, Balance), DispatchError>|
            {
                &&& #[trigger] buy_done(s0, log0, a, r, inner, s1, log1)
                &&& result == match inner {
                    Err(e) => Err(e),
                    Ok((_, tokens_out)) => Ok(tokens_out),
                }
            },
{
}

// ---- selling -------------------------------------------------------------

/// Why a sell is refused, if it is.
pub open spec fn sell_stopped(
    s: Store,
    id: LaunchId,
    tokens_in: Balance,
    min_quote_out: Balance,
    r: SellReplies,
) -> Option<DispatchError> {
    let state = s.curves[id];
    if !s.launches.contains_key(id) || !s.curves.contains_key(id) {
        Some(DispatchError::Module(Error::LaunchNotFound))
    } else if !(state.phase is Trading) {
        Some(DispatchError::Module(Error::WrongPhase))
    } else if tokens_in == 0 {
        Some(DispatchError::Module(Error::ZeroAmount))
    } else if tokens_in > s.constants.sellable - state.tokens_remaining {
        Some(DispatchError::Module(Error::SellExceedsSold))
    } else {
        match sell_offer(s, id, tokens_in) {
            Err(e) => Some(math_error(e)),
            Ok(q) => if q.quote_out < min_quote_out {
                Some(DispatchError::Module(Error::SlippageExceeded))
            } else {
                match (r.delivered, fee_refused(s.launches[id], q.fee, r.fees), r.paid_out) {
                    (Err(e), _, _) => Some(e),
                    (_, Some(e), _) => Some(e),
                    (_, _, paid_out) => if q.quote_gross > state.real_quote {
                        Some(DispatchError::Module(Error::ArithmeticOverflow))
                    } else {
                        match paid_out {
                            Err(e) => Some(e),
                            Ok(_) => None,
                        }
                    },
                }
            },
        }
    }
}

/// What a sell at price `q` leaves of a curve: the tokens are back on it, the
/// quote and the fee are gone from it, and each part of the fee is added to its
/// own sum. Nothing else of it changes.
pub open spec fn sell_leaves(
    before: CurveState,
    after: CurveState,
    launch: Launch,
    q: SellQuote,
    tokens_in: Balance,
    r: SellReplies,
) -> bool {
    let (to_protocol, to_vault, vault, creator) = legs(launch, q.fee, r.fees);
    let most = u128::MAX as int;
    &&& after.tokens_remaining == before.tokens_remaining + tokens_in
    &&& after.real_quote == before.real_quote - q.quote_gross
    &&& after.creator_fees_unclaimed == least(before.creator_fees_unclaimed + creator, most)
    &&& after.protocol_fees_paid == least(before.protocol_fees_paid + to_protocol, most)
    &&& after.treasury_fees_paid == least(before.treasury_fees_paid + to_vault, most)
    &&& after.last_trade_block == r.now
    &&& after.phase == before.phase
    &&& after.completed_at == before.completed_at
    &&& after.graduated_at == before.graduated_at
    &&& after.lp_shares == before.lp_shares
}

/// The record after a sell that went through: the tokens come in before anything
/// goes out, and the seller is paid last.
pub open spec fn sell_on_record(
    log: Seq<Call>,
    s: Store,
    who: AccountId,
    id: LaunchId,
    tokens_in: Balance,
    q: SellQuote,
    r: SellReplies,
) -> Seq<Call> {
    let launch = s.launches[id];
    let l1 = log.push(
        Call::AssetTransfer {
            asset: launch.asset_id,
            from: who,
            to: launch.escrow,
            amount: tokens_in,
            keep: Preservation::Expendable,
            reply: r.delivered,
        },
    );
    fee_on_record(l1, s.constants, launch, q.fee, r.fees).push(
        Call::BlockNumber { reply: r.now },
    ).push(
        Call::Transfer {
            from: launch.escrow,
            to: who,
            amount: q.quote_out,
            keep: Preservation::Preserve,
            reply: r.paid_out,
        },
    ).push(
        Call::DepositEvent {
            event: Event::Sold {
                launch_id: id,
                who,
                tokens_in,
                fee: q.fee,
                quote_out: q.quote_out,
            },
        },
    )
}

/// A sell goes through exactly where the launch is there and trades, something is
/// offered and no more than was sold, the curve has a price that meets the
/// seller's minimum and holds the quote, and every payment is made; it then
/// changes that one curve alone. A refused sell changes nothing.
#[verifier::rlimit(60)]
pub proof fn law_what_a_sell_does(
    s0: Store,
    log0: Seq<Call>,
    who: AccountId,
    id: LaunchId,
    tokens_in: Balance,
    min_quote_out: Balance,
    r: SellReplies,
    result: Result<(), DispatchError>,
    s1: Store,
    log1: Seq<Call>,
)
    requires
        s0.wf(),
        sell_done(s0, log0, who, id, tokens_in, min_quote_out, r, result, s1, log1),
    ensures
        match sell_stopped(s0, id, tokens_in, min_quote_out, r) {
            Some(e) => result == Err::<(), _>(e) && s1 == s0,
            None => {
                let q = sell_offer(s0, id, tokens_in)->Ok_0;
                let after = s1.curves[id];
                &&& result is Ok
                &&& s1 == (Store { curves: s0.curves.insert(id, after), ..s0 })
                &&& sell_leaves(s0.curves[id], after, s0.launches[id], q, tokens_in, r)
                &&& log1 == sell_on_record(log0, s0, who, id, tokens_in, q, r)
            },
        },
{
    let launch = s0.launches[id];
    if s0.has(id) {
        if let Ok(q) = sell_offer(s0, id, tokens_in) {
            law_sell_adds_up(
                terms_of(s0.constants, launch.curve),
                pricing(s0.curves[id]),
                tokens_in,
                q,
            );
            lemma_shares_fit(
                q.fee,
                launch.curve.protocol_share_bps,
                launch.curve.treasury_share_bps,
            );
        }
    }
}

// ---- graduating ----------------------------------------------------------

/// A seed goes through exactly where the launch is there, its curve is complete,
/// and the DEX takes the deposit; the curve is then graduated with the shares that
/// it got, and holds no quote any more. A refused one changes nothing, so that it
/// can be tried again.
pub proof fn law_what_a_seed_does(
    s0: Store,
    log0: Seq<Call>,
    id: LaunchId,
    nested: bool,
    r: SeedReplies,
    result: Result<(), DispatchError>,
    s1: Store,
    log1: Seq<Call>,
)
    requires
        seed_done(s0, log0, id, nested, r, result, s1, log1),
    ensures
        if !s0.launches.contains_key(id) || !s0.curves.contains_key(id) {
            &&& result == Err::<(), _>(DispatchError::Module(Error::LaunchNotFound))
            &&& s1 == s0
            &&& log1 == log0
        } else if !(s0.curves[id].phase is Complete) {
            &&& result == Err::<(), _>(DispatchError::Module(Error::WrongPhase))
            &&& s1 == s0
            &&& log1 == log0
        } else {
            let before = s0.curves[id];
            &&& log1 == seed_on_record(
                log0,
                s0.constants,
                s0.launches[id],
                id,
                before.real_quote,
                nested,
                r,
            )
            &&& match r.shares {
                Err(e) => result == Err::<(), _>(e) && s1 == s0,
                Ok(shares) => result is Ok && s1 == (Store {
                    curves: s0.curves.insert(
                        id,
                        CurveState {
                            phase: Phase::Graduated,
                            real_quote: 0,
                            tokens_remaining: before.tokens_remaining,
                            creator_fees_unclaimed: before.creator_fees_unclaimed,
                            protocol_fees_paid: before.protocol_fees_paid,
                            treasury_fees_paid: before.treasury_fees_paid,
                            last_trade_block: before.last_trade_block,
                            completed_at: before.completed_at,
                            graduated_at: Some(r.now),
                            lp_shares: shares,
                        },
                    ),
                    ..s0
                }),
            }
        },
{
}

// ---- claiming ------------------------------------------------------------

/// The creator's fees are paid exactly to the recipient who asks for them, all
/// that is unclaimed at once, where they are not to be burned and there are any.
pub proof fn law_what_a_claim_does(
    s0: Store,
    log0: Seq<Call>,
    who: AccountId,
    id: LaunchId,
    paid: Result<(), DispatchError>,
    result: Result<(), DispatchError>,
    s1: Store,
    log1: Seq<Call>,
)
    requires
        claim_done(s0, log0, who, id, paid, result, s1, log1),
    ensures
        ({
            let launch = s0.launches[id];
            let state = s0.curves[id];
            let amount = state.creator_fees_unclaimed;
            let stopped = if !s0.launches.contains_key(id) {
                Some(DispatchError::Module(Error::LaunchNotFound))
            } else if who != launch.creator_fee_recipient {
                Some(DispatchError::Module(Error::NotFeeRecipient))
            } else if launch.commitments.fee_disposition is BuybackBurn {
                Some(DispatchError::Module(Error::Committed))
            } else if !s0.curves.contains_key(id) {
                Some(DispatchError::Module(Error::LaunchNotFound))
            } else if amount == 0 {
                Some(DispatchError::Module(Error::ZeroAmount))
            } else {
                match paid {
                    Err(e) => Some(e),
                    Ok(_) => None,
                }
            };
            match stopped {
                Some(e) => result == Err::<(), _>(e) && s1 == s0,
                None => {
                    &&& result is Ok
                    &&& s1 == (Store {
                        curves: s0.curves.insert(
                            id,
                            CurveState {
                                phase: state.phase,
                                real_quote: state.real_quote,
                                tokens_remaining: state.tokens_remaining,
                                creator_fees_unclaimed: 0,
                                protocol_fees_paid: state.protocol_fees_paid,
                                treasury_fees_paid: state.treasury_fees_paid,
                                last_trade_block: state.last_trade_block,
                                completed_at: state.completed_at,
                                graduated_at: state.graduated_at,
                                lp_shares: state.lp_shares,
                            },
                        ),
                        ..s0
                    })
                    &&& log1 == log0.push(
                        Call::Transfer {
                            from: launch.escrow,
                            to: who,
                            amount,
                            keep: Preservation::Preserve,
                            reply: paid,
                        },
                    ).push(
                        Call::DepositEvent {
                            event: Event::CreatorFeesClaimed {
                                launch_id: id,
                                recipient: who,
                                amount,
                            },
                        },
                    )
                },
            }
        }),
{
}

/// Only the present recipient names another, and nothing else changes by it.
pub proof fn law_what_naming_a_recipient_does(
    s0: Store,
    log0: Seq<Call>,
    who: AccountId,
    id: LaunchId,
    new: AccountId,
    s1: Store,
    log1: Seq<Call>,
)
    requires
        recipient_done(s0, log0, who, id, new, s1, log1),
    ensures
        ({
            let launch = s0.launches[id];
            let run = recipient_run(Run::from(log0), s0, who, id, new);
            if !s0.launches.contains_key(id) {
                s1 == s0 && log1 == log0 && run.result(()) == Err::<(), _>(
                    DispatchError::Module(Error::LaunchNotFound),
                )
            } else if who != launch.creator_fee_recipient {
                s1 == s0 && log1 == log0 && run.result(()) == Err::<(), _>(
                    DispatchError::Module(Error::NotFeeRecipient),
                )
            } else {
                &&& run.result(()) is Ok
                &&& s1 == (Store {
                    launches: s0.launches.insert(
                        id,
                        Launch {
                            asset_id: launch.asset_id,
                            creator: launch.creator,
                            creator_fee_recipient: new,
                            escrow: launch.escrow,
                            created_at: launch.created_at,
                            curve: launch.curve,
                            params_hash: launch.params_hash,
                            commitments: launch.commitments,
                        },
                    ),
                    ..s0
                })
                &&& log1 == log0.push(
                    Call::DepositEvent {
                        event: Event::CreatorFeeRecipientChanged {
                            launch_id: id,
                            old_recipient: who,
                            new,
                        },
                    },
                )
            }
        }),
{
}

/// Only the present recipient writes metadata, which is stored as it is given.
pub proof fn law_what_writing_metadata_does(
    s0: Store,
    log0: Seq<Call>,
    who: AccountId,
    id: LaunchId,
    metadata: LaunchMetadata,
    s1: Store,
    log1: Seq<Call>,
)
    requires
        metadata_done(s0, log0, who, id, metadata, s1, log1),
    ensures
        ({
            let run = metadata_run(Run::from(log0), s0, who, id);
            if !s0.launches.contains_key(id) {
                s1 == s0 && log1 == log0 && run.result(()) == Err::<(), _>(
                    DispatchError::Module(Error::LaunchNotFound),
                )
            } else if who != s0.launches[id].creator_fee_recipient {
                s1 == s0 && log1 == log0 && run.result(()) == Err::<(), _>(
                    DispatchError::Module(Error::NotFeeRecipient),
                )
            } else {
                &&& run.result(()) is Ok
                &&& s1 == (Store { metadata: s0.metadata.insert(id, metadata), ..s0 })
                &&& log1 == log0.push(
                    Call::DepositEvent { event: Event::LaunchMetadataSet { launch_id: id } },
                )
            }
        }),
{
}

/// A lock releases to its creator, and to nobody else, all that has vested and was
/// not released before, whenever there is any: in proportion to the blocks passed
/// between cliff and end, and all of it from the end on.
pub proof fn law_what_a_release_does(
    s0: Store,
    log0: Seq<Call>,
    who: AccountId,
    id: LaunchId,
    r: ReleaseReplies,
    vested: Balance,
    result: Result<(), DispatchError>,
    s1: Store,
    log1: Seq<Call>,
)
    requires
        release_done(s0, log0, who, id, r, result, s1, log1),
        ({
            let lock = s0.locks[id];
            if r.now < lock.cliff_end {
                vested == 0
            } else if r.now >= lock.vest_end {
                vested == lock.total
            } else {
                is_floor(
                    vested as int,
                    lock.total * (r.now - lock.cliff_end),
                    lock.vest_end - lock.cliff_end,
                )
            }
        }),
    ensures
        ({
            let launch = s0.launches[id];
            let lock = s0.locks[id];
            let stopped = if !s0.launches.contains_key(id) {
                Some(DispatchError::Module(Error::LaunchNotFound))
            } else if who != launch.creator {
                Some(DispatchError::Module(Error::NotFeeRecipient))
            } else if !s0.locks.contains_key(id) {
                Some(DispatchError::Module(Error::NotCommitted))
            } else if vested <= lock.released {
                Some(DispatchError::Module(Error::NothingVested))
            } else {
                match r.moved {
                    Err(e) => Some(e),
                    Ok(_) => None,
                }
            };
            match stopped {
                Some(e) => result == Err::<(), _>(e) && s1 == s0,
                None => {
                    let amount = (vested - lock.released) as u128;
                    &&& result is Ok
                    &&& s1 == (Store {
                        locks: s0.locks.insert(
                            id,
                            LockState {
                                total: lock.total,
                                released: vested,
                                cliff_end: lock.cliff_end,
                                vest_end: lock.vest_end,
                            },
                        ),
                        ..s0
                    })
                    &&& log1 == log0.push(Call::BlockNumber { reply: r.now }).push(
                        Call::AssetTransfer {
                            asset: launch.asset_id,
                            from: derived(s0.constants.lock_pallet_id, id),
                            to: who,
                            amount,
                            keep: Preservation::Expendable,
                            reply: r.moved,
                        },
                    ).push(
                        Call::DepositEvent { event: Event::LockReleased { launch_id: id, amount } },
                    )
                },
            }
        }),
{
    let lock = s0.locks[id];
    law_vesting_is_linear(lock, r.now);
    if lock.cliff_end <= r.now < lock.vest_end {
        lemma_floor_is_unique(
            lock.total * (r.now - lock.cliff_end),
            lock.vest_end - lock.cliff_end,
            vested as int,
            vested_at(lock, r.now) as int,
        );
    }
}

// ---- governing -----------------------------------------------------------

/// Parameters are set exactly where the runtime lets the caller govern and they
/// are within its bounds, and then as they were given.
pub proof fn law_what_setting_parameters_does(
    s0: Store,
    log0: Seq<Call>,
    origin: Origin,
    new: LaunchParams<Balance>,
    allowed: Result<(), DispatchError>,
    result: Result<(), DispatchError>,
    s1: Store,
    log1: Seq<Call>,
)
    requires
        set_params_done(s0, log0, origin, new, allowed, result, s1, log1),
    ensures
        match allowed {
            Err(e) => {
                &&& result == Err::<(), _>(e)
                &&& s1 == s0
                &&& log1 == log0.push(Call::EnsureManageOrigin { origin, reply: allowed })
            },
            Ok(_) => if !params_in_bounds(s0.constants, new) {
                &&& result == Err::<(), _>(DispatchError::Module(Error::ParamsOutOfBounds))
                &&& s1 == s0
                &&& log1 == log0.push(Call::EnsureManageOrigin { origin, reply: allowed })
            } else {
                &&& result is Ok
                &&& s1 == (Store { params: Some(new), ..s0 })
                &&& log1 == log0.push(Call::EnsureManageOrigin { origin, reply: allowed }).push(
                    Call::DepositEvent { event: Event::ParamsUpdated { params: new } },
                )
            },
        },
{
}

/// Creation is paused, or goes on, exactly as one who may govern says.
pub proof fn law_what_pausing_does(
    s0: Store,
    log0: Seq<Call>,
    origin: Origin,
    paused: bool,
    allowed: Result<(), DispatchError>,
    result: Result<(), DispatchError>,
    s1: Store,
    log1: Seq<Call>,
)
    requires
        set_paused_done(s0, log0, origin, paused, allowed, result, s1, log1),
    ensures
        match allowed {
            Err(e) => {
                &&& result == Err::<(), _>(e)
                &&& s1 == s0
                &&& log1 == log0.push(Call::EnsureManageOrigin { origin, reply: allowed })
            },
            Ok(_) => {
                &&& result is Ok
                &&& s1 == (Store { creation_paused: paused, ..s0 })
                &&& log1 == log0.push(Call::EnsureManageOrigin { origin, reply: allowed }).push(
                    Call::DepositEvent { event: Event::CreationPausedSet { paused } },
                )
            },
        },
{
}

/// Why a rescue is refused, if it is.
pub open spec fn rescue_stopped(
    s: Store,
    id: LaunchId,
    deviation_bps: u16,
    r: RescueReplies,
) -> Option<DispatchError> {
    let state = s.curves[id];
    let reserved = greatest(s.constants.total_supply - s.constants.sellable, 0);
    let quote_left = state.real_quote - greatest(
        r.deposit.quote_before - r.deposit.quote_after,
        0,
    );
    let tokens_left = reserved - greatest(r.deposit.tokens_before - r.deposit.tokens_after, 0);
    match r.due.allowed {
        Err(e) => Some(e),
        Ok(_) => if deviation_bps > 10_000 {
            Some(DispatchError::Module(Error::ParamsOutOfBounds))
        } else if !s.launches.contains_key(id) || !s.curves.contains_key(id) {
            Some(DispatchError::Module(Error::LaunchNotFound))
        } else if !(state.phase is Complete) || state.completed_at is None {
            Some(DispatchError::Module(Error::WrongPhase))
        } else if r.due.now < least(
            state.completed_at->0 + s.constants.rescue_delay,
            u32::MAX as int,
        ) {
            Some(DispatchError::Module(Error::RescueNotDue))
        } else if !r.due.pool {
            Some(DispatchError::Module(Error::PoolNotFound))
        } else {
            match (r.deposit.shares, r.deposit.locked, r.quote_swept, r.tokens_swept) {
                (Err(DispatchError::DexSlippageExceeded), _, _, _) => Some(
                    DispatchError::Module(Error::PriceOutOfTolerance),
                ),
                (Err(e), _, _, _) => Some(e),
                (_, Err(e), _, _) => Some(e),
                (_, _, Err(e), _) if quote_left > 0 => Some(e),
                (_, _, _, Err(e)) if tokens_left > 0 => Some(e),
                _ => None,
            }
        },
    }
}

/// A rescue goes through exactly where governance asks for it with a deviation
/// that is one, the launch has waited complete for the delay, its pool is there,
/// and the pool takes the amounts within the deviation and is locked for good; what
/// it did not take goes to the treasury, and the launch is graduated. A refused one
/// changes nothing.
#[verifier::rlimit(60)]
pub proof fn law_what_a_rescue_does(
    s0: Store,
    log0: Seq<Call>,
    origin: Origin,
    id: LaunchId,
    deviation_bps: u16,
    r: RescueReplies,
    result: Result<(), DispatchError>,
    s1: Store,
    log1: Seq<Call>,
)
    requires
        rescue_done(s0, log0, origin, id, deviation_bps, r, result, s1, log1),
    ensures
        match rescue_stopped(s0, id, deviation_bps, r) {
            Some(e) => result == Err::<(), _>(e) && s1 == s0,
            None => {
                let launch = s0.launches[id];
                let before = s0.curves[id];
                let e = launch.escrow;
                let d = r.deposit;
                let shares = d.shares->Ok_0;
                let asset = AssetKind::WithId(launch.asset_id);
                let reserved = greatest(
                    s0.constants.total_supply - s0.constants.sellable,
                    0,
                ) as u128;
                let quote_spent = greatest(d.quote_before - d.quote_after, 0) as u128;
                let tokens_spent = greatest(d.tokens_before - d.tokens_after, 0) as u128;
                let l1 = log0.push(
                    Call::EnsureManageOrigin { origin, reply: r.due.allowed },
                ).push(Call::BlockNumber { reply: r.due.now }).push(
                    Call::PoolExists { a: AssetKind::Native, b: asset, reply: r.due.pool },
                );
                let l2 = l1.push(Call::CurrencyBalance { who: e, reply: d.quote_before }).push(
                    Call::AssetBalance {
                        asset: launch.asset_id,
                        who: e,
                        reply: d.tokens_before,
                    },
                ).push(
                    Call::AddLiquidity {
                        who: e,
                        a: asset,
                        b: AssetKind::Native,
                        amount_a: reserved,
                        amount_b: before.real_quote,
                        min_a: kept(reserved, deviation_bps),
                        min_b: kept(before.real_quote, deviation_bps),
                        reply: d.shares,
                    },
                ).push(
                    Call::LockLiquidity {
                        who: e,
                        a: asset,
                        b: AssetKind::Native,
                        until: u32::MAX,
                        reply: d.locked,
                    },
                ).push(Call::CurrencyBalance { who: e, reply: d.quote_after }).push(
                    Call::AssetBalance {
                        asset: launch.asset_id,
                        who: e,
                        reply: d.tokens_after,
                    },
                );
                let l3 = then(
                    l2,
                    quote_spent < before.real_quote,
                    Call::Transfer {
                        from: e,
                        to: s0.constants.treasury,
                        amount: (before.real_quote - quote_spent) as u128,
                        keep: Preservation::Preserve,
                        reply: r.quote_swept,
                    },
                );
                let l4 = then(
                    l3,
                    tokens_spent < reserved,
                    Call::AssetTransfer {
                        asset: launch.asset_id,
                        from: e,
                        to: s0.constants.treasury,
                        amount: (reserved - tokens_spent) as u128,
                        keep: Preservation::Expendable,
                        reply: r.tokens_swept,
                    },
                );
                &&& result is Ok
                &&& s1 == (Store {
                    curves: s0.curves.insert(
                        id,
                        CurveState {
                            phase: Phase::Graduated,
                            real_quote: 0,
                            tokens_remaining: before.tokens_remaining,
                            creator_fees_unclaimed: before.creator_fees_unclaimed,
                            protocol_fees_paid: before.protocol_fees_paid,
                            treasury_fees_paid: before.treasury_fees_paid,
                            last_trade_block: before.last_trade_block,
                            completed_at: before.completed_at,
                            graduated_at: Some(r.due.now),
                            lp_shares: shares,
                        },
                    ),
                    ..s0
                })
                &&& log1 == l4.push(
                    Call::DepositEvent {
                        event: Event::ForceSeeded { launch_id: id, deviation_bps, shares },
                    },
                ).push(
                    Call::DepositEvent {
                        event: Event::Graduated {
                            launch_id: id,
                            quote_seeded: quote_spent,
                            tokens_seeded: tokens_spent,
                            shares,
                        },
                    },
                )
            },
        },
{
}

} // verus!
