//! Trading on the curve, and the seed of the pool that ends it.
use crate::config::{faithful, refused, shares_fit, Call, Config, Constants, Run};
use crate::curve::{
    buy_quote, quote_buy, quote_sell, sell_quote, BuyQuote, MathError, SellQuote, State,
};
use crate::event::Event;
use crate::pallet::{Pallet, Store};
use crate::pallet::terms::{
    fee_parts, fee_vault, map_math, math_error, pricing, reserved_tokens, routed, split_fee,
    terms_of,
};
use crate::records::{CurveState, Launch, Phase};
use crate::types::{
    sat_add, sat_sub, AccountId, ActualWeight, AssetKind, Balance, BlockNumber, DispatchError,
    Error, LaunchId, Origin, Preservation,
};
use vstd::prelude::*;

verus! {

broadcast use vstd::std_specs::btree::group_btree_axioms;

// ---- fees ----------------------------------------------------------------

/// What the runtime answers while a fee is paid out.
pub struct FeeReplies {
    pub sink: Option<AccountId>,
    pub minimum: Balance,
    pub sink_exists: bool,
    pub protocol_paid: Result<(), DispatchError>,
    pub vault_paid: Result<(), DispatchError>,
}

impl FeeReplies {
    /// The treasury account that takes its part.
    pub open spec fn vault(self, treasury: u128) -> Option<AccountId> {
        fee_vault(treasury, self.sink, self.minimum, self.sink_exists)
    }
}

/// Paying the protocol and treasury parts of a fee out of the escrow.
pub open spec fn fee_run(
    run: Run,
    c: Constants,
    launch: Launch,
    protocol: u128,
    treasury: u128,
    r: FeeReplies,
) -> Run {
    let asset = AssetKind::WithId(launch.asset_id);
    let vault = r.vault(treasury);
    let (to_protocol, to_vault) = routed(protocol, treasury, vault);
    run.call_if(treasury > 0, Call::TreasuryAccountFor { asset, reply: r.sink }).call(
        Call::MinimumBalance { reply: r.minimum },
    ).call_if(
        treasury > 0 && r.sink is Some && treasury < r.minimum,
        Call::AccountExists { who: r.sink->0, reply: r.sink_exists },
    ).call_if(
        to_protocol > 0,
        Call::Transfer {
            from: launch.escrow,
            to: c.treasury,
            amount: to_protocol,
            keep: Preservation::Preserve,
            reply: r.protocol_paid,
        },
    ).call_if(
        vault is Some,
        Call::Transfer {
            from: launch.escrow,
            to: vault->0,
            amount: to_vault,
            keep: Preservation::Preserve,
            reply: r.vault_paid,
        },
    ).call_if(vault is Some, Call::TreasuryNoteFee { asset, amount: to_vault })
}

// ---- seeding -------------------------------------------------------------

/// What the runtime answers while a pool is seeded.
pub struct SeedReplies {
    pub shares: Result<Balance, DispatchError>,
    pub now: BlockNumber,
}

/// The curve state of a launch whose pool was seeded.
pub open spec fn graduated(state: CurveState, shares: Balance, now: BlockNumber) -> CurveState {
    CurveState {
        real_quote: 0,
        lp_shares: shares,
        phase: Phase::Graduated,
        graduated_at: Some(now),
        ..state
    }
}

/// Seeding the pool of a launch.
pub open spec fn seed_run(
    run: Run,
    c: Constants,
    launch: Launch,
    state: CurveState,
    id: LaunchId,
    nested: bool,
    r: SeedReplies,
) -> Run {
    run.call(
        Call::SeedPool {
            nested,
            who: launch.escrow,
            asset: AssetKind::WithId(launch.asset_id),
            quote: AssetKind::Native,
            tokens: reserved_tokens(c),
            quote_amount: state.real_quote,
            fee_tier: launch.curve.pool_fee_tier,
            reply: r.shares,
        },
    ).call_if(r.shares is Ok, Call::BlockNumber { reply: r.now }).call_if(
        r.shares is Ok,
        Call::DepositEvent {
            event: Event::Graduated {
                launch_id: id,
                quote_seeded: state.real_quote,
                tokens_seeded: reserved_tokens(c),
                shares: r.shares->Ok_0,
            },
        },
    )
}

/// `do_seed` from the start.
pub open spec fn do_seed_run(run: Run, s: Store, id: LaunchId, nested: bool, r: SeedReplies) -> Run {
    seed_run(
        run.ensure(s.has(id), Error::LaunchNotFound).ensure(
            s.curves[id].phase == Phase::Complete,
            Error::WrongPhase,
        ),
        s.constants,
        s.launches[id],
        s.curves[id],
        id,
        nested,
        r,
    )
}

/// What a `do_seed` does for given answers.
pub open spec fn seed_done(
    s0: Store,
    log0: Seq<Call>,
    id: LaunchId,
    nested: bool,
    r: SeedReplies,
    result: Result<(), DispatchError>,
    s1: Store,
    log1: Seq<Call>,
) -> bool {
    let run = do_seed_run(Run::from(log0), s0, id, nested, r);
    let seeded = run.ok() && r.shares is Ok;
    &&& log1 == run.log
    &&& result == (if run.error is None && r.shares is Err {
        Err(r.shares->Err_0)
    } else {
        run.result(())
    })
    &&& s1 == if seeded {
        s0.with_curve(id, graduated(s0.curves[id], r.shares->Ok_0, r.now))
    } else {
        s0
    }
}

// ---- buying --------------------------------------------------------------

/// A buy as it reaches the curve.
pub struct BuyArgs {
    pub who: AccountId,
    pub launch_id: LaunchId,
    pub quote_in: Balance,
    pub min_tokens_out: Balance,
    pub is_creator: bool,
    pub is_trade: bool,
}

/// What the runtime answers until a buy is priced.
pub struct OpenReplies {
    pub now: BlockNumber,
    /// `(amount that reaches the curve, extra amount routed to the treasury)`.
    pub hook: Result<(Balance, Balance), DispatchError>,
    pub extra_paid: Result<(), DispatchError>,
}

impl OpenReplies {
    /// The amount that reaches the curve.
    pub open spec fn to_curve(self) -> Balance {
        (self.hook->Ok_0).0
    }

    /// The extra amount routed to the treasury.
    pub open spec fn extra(self) -> Balance {
        (self.hook->Ok_0).1
    }
}

/// What the runtime answers while a buy is paid for.
pub struct PayReplies {
    pub funded: Result<(), DispatchError>,
    pub fees: FeeReplies,
}

/// What the runtime answers during a buy.
pub struct BuyReplies {
    pub open: OpenReplies,
    pub pay: PayReplies,
    pub delivered: Result<(), DispatchError>,
    pub seed: SeedReplies,
}

/// The curve state after a buy was settled. `parts` are what the protocol, the
/// treasury and the creator got of the fee.
pub open spec fn bought(
    state: CurveState,
    q: BuyQuote,
    parts: (u128, u128, u128),
    now: BlockNumber,
    is_trade: bool,
) -> CurveState {
    let remaining = (state.tokens_remaining - q.tokens_out) as u128;
    CurveState {
        phase: if remaining == 0 {
            Phase::Complete
        } else {
            state.phase
        },
        real_quote: sat_add(state.real_quote, q.quote_net_used),
        tokens_remaining: remaining,
        creator_fees_unclaimed: sat_add(state.creator_fees_unclaimed, parts.2),
        protocol_fees_paid: sat_add(state.protocol_fees_paid, parts.0),
        treasury_fees_paid: sat_add(state.treasury_fees_paid, parts.1),
        last_trade_block: if is_trade {
            now
        } else {
            state.last_trade_block
        },
        completed_at: if remaining == 0 {
            Some(now)
        } else {
            state.completed_at
        },
        ..state
    }
}

/// The price of a buy, once the hook has let `to_curve` through.
pub open spec fn buy_price(s: Store, id: LaunchId, to_curve: Balance) -> Result<
    BuyQuote,
    MathError,
> {
    buy_quote(terms_of(s.constants, s.launches[id].curve), pricing(s.curves[id]), to_curve)
}

/// What a buy is quoted.
pub open spec fn buy_quoted(s: Store, a: BuyArgs, r: BuyReplies) -> BuyQuote {
    buy_price(s, a.launch_id, r.open.to_curve())->Ok_0
}

/// Whether a buy takes the last of the curve.
pub open spec fn crosses(s: Store, a: BuyArgs, r: BuyReplies) -> bool {
    s.curves[a.launch_id].tokens_remaining == buy_quoted(s, a, r).tokens_out
}

/// What the protocol and the treasury are paid of a fee, and what the creator
/// is owed of it.
pub open spec fn parts_paid(launch: Launch, fee: u128, r: FeeReplies) -> (u128, u128, u128) {
    let (protocol, treasury, creator) = fee_parts(
        fee,
        launch.curve.protocol_share_bps,
        launch.curve.treasury_share_bps,
    );
    let (to_protocol, to_vault) = routed(protocol, treasury, r.vault(treasury));
    (to_protocol, to_vault, creator)
}

/// The curve state after a buy, before any seed.
pub open spec fn buy_settled(s: Store, a: BuyArgs, r: BuyReplies) -> CurveState {
    let q = buy_quoted(s, a, r);
    bought(
        s.curves[a.launch_id],
        q,
        parts_paid(s.launches[a.launch_id], q.fee, r.pay.fees),
        r.open.now,
        a.is_trade,
    )
}

/// The curve state after a buy. A seed that the DEX refused leaves it as it
/// was settled.
pub open spec fn buy_state(s: Store, a: BuyArgs, r: BuyReplies) -> CurveState {
    let state = buy_settled(s, a, r);
    if crosses(s, a, r) && r.seed.shares is Ok {
        graduated(state, r.seed.shares->Ok_0, r.seed.now)
    } else {
        state
    }
}

/// A buy until it is priced.
pub open spec fn open_run(run: Run, s: Store, a: BuyArgs, r: OpenReplies) -> Run {
    let launch = s.launches[a.launch_id];
    let state = s.curves[a.launch_id];
    let price = buy_price(s, a.launch_id, r.to_curve());
    run.ensure(s.has(a.launch_id), Error::LaunchNotFound).ensure(
        state.phase == Phase::Trading,
        Error::WrongPhase,
    ).ensure(a.quote_in != 0, Error::ZeroAmount).call(Call::BlockNumber { reply: r.now }).call(
        Call::OnBuy {
            launch_id: a.launch_id,
            created_at: launch.created_at,
            now: r.now,
            who: a.who,
            is_creator: a.is_creator,
            quote_in: a.quote_in,
            reply: r.hook,
        },
    ).call_if(
        r.extra() > 0,
        Call::Transfer {
            from: a.who,
            to: s.constants.treasury,
            amount: r.extra(),
            keep: Preservation::Preserve,
            reply: r.extra_paid,
        },
    ).stop(
        match price {
            Err(e) => Some(math_error(e)),
            Ok(_) => None,
        },
    ).ensure((price->Ok_0).tokens_out >= a.min_tokens_out, Error::SlippageExceeded)
}

/// Paying for a priced buy: the quote into the escrow, the fee's parts out of it.
pub open spec fn pay_run(
    run: Run,
    c: Constants,
    launch: Launch,
    who: AccountId,
    q: BuyQuote,
    r: PayReplies,
) -> Run {
    let (protocol, treasury, _creator) = fee_parts(
        q.fee,
        launch.curve.protocol_share_bps,
        launch.curve.treasury_share_bps,
    );
    fee_run(
        run.call(
            Call::Transfer {
                from: who,
                to: launch.escrow,
                amount: q.quote_used,
                keep: Preservation::Preserve,
                reply: r.funded,
            },
        ),
        c,
        launch,
        protocol,
        treasury,
        r.fees,
    )
}

/// Handing over what was bought.
pub open spec fn deliver_run(
    run: Run,
    launch: Launch,
    state: CurveState,
    a: BuyArgs,
    q: BuyQuote,
    delivered: Result<(), DispatchError>,
) -> Run {
    run.ensure(q.tokens_out <= state.tokens_remaining, Error::ArithmeticOverflow).call(
        Call::AssetTransfer {
            asset: launch.asset_id,
            from: launch.escrow,
            to: a.who,
            amount: q.tokens_out,
            keep: Preservation::Expendable,
            reply: delivered,
        },
    ).event(
        Event::Bought {
            launch_id: a.launch_id,
            who: a.who,
            quote_used: q.quote_used,
            fee: q.fee,
            tokens_out: q.tokens_out,
        },
    )
}

/// A buy up to the delivery of the tokens.
pub open spec fn buy_trade_run(run: Run, s: Store, a: BuyArgs, r: BuyReplies) -> Run {
    let launch = s.launches[a.launch_id];
    let q = buy_quoted(s, a, r);
    deliver_run(
        pay_run(open_run(run, s, a, r.open), s.constants, launch, a.who, q, r.pay),
        launch,
        s.curves[a.launch_id],
        a,
        q,
        r.delivered,
    )
}

/// What follows a buy that took the last of the curve: the curve is handed over,
/// for the DEX to look up, and the seed made in a storage layer of its own, so
/// that a refusal defers it instead of undoing the buy.
pub open spec fn crossing_run(run: Run, s: Store, a: BuyArgs, r: BuyReplies) -> Run {
    let state = buy_settled(s, a, r);
    let run = seed_run(
        run.call(Call::CurveWritten { launch_id: a.launch_id, curve: state }).event(
            Event::CurveCompleted { launch_id: a.launch_id, raised: state.real_quote },
        ),
        s.constants,
        s.launches[a.launch_id],
        state,
        a.launch_id,
        true,
        r.seed,
    );
    if r.seed.shares is Err {
        run.event(
            Event::GraduationDeferred { launch_id: a.launch_id, error: r.seed.shares->Err_0 },
        )
    } else {
        run
    }
}

/// A buy from the start.
pub open spec fn buy_run(run: Run, s: Store, a: BuyArgs, r: BuyReplies) -> Run {
    let traded = buy_trade_run(run, s, a, r);
    if traded.ok() && crosses(s, a, r) {
        crossing_run(traded, s, a, r)
    } else {
        traded
    }
}

/// What a buy returns: whether it took the last of the curve, and the tokens
/// delivered.
pub open spec fn buy_value(s: Store, a: BuyArgs, r: BuyReplies) -> (bool, Balance) {
    (crosses(s, a, r), buy_quoted(s, a, r).tokens_out)
}

/// What a buy leaves in the records.
pub open spec fn buy_store(s: Store, a: BuyArgs, r: BuyReplies) -> Store {
    s.with_curve(a.launch_id, buy_state(s, a, r))
}

/// What a buy does for given answers.
pub open spec fn buy_done(
    s0: Store,
    log0: Seq<Call>,
    a: BuyArgs,
    r: BuyReplies,
    result: Result<(bool, Balance), DispatchError>,
    s1: Store,
    log1: Seq<Call>,
) -> bool {
    let run = buy_run(Run::from(log0), s0, a, r);
    &&& log1 == run.log
    &&& result == run.result(buy_value(s0, a, r))
    &&& s1 == if run.ok() {
        buy_store(s0, a, r)
    } else {
        s0
    }
}

/// A signed account's buy.
pub open spec fn user_buy(
    s: Store,
    who: AccountId,
    launch_id: LaunchId,
    quote_in: Balance,
    min_tokens_out: Balance,
) -> BuyArgs {
    BuyArgs {
        who,
        launch_id,
        quote_in,
        min_tokens_out,
        is_creator: who == s.launches[launch_id].creator,
        is_trade: true,
    }
}

/// What the `buy` call does for given answers: the buy, and the actual weight
/// of one that did not take the last of the curve.
pub open spec fn buy_called(
    s0: Store,
    log0: Seq<Call>,
    a: BuyArgs,
    r: BuyReplies,
    result: Result<Option<ActualWeight>, DispatchError>,
    s1: Store,
    log1: Seq<Call>,
) -> bool {
    let run = buy_run(Run::from(log0), s0, a, r);
    &&& buy_done(s0, log0, a, r, run.result(buy_value(s0, a, r)), s1, log1)
    &&& result == run.result(
        if crosses(s0, a, r) {
            None
        } else {
            Some(ActualWeight::Buy)
        },
    )
}

// ---- selling -------------------------------------------------------------

/// What the runtime answers during a sell.
pub struct SellReplies {
    pub delivered: Result<(), DispatchError>,
    pub fees: FeeReplies,
    pub now: BlockNumber,
    pub paid_out: Result<(), DispatchError>,
}

/// The price of a sell.
pub open spec fn sell_price(s: Store, id: LaunchId, tokens_in: Balance) -> Result<
    SellQuote,
    MathError,
> {
    sell_quote(terms_of(s.constants, s.launches[id].curve), pricing(s.curves[id]), tokens_in)
}

/// What a sell is quoted.
pub open spec fn sell_quoted(s: Store, id: LaunchId, tokens_in: Balance) -> SellQuote {
    sell_price(s, id, tokens_in)->Ok_0
}

/// The curve state after a sell was settled.
pub open spec fn sold(
    state: CurveState,
    q: SellQuote,
    tokens_in: Balance,
    parts: (u128, u128, u128),
    now: BlockNumber,
) -> CurveState {
    CurveState {
        real_quote: (state.real_quote - q.quote_gross) as u128,
        tokens_remaining: sat_add(state.tokens_remaining, tokens_in),
        creator_fees_unclaimed: sat_add(state.creator_fees_unclaimed, parts.2),
        protocol_fees_paid: sat_add(state.protocol_fees_paid, parts.0),
        treasury_fees_paid: sat_add(state.treasury_fees_paid, parts.1),
        last_trade_block: now,
        ..state
    }
}

/// A sell until it is priced.
pub open spec fn sell_open_run(
    run: Run,
    s: Store,
    id: LaunchId,
    tokens_in: Balance,
    min_quote_out: Balance,
) -> Run {
    let price = sell_price(s, id, tokens_in);
    run.ensure(s.has(id), Error::LaunchNotFound).ensure(
        s.curves[id].phase == Phase::Trading,
        Error::WrongPhase,
    ).ensure(tokens_in != 0, Error::ZeroAmount).ensure(
        tokens_in <= sat_sub(s.constants.sellable, s.curves[id].tokens_remaining),
        Error::SellExceedsSold,
    ).stop(
        match price {
            Err(e) => Some(math_error(e)),
            Ok(_) => None,
        },
    ).ensure((price->Ok_0).quote_out >= min_quote_out, Error::SlippageExceeded)
}

/// A sell from the start.
pub open spec fn sell_run(
    run: Run,
    s: Store,
    who: AccountId,
    id: LaunchId,
    tokens_in: Balance,
    min_quote_out: Balance,
    r: SellReplies,
) -> Run {
    let launch = s.launches[id];
    let q = sell_quoted(s, id, tokens_in);
    let (protocol, treasury, _creator) = fee_parts(
        q.fee,
        launch.curve.protocol_share_bps,
        launch.curve.treasury_share_bps,
    );
    fee_run(
        sell_open_run(run, s, id, tokens_in, min_quote_out).call(
            Call::AssetTransfer {
                asset: launch.asset_id,
                from: who,
                to: launch.escrow,
                amount: tokens_in,
                keep: Preservation::Expendable,
                reply: r.delivered,
            },
        ),
        s.constants,
        launch,
        protocol,
        treasury,
        r.fees,
    ).call(Call::BlockNumber { reply: r.now }).ensure(
        q.quote_gross <= s.curves[id].real_quote,
        Error::ArithmeticOverflow,
    ).call(
        Call::Transfer {
            from: launch.escrow,
            to: who,
            amount: q.quote_out,
            keep: Preservation::Preserve,
            reply: r.paid_out,
        },
    ).event(
        Event::Sold { launch_id: id, who, tokens_in, fee: q.fee, quote_out: q.quote_out },
    )
}

/// The curve state after a sell.
pub open spec fn sell_state(s: Store, id: LaunchId, tokens_in: Balance, r: SellReplies) -> CurveState {
    let q = sell_quoted(s, id, tokens_in);
    sold(s.curves[id], q, tokens_in, parts_paid(s.launches[id], q.fee, r.fees), r.now)
}

/// What a sell does for given answers.
pub open spec fn sell_done(
    s0: Store,
    log0: Seq<Call>,
    who: AccountId,
    id: LaunchId,
    tokens_in: Balance,
    min_quote_out: Balance,
    r: SellReplies,
    result: Result<(), DispatchError>,
    s1: Store,
    log1: Seq<Call>,
) -> bool {
    let run = sell_run(Run::from(log0), s0, who, id, tokens_in, min_quote_out, r);
    &&& log1 == run.log
    &&& result == run.result(())
    &&& s1 == if run.ok() {
        s0.with_curve(id, sell_state(s0, id, tokens_in, r))
    } else {
        s0
    }
}

/// Settle a priced sell on the curve's state.
pub fn settle_sell(
    state: &CurveState,
    q: &SellQuote,
    tokens_in: Balance,
    parts: (u128, u128, u128),
    now: BlockNumber,
) -> (r: Result<CurveState, DispatchError>)
    ensures
        r == if q.quote_gross <= state.real_quote {
            Ok(sold(*state, *q, tokens_in, parts, now))
        } else {
            Err(DispatchError::Module(Error::ArithmeticOverflow))
        },
{
    let mut next = *state;
    next.creator_fees_unclaimed = state.creator_fees_unclaimed.saturating_add(parts.2);
    next.protocol_fees_paid = state.protocol_fees_paid.saturating_add(parts.0);
    next.treasury_fees_paid = state.treasury_fees_paid.saturating_add(parts.1);
    next.last_trade_block = now;
    next.real_quote = match state.real_quote.checked_sub(q.quote_gross) {
        Some(v) => v,
        None => return Err(DispatchError::Module(Error::ArithmeticOverflow)),
    };
    next.tokens_remaining = state.tokens_remaining.saturating_add(tokens_in);
    Ok(next)
}

/// Settle a priced buy on the curve's state. `parts` are what the protocol, the
/// treasury and the creator got of the fee.
pub fn settle_buy(
    state: &CurveState,
    q: &BuyQuote,
    parts: (u128, u128, u128),
    now: BlockNumber,
    is_trade: bool,
) -> (r: Result<CurveState, DispatchError>)
    ensures
        r == if q.tokens_out <= state.tokens_remaining {
            Ok(bought(*state, *q, parts, now, is_trade))
        } else {
            Err(DispatchError::Module(Error::ArithmeticOverflow))
        },
{
    let remaining: Balance = match state.tokens_remaining.checked_sub(q.tokens_out) {
        Some(t) => t,
        None => return Err(DispatchError::Module(Error::ArithmeticOverflow)),
    };
    let mut next = *state;
    next.creator_fees_unclaimed = state.creator_fees_unclaimed.saturating_add(parts.2);
    next.protocol_fees_paid = state.protocol_fees_paid.saturating_add(parts.0);
    next.treasury_fees_paid = state.treasury_fees_paid.saturating_add(parts.1);
    if is_trade {
        next.last_trade_block = now;
    }
    next.real_quote = state.real_quote.saturating_add(q.quote_net_used);
    next.tokens_remaining = remaining;
    if remaining == 0 {
        next.phase = Phase::Complete;
        next.completed_at = Some(now);
    }
    Ok(next)
}

/// The treasury account that takes its part of a fee, given what the runtime
/// says of it.
pub fn choose_vault(
    treasury: u128,
    sink: Option<AccountId>,
    minimum: Balance,
    sink_exists: bool,
) -> (r: Option<AccountId>)
    ensures
        r == fee_vault(treasury, sink, minimum, sink_exists),
{
    match sink {
        Some(v) if treasury > 0 && (treasury >= minimum || sink_exists) => Some(v),
        _ => None,
    }
}

impl<T: Config> Pallet<T> {
    /// Pay the protocol and treasury parts of a curve fee out of the escrow.
    /// The treasury part goes to the sink's account for the launch asset if
    /// there is one that can take it, else it joins the protocol part: a part
    /// below the existential deposit cannot create the account. Returns
    /// `(protocol paid, treasury paid)`.
    pub(crate) fn pay_fee_parts(&mut self, launch: &Launch, protocol: u128, treasury: u128) -> (out:
        (Result<(Balance, Balance), DispatchError>, Ghost<FeeReplies>))
        requires
            protocol + treasury <= u128::MAX,
        ensures
            final(self).store() == old(self).store(),
            ({
                let r = out.1@;
                let run = fee_run(
                    Run::from(old(self).log()),
                    old(self).constants,
                    *launch,
                    protocol,
                    treasury,
                    r,
                );
                &&& final(self).log() == run.log
                &&& out.0 == run.result(routed(protocol, treasury, r.vault(treasury)))
            }),
    {
        let ghost blank: FeeReplies = arbitrary();
        let asset = AssetKind::WithId(launch.asset_id);
        let sink = if treasury > 0 {
            self.host.treasury_account_for(asset)
        } else {
            None
        };
        let minimum: Balance = self.host.currency_minimum_balance();
        let sink_exists = match sink {
            Some(v) if treasury < minimum => self.host.account_exists(&v),
            _ => false,
        };
        let ghost r = FeeReplies { sink, minimum, sink_exists, ..blank };
        let vault = choose_vault(treasury, sink, minimum, sink_exists);
        let (to_protocol, to_vault) = match vault {
            Some(_) => (protocol, treasury),
            None => (protocol + treasury, 0),
        };
        let ghost mut r1 = r;
        if to_protocol > 0 {
            let paid = self.host.currency_transfer(
                &launch.escrow,
                &self.constants.treasury,
                to_protocol,
                Preservation::Preserve,
            );
            proof {
                r1 = FeeReplies { protocol_paid: paid, ..r };
            }
            if let Err(e) = paid {
                return (Err(e), Ghost(r1));
            }
        }
        let ghost mut r2 = r1;
        if let Some(v) = vault {
            let paid = self.host.currency_transfer(
                &launch.escrow,
                &v,
                to_vault,
                Preservation::Preserve,
            );
            proof {
                r2 = FeeReplies { vault_paid: paid, ..r1 };
            }
            if let Err(e) = paid {
                return (Err(e), Ghost(r2));
            }
            self.host.treasury_note_fee(asset, to_vault);
        }
        (Ok((to_protocol, to_vault)), Ghost(r2))
    }
}

/// Record that a launch's pool was seeded.
pub fn mark_graduated(state: &CurveState, shares: Balance, now: BlockNumber) -> (r: CurveState)
    ensures
        r == graduated(*state, shares, now),
{
    let mut next = *state;
    next.real_quote = 0;
    next.lp_shares = shares;
    next.phase = Phase::Graduated;
    next.graduated_at = Some(now);
    next
}

impl<T: Config> Pallet<T> {
    /// Seed the pool of a launch that is `Complete`.
    pub(crate) fn seed(&mut self, launch_id: LaunchId, nested: bool) -> (out: (
        Result<(), DispatchError>,
        Ghost<SeedReplies>,
    ))
        ensures
            seed_done(
                old(self).store(),
                old(self).log(),
                launch_id,
                nested,
                out.1@,
                out.0,
                final(self).store(),
                final(self).log(),
            ),
    {
        let ghost blank: SeedReplies = arbitrary();
        let launch = match self.launches.get(&launch_id) {
            Some(l) => *l,
            None => return (Err(DispatchError::Module(Error::LaunchNotFound)), Ghost(blank)),
        };
        let state = match self.curves.get(&launch_id) {
            Some(c) => *c,
            None => return (Err(DispatchError::Module(Error::LaunchNotFound)), Ghost(blank)),
        };
        if state.phase != Phase::Complete {
            return (Err(DispatchError::Module(Error::WrongPhase)), Ghost(blank));
        }
        let reserved: Balance = self.reserved();
        let seeded = self.host.seed_reserved_pool_for(
            nested,
            &launch.escrow,
            AssetKind::WithId(launch.asset_id),
            AssetKind::Native,
            reserved,
            state.real_quote,
            launch.curve.pool_fee_tier,
        );
        let shares: Balance = match seeded {
            Ok(s) => s,
            Err(e) => return (Err(e), Ghost(SeedReplies { shares: seeded, ..blank })),
        };
        let now: BlockNumber = self.host.block_number();
        self.curves.insert(launch_id, mark_graduated(&state, shares, now));
        self.host.deposit_event(
            Event::Graduated {
                launch_id,
                quote_seeded: state.real_quote,
                tokens_seeded: reserved,
                shares,
            },
        );
        (Ok(()), Ghost(SeedReplies { shares: seeded, now }))
    }

    /// The only path that moves curve funds to the pool.
    pub fn do_seed(&mut self, launch_id: LaunchId) -> (result: Result<(), DispatchError>)
        requires
            old(self).wf(),
        ensures
            final(self).wf(),
            faithful::<T>(final(self).log()),
            exists|r: SeedReplies|
                seed_done(
                    old(self).store(),
                    old(self).log(),
                    launch_id,
                    false,
                    r,
                    result,
                    final(self).store(),
                    final(self).log(),
                ),
    {
        let out = self.seed(launch_id, false);
        self.host.attest();
        out.0
    }

    /// Permissionless retry of seeding. Not nested: a failure is the call's
    /// error, visible to the caller.
    pub fn graduate(&mut self, origin: Origin, launch_id: LaunchId) -> (result: Result<
        (),
        DispatchError,
    >)
        requires
            old(self).wf(),
        ensures
            final(self).wf(),
            faithful::<T>(final(self).log()),
            origin is Signed ==> exists|r: SeedReplies|
                seed_done(
                    old(self).store(),
                    old(self).log(),
                    launch_id,
                    false,
                    r,
                    result,
                    final(self).store(),
                    final(self).log(),
                ),
            !(origin is Signed) ==> {
                &&& result == Err::<(), _>(DispatchError::BadOrigin)
                &&& final(self).store() == old(self).store()
                &&& final(self).log() == old(self).log()
            },
    {
        let result = match origin {
            Origin::Signed(_) => self.do_seed(launch_id),
            _ => Err(DispatchError::BadOrigin),
        };
        self.host.attest();
        result
    }

    /// Price a buy: the checks, the hook and the quote.
    pub(crate) fn open_buy(
        &mut self,
        who: &AccountId,
        launch_id: LaunchId,
        quote_in: Balance,
        min_tokens_out: Balance,
        is_creator: bool,
        is_trade: bool,
    ) -> (out: (Result<(BuyQuote, BlockNumber), DispatchError>, Ghost<OpenReplies>))
        ensures
            final(self).store() == old(self).store(),
            ({
                let a = BuyArgs {
                    who: *who,
                    launch_id,
                    quote_in,
                    min_tokens_out,
                    is_creator,
                    is_trade,
                };
                let run = open_run(Run::from(old(self).log()), old(self).store(), a, out.1@);
                &&& final(self).log() == run.log
                &&& out.0 == run.result(
                    (
                        buy_price(old(self).store(), launch_id, out.1@.to_curve())->Ok_0,
                        out.1@.now,
                    ),
                )
                &&& out.0 is Ok ==> buy_price(
                    old(self).store(),
                    launch_id,
                    out.1@.to_curve(),
                ) is Ok
            }),
    {
        let ghost blank: OpenReplies = arbitrary();
        let launch = match self.launches.get(&launch_id) {
            Some(l) => *l,
            None => return (Err(DispatchError::Module(Error::LaunchNotFound)), Ghost(blank)),
        };
        let state = match self.curves.get(&launch_id) {
            Some(c) => *c,
            None => return (Err(DispatchError::Module(Error::LaunchNotFound)), Ghost(blank)),
        };
        if state.phase != Phase::Trading {
            return (Err(DispatchError::Module(Error::WrongPhase)), Ghost(blank));
        }
        if quote_in == 0 {
            return (Err(DispatchError::Module(Error::ZeroAmount)), Ghost(blank));
        }
        let now: BlockNumber = self.host.block_number();
        let hook = self.host.on_buy(launch_id, launch.created_at, now, who, is_creator, quote_in);
        let ghost r1 = OpenReplies { now, hook, ..blank };
        let (to_curve, extra): (Balance, Balance) = match hook {
            Ok(pair) => pair,
            Err(e) => return (Err(e), Ghost(r1)),
        };
        let ghost mut r2 = r1;
        if extra > 0 {
            let paid = self.host.currency_transfer(
                who,
                &self.constants.treasury,
                extra,
                Preservation::Preserve,
            );
            proof {
                r2 = OpenReplies { extra_paid: paid, ..r1 };
            }
            if let Err(e) = paid {
                return (Err(e), Ghost(r2));
            }
        }
        let terms = self.terms(&launch.curve);
        let pricing = State {
            real_quote: state.real_quote,
            tokens_remaining: state.tokens_remaining,
        };
        let q = match quote_buy(&terms, &pricing, to_curve) {
            Ok(q) => q,
            Err(e) => return (Err(map_math(e)), Ghost(r2)),
        };
        if q.tokens_out < min_tokens_out {
            return (Err(DispatchError::Module(Error::SlippageExceeded)), Ghost(r2));
        }
        (Ok((q, now)), Ghost(r2))
    }

    /// Take payment for a priced buy and pay its fee's parts. Returns what the
    /// protocol, the treasury and the creator get of the fee.
    pub(crate) fn take_payment(&mut self, who: &AccountId, launch: &Launch, q: &BuyQuote) -> (out: (
        Result<(u128, u128, u128), DispatchError>,
        Ghost<PayReplies>,
    ))
        requires
            shares_fit(launch.curve.protocol_share_bps, launch.curve.treasury_share_bps),
        ensures
            final(self).store() == old(self).store(),
            ({
                let run = pay_run(
                    Run::from(old(self).log()),
                    old(self).constants,
                    *launch,
                    *who,
                    *q,
                    out.1@,
                );
                &&& final(self).log() == run.log
                &&& out.0 == run.result(parts_paid(*launch, q.fee, out.1@.fees))
            }),
    {
        let ghost blank: PayReplies = arbitrary();
        let funded = self.host.currency_transfer(
            who,
            &launch.escrow,
            q.quote_used,
            Preservation::Preserve,
        );
        let ghost r1 = PayReplies { funded, ..blank };
        if let Err(e) = funded {
            return (Err(e), Ghost(r1));
        }
        let (protocol, treasury, creator) = split_fee(
            q.fee,
            launch.curve.protocol_share_bps,
            launch.curve.treasury_share_bps,
        );
        let (paid, fees) = self.pay_fee_parts(launch, protocol, treasury);
        let ghost r2 = PayReplies { fees: fees@, ..r1 };
        match paid {
            Ok((to_protocol, to_vault)) => (Ok((to_protocol, to_vault, creator)), Ghost(r2)),
            Err(e) => (Err(e), Ghost(r2)),
        }
    }

    /// Hand over what was bought and record the trade.
    pub(crate) fn deliver(
        &mut self,
        who: &AccountId,
        launch_id: LaunchId,
        launch: &Launch,
        state: &CurveState,
        settled: &CurveState,
        q: &BuyQuote,
    ) -> (delivered: Result<(), DispatchError>)
        requires
            q.tokens_out <= state.tokens_remaining,
        ensures
            ({
                let a = BuyArgs {
                    who: *who,
                    launch_id,
                    quote_in: 0,
                    min_tokens_out: 0,
                    is_creator: false,
                    is_trade: false,
                };
                let run = deliver_run(
                    Run::from(old(self).log()),
                    *launch,
                    *state,
                    a,
                    *q,
                    delivered,
                );
                &&& final(self).log() == run.log
                &&& refused(delivered) == run.error
                &&& final(self).store() == if delivered is Ok {
                    old(self).store().with_curve(launch_id, *settled)
                } else {
                    old(self).store()
                }
            }),
    {
        let delivered = self.host.asset_transfer(
            launch.asset_id,
            &launch.escrow,
            who,
            q.tokens_out,
            Preservation::Expendable,
        );
        if delivered.is_err() {
            return delivered;
        }
        self.curves.insert(launch_id, *settled);
        self.host.deposit_event(
            Event::Bought {
                launch_id,
                who: *who,
                quote_used: q.quote_used,
                fee: q.fee,
                tokens_out: q.tokens_out,
            },
        );
        delivered
    }

    /// The body of every buy, with the runtime's answers to it.
    #[verifier::rlimit(40)]
    pub(crate) fn buy_inner(
        &mut self,
        who: &AccountId,
        launch_id: LaunchId,
        quote_in: Balance,
        min_tokens_out: Balance,
        is_creator: bool,
        is_trade: bool,
    ) -> (out: (Result<(bool, Balance), DispatchError>, Ghost<BuyReplies>))
        requires
            old(self).wf(),
        ensures
            final(self).wf(),
            buy_done(
                old(self).store(),
                old(self).log(),
                BuyArgs { who: *who, launch_id, quote_in, min_tokens_out, is_creator, is_trade },
                out.1@,
                out.0,
                final(self).store(),
                final(self).log(),
            ),
    {
        let ghost blank: BuyReplies = arbitrary();
        let (opened, open) = self.open_buy(
            who,
            launch_id,
            quote_in,
            min_tokens_out,
            is_creator,
            is_trade,
        );
        let ghost r1 = BuyReplies { open: open@, ..blank };
        let (q, now) = match opened {
            Ok(pair) => pair,
            Err(e) => return (Err(e), Ghost(r1)),
        };
        let (launch, state) = match (self.launches.get(&launch_id), self.curves.get(&launch_id)) {
            (Some(l), Some(c)) => (*l, *c),
            _ => return (Err(DispatchError::Module(Error::LaunchNotFound)), Ghost(r1)),
        };
        let (paid, pay) = self.take_payment(who, &launch, &q);
        let ghost r2 = BuyReplies { pay: pay@, ..r1 };
        let parts = match paid {
            Ok(parts) => parts,
            Err(e) => return (Err(e), Ghost(r2)),
        };
        let settled = match settle_buy(&state, &q, parts, now, is_trade) {
            Ok(s) => s,
            Err(e) => return (Err(e), Ghost(r2)),
        };
        let delivered = self.deliver(who, launch_id, &launch, &state, &settled, &q);
        let ghost r3 = BuyReplies { delivered, ..r2 };
        if let Err(e) = delivered {
            return (Err(e), Ghost(r3));
        }
        let crossed = settled.tokens_remaining == 0;
        let ghost mut r4 = r3;
        if crossed {
            self.host.curve_written(launch_id, &settled);
            self.host.deposit_event(
                Event::CurveCompleted { launch_id, raised: settled.real_quote },
            );
            let (seeded, seed) = self.seed(launch_id, true);
            proof {
                r4 = BuyReplies { seed: seed@, ..r3 };
            }
            if let Err(error) = seeded {
                self.host.deposit_event(Event::GraduationDeferred { launch_id, error });
            }
            assert(self.curves@ =~= old(self).curves@.insert(launch_id, self.curves@[launch_id]));
        }
        (Ok((crossed, q.tokens_out)), Ghost(r4))
    }

    /// The single choke point of every buy. Returns whether the buy exhausted
    /// the curve (and therefore attempted the seed), and the tokens delivered.
    /// `is_trade` says whether this buy counts as market activity for
    /// `last_trade_block`: a person's buy does; the treasury's own buyback
    /// through [`CurveVenue::buy_for`](crate::pallet::views::CurveVenue::buy_for)
    /// and a burn slice do not. The dormancy rule that reads the field asks
    /// whether anyone is still interested in the token, and the token being
    /// bought back on its own behalf is not an answer.
    pub fn do_buy(
        &mut self,
        who: &AccountId,
        launch_id: LaunchId,
        quote_in: Balance,
        min_tokens_out: Balance,
        is_creator: bool,
        is_trade: bool,
    ) -> (result: Result<(bool, Balance), DispatchError>)
        requires
            old(self).wf(),
        ensures
            final(self).wf(),
            faithful::<T>(final(self).log()),
            exists|r: BuyReplies|
                buy_done(
                    old(self).store(),
                    old(self).log(),
                    BuyArgs { who: *who, launch_id, quote_in, min_tokens_out, is_creator, is_trade },
                    r,
                    result,
                    final(self).store(),
                    final(self).log(),
                ),
    {
        let out = self.buy_inner(who, launch_id, quote_in, min_tokens_out, is_creator, is_trade);
        self.host.attest();
        out.0
    }

    /// Buy with exactly `quote_in`, or less where that takes the last of the
    /// curve. Whether the buy crosses is state-dependent, so the crossing weight
    /// is charged up front and the actual weight returned where it did not.
    pub fn buy(
        &mut self,
        origin: Origin,
        launch_id: LaunchId,
        quote_in: Balance,
        min_tokens_out: Balance,
    ) -> (result: Result<Option<ActualWeight>, DispatchError>)
        requires
            old(self).wf(),
        ensures
            final(self).wf(),
            faithful::<T>(final(self).log()),
            match origin {
                Origin::Signed(who) => exists|r: BuyReplies|
                    buy_called(
                        old(self).store(),
                        old(self).log(),
                        user_buy(old(self).store(), who, launch_id, quote_in, min_tokens_out),
                        r,
                        result,
                        final(self).store(),
                        final(self).log(),
                    ),
                _ => {
                    &&& result == Err::<Option<ActualWeight>, _>(DispatchError::BadOrigin)
                    &&& final(self).store() == old(self).store()
                    &&& final(self).log() == old(self).log()
                },
            },
    {
        self.host.attest();
        let who = match origin {
            Origin::Signed(who) => who,
            _ => return Err(DispatchError::BadOrigin),
        };
        let is_creator = match self.launches.get(&launch_id) {
            Some(launch) => who == launch.creator,
            None => {
                proof {
                    let r: BuyReplies = arbitrary();
                    assert(buy_called(
                        old(self).store(),
                        old(self).log(),
                        user_buy(old(self).store(), who, launch_id, quote_in, min_tokens_out),
                        r,
                        Err(DispatchError::Module(Error::LaunchNotFound)),
                        self.store(),
                        self.log(),
                    ));
                }
                return Err(DispatchError::Module(Error::LaunchNotFound));
            },
        };
        let (bought, replies) = self.buy_inner(
            &who,
            launch_id,
            quote_in,
            min_tokens_out,
            is_creator,
            true,
        );
        let result = match bought {
            Ok((crossed, _)) => Ok(
                if crossed {
                    None
                } else {
                    Some(ActualWeight::Buy)
                },
            ),
            Err(e) => Err(e),
        };
        proof {
            assert(buy_called(
                old(self).store(),
                old(self).log(),
                user_buy(old(self).store(), who, launch_id, quote_in, min_tokens_out),
                replies@,
                result,
                self.store(),
                self.log(),
            ));
        }
        self.host.attest();
        result
    }

    /// A sell until it is priced. Makes no call.
    pub(crate) fn open_sell(&self, launch_id: LaunchId, tokens_in: Balance, min_quote_out: Balance) -> (r:
        Result<SellQuote, DispatchError>)
        ensures
            r == sell_open_run(
                Run::from(self.log()),
                self.store(),
                launch_id,
                tokens_in,
                min_quote_out,
            ).result(sell_quoted(self.store(), launch_id, tokens_in)),
    {
        let launch = match self.launches.get(&launch_id) {
            Some(l) => *l,
            None => return Err(DispatchError::Module(Error::LaunchNotFound)),
        };
        let state = match self.curves.get(&launch_id) {
            Some(c) => *c,
            None => return Err(DispatchError::Module(Error::LaunchNotFound)),
        };
        if state.phase != Phase::Trading {
            return Err(DispatchError::Module(Error::WrongPhase));
        }
        if tokens_in == 0 {
            return Err(DispatchError::Module(Error::ZeroAmount));
        }
        if tokens_in > self.constants.sellable.saturating_sub(state.tokens_remaining) {
            return Err(DispatchError::Module(Error::SellExceedsSold));
        }
        let terms = self.terms(&launch.curve);
        let pricing = State {
            real_quote: state.real_quote,
            tokens_remaining: state.tokens_remaining,
        };
        match quote_sell(&terms, &pricing, tokens_in) {
            Ok(q) => if q.quote_out >= min_quote_out {
                Ok(q)
            } else {
                Err(DispatchError::Module(Error::SlippageExceeded))
            },
            Err(e) => Err(map_math(e)),
        }
    }

    /// The body of a sell, with the runtime's answers to it.
    #[verifier::rlimit(40)]
    pub(crate) fn sell_inner(
        &mut self,
        who: &AccountId,
        launch_id: LaunchId,
        tokens_in: Balance,
        min_quote_out: Balance,
    ) -> (out: (Result<(), DispatchError>, Ghost<SellReplies>))
        requires
            old(self).wf(),
        ensures
            final(self).wf(),
            sell_done(
                old(self).store(),
                old(self).log(),
                *who,
                launch_id,
                tokens_in,
                min_quote_out,
                out.1@,
                out.0,
                final(self).store(),
                final(self).log(),
            ),
    {
        let ghost blank: SellReplies = arbitrary();
        let q = match self.open_sell(launch_id, tokens_in, min_quote_out) {
            Ok(q) => q,
            Err(e) => return (Err(e), Ghost(blank)),
        };
        let (launch, state) = match (self.launches.get(&launch_id), self.curves.get(&launch_id)) {
            (Some(l), Some(c)) => (*l, *c),
            _ => return (Err(DispatchError::Module(Error::LaunchNotFound)), Ghost(blank)),
        };
        let delivered = self.host.asset_transfer(
            launch.asset_id,
            who,
            &launch.escrow,
            tokens_in,
            Preservation::Expendable,
        );
        let ghost r1 = SellReplies { delivered, ..blank };
        if let Err(e) = delivered {
            return (Err(e), Ghost(r1));
        }
        let (protocol, treasury, creator) = split_fee(
            q.fee,
            launch.curve.protocol_share_bps,
            launch.curve.treasury_share_bps,
        );
        let (paid, fees) = self.pay_fee_parts(&launch, protocol, treasury);
        let ghost r2 = SellReplies { fees: fees@, ..r1 };
        let (to_protocol, to_vault): (Balance, Balance) = match paid {
            Ok(pair) => pair,
            Err(e) => return (Err(e), Ghost(r2)),
        };
        let now: BlockNumber = self.host.block_number();
        let ghost r3 = SellReplies { now, ..r2 };
        let settled = match settle_sell(
            &state,
            &q,
            tokens_in,
            (to_protocol, to_vault, creator),
            now,
        ) {
            Ok(s) => s,
            Err(e) => return (Err(e), Ghost(r3)),
        };
        let paid_out = self.host.currency_transfer(
            &launch.escrow,
            who,
            q.quote_out,
            Preservation::Preserve,
        );
        let ghost r4 = SellReplies { paid_out, ..r3 };
        if let Err(e) = paid_out {
            return (Err(e), Ghost(r4));
        }
        self.curves.insert(launch_id, settled);
        self.host.deposit_event(
            Event::Sold { launch_id, who: *who, tokens_in, fee: q.fee, quote_out: q.quote_out },
        );
        (Ok(()), Ghost(r4))
    }

    /// Sell `tokens_in` back to the curve.
    pub fn do_sell(
        &mut self,
        who: &AccountId,
        launch_id: LaunchId,
        tokens_in: Balance,
        min_quote_out: Balance,
    ) -> (result: Result<(), DispatchError>)
        requires
            old(self).wf(),
        ensures
            final(self).wf(),
            faithful::<T>(final(self).log()),
            exists|r: SellReplies|
                sell_done(
                    old(self).store(),
                    old(self).log(),
                    *who,
                    launch_id,
                    tokens_in,
                    min_quote_out,
                    r,
                    result,
                    final(self).store(),
                    final(self).log(),
                ),
    {
        let out = self.sell_inner(who, launch_id, tokens_in, min_quote_out);
        self.host.attest();
        out.0
    }

    /// Sell `tokens_in` back to the curve.
    pub fn sell(
        &mut self,
        origin: Origin,
        launch_id: LaunchId,
        tokens_in: Balance,
        min_quote_out: Balance,
    ) -> (result: Result<(), DispatchError>)
        requires
            old(self).wf(),
        ensures
            final(self).wf(),
            faithful::<T>(final(self).log()),
            match origin {
                Origin::Signed(who) => exists|r: SellReplies|
                    sell_done(
                        old(self).store(),
                        old(self).log(),
                        who,
                        launch_id,
                        tokens_in,
                        min_quote_out,
                        r,
                        result,
                        final(self).store(),
                        final(self).log(),
                    ),
                _ => {
                    &&& result == Err::<(), _>(DispatchError::BadOrigin)
                    &&& final(self).store() == old(self).store()
                    &&& final(self).log() == old(self).log()
                },
            },
    {
        let result = match origin {
            Origin::Signed(who) => self.do_sell(&who, launch_id, tokens_in, min_quote_out),
            _ => Err(DispatchError::BadOrigin),
        };
        self.host.attest();
        result
    }
}

} // verus!
