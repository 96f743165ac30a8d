//! Laws on whom the escrow pays, and on what a trade reads.
use crate::MAX_ASSET_ID_SCAN;
use crate::accounts::derived;
use crate::config::{Call, Constants, Run};
use crate::event::Event;
use crate::laws::action::Action;
use crate::laws::flow::{quote_flow, token_flow};
use crate::pallet::Store;
use crate::pallet::commitments::{claim_run, metadata_run, recipient_run, release_run};
use crate::pallet::create::{
    announce_run, asset_chosen, asset_free, asset_tried, check_run, create_run, first_buy, fund_run,
    launch_created, launch_run, launch_store, launch_written, mint_run, scan_run, CreateArgs,
    CreateReplies,
};
use crate::pallet::disburse::{
    claim_legs_run, disburse_call_run, disburse_run, leg_taken, slice_buy, slice_run, slice_size,
    slice_size_run, slice_trade_run, venue_quote, DisburseReplies,
};
use crate::pallet::govern::{
    deposit_run, rescue_due_run, rescue_run, set_params_run, set_paused_run, sweep_run,
};
use crate::pallet::terms::{commitments_error, fee_parts, reserved_tokens};
use crate::pallet::trade::{
    buy_quoted, buy_run, buy_settled, buy_trade_run, crossing_run, deliver_run, fee_run, open_run,
    pay_run, seed_run, sell_open_run, sell_quoted, sell_run, BuyArgs, BuyReplies, FeeReplies,
    SeedReplies, SellReplies,
};
use crate::records::{CurveState, Launch, Phase};
use crate::types::{
    sat_sub, AccountId, AssetId, AssetKind, Balance, DispatchError, Error, LaunchId, Preservation,
};
use vstd::prelude::*;

verus! {

/// What may be done with an account: whom it may pay, into which asset's pool
/// it may deposit, and whether its balances may be read.
pub struct Allowed {
    pub payees: Set<AccountId>,
    pub pool: Option<AssetKind>,
    pub read: bool,
}

impl Allowed {
    /// Nothing may be done with it.
    pub open spec fn nothing() -> Allowed {
        Allowed { payees: Set::empty(), pool: None, read: false }
    }
}

/// A call takes nothing out of an account but to one of its payees, or into
/// this asset's pool, and reads its balances only where it may.
pub open spec fn pays_only(c: Call, from_account: AccountId, allowed: Allowed) -> bool {
    match c {
        Call::Transfer { from, to, .. } => from == from_account ==> allowed.payees.contains(to),
        Call::AssetTransfer { from, to, .. } => from == from_account ==> allowed.payees.contains(to),
        Call::AssetBurn { who, .. } => who != from_account,
        Call::Swap { who, .. } => who != from_account,
        Call::SeedPool { who, asset, quote, .. } => who == from_account ==> allowed.pool == Some(
            asset,
        ) && quote == AssetKind::Native,
        Call::AddLiquidity { who, a, b, .. } => who == from_account ==> allowed.pool == Some(
            a,
        ) && b == AssetKind::Native,
        Call::CurrencyBalance { who, .. } => who == from_account ==> allowed.read,
        Call::ReducibleBalance { who, .. } => who == from_account ==> allowed.read,
        Call::AssetBalance { who, .. } => who == from_account ==> allowed.read,
        _ => true,
    }
}

/// No call that `log` holds beyond `base` does anything else with an account.
pub open spec fn paid_only(
    log: Seq<Call>,
    base: Seq<Call>,
    e: AccountId,
    allowed: Allowed,
) -> bool {
    &&& base.len() <= log.len()
    &&& forall|i: int| 0 <= i < base.len() ==> #[trigger] log[i] == base[i]
    &&& forall|i: int| base.len() <= i < log.len() ==> pays_only(#[trigger] log[i], e, allowed)
}

broadcast proof fn lemma_paid_call(run: Run, c: Call, base: Seq<Call>, e: AccountId, allowed: Allowed)
    requires
        paid_only(run.log, base, e, allowed),
        run.ok() ==> pays_only(c, e, allowed),
    ensures
        #[trigger] paid_only(run.call(c).log, base, e, allowed),
{
}

broadcast proof fn lemma_paid_call_if(
    run: Run,
    due: bool,
    c: Call,
    base: Seq<Call>,
    e: AccountId,
    allowed: Allowed,
)
    requires
        paid_only(run.log, base, e, allowed),
        run.ok() && due ==> pays_only(c, e, allowed),
    ensures
        #[trigger] paid_only(run.call_if(due, c).log, base, e, allowed),
{
}

broadcast proof fn lemma_paid_event(
    run: Run,
    event: Event,
    base: Seq<Call>,
    e: AccountId,
    allowed: Allowed,
)
    requires
        paid_only(run.log, base, e, allowed),
    ensures
        #[trigger] paid_only(run.event(event).log, base, e, allowed),
{
}

broadcast proof fn lemma_paid_ensure(
    run: Run,
    cond: bool,
    error: Error,
    base: Seq<Call>,
    e: AccountId,
    allowed: Allowed,
)
    requires
        paid_only(run.log, base, e, allowed),
    ensures
        #[trigger] paid_only(run.ensure(cond, error).log, base, e, allowed),
{
}

broadcast proof fn lemma_paid_stop(
    run: Run,
    error: Option<DispatchError>,
    base: Seq<Call>,
    e: AccountId,
    allowed: Allowed,
)
    requires
        paid_only(run.log, base, e, allowed),
    ensures
        #[trigger] paid_only(run.stop(error).log, base, e, allowed),
{
}

broadcast group group_paid {
    lemma_paid_call,
    lemma_paid_call_if,
    lemma_paid_event,
    lemma_paid_ensure,
    lemma_paid_stop,
}

/// The account that a fee's treasury part may go to.
pub open spec fn sink_of(r: FeeReplies) -> Set<AccountId> {
    match r.sink {
        Some(vault) => set![vault],
        None => Set::empty(),
    }
}

impl Action {
    /// Whom this action may pay out of its launch's escrow.
    pub open spec fn payees(self, s0: Store) -> Set<AccountId> {
        let treasury = set![s0.constants.treasury];
        match self {
            Action::Create { a, r } => treasury.insert(a.creator).union(sink_of(r.buy.pay.fees)),
            Action::Buy { a, r } => treasury.insert(a.who).union(sink_of(r.pay.fees)),
            Action::Sell { who, r, .. } => treasury.insert(who).union(sink_of(r.fees)),
            Action::Graduate { .. } => Set::empty(),
            Action::ClaimCreatorFees { who, .. } => set![who],
            Action::SetCreatorFeeRecipient { .. } => Set::empty(),
            Action::SetLaunchMetadata { .. } => Set::empty(),
            Action::Disburse { id, r } => treasury.insert(
                derived(s0.constants.commit_pallet_id, id),
            ).union(sink_of(r.inner.slice.buy.pay.fees)),
            Action::DoDisburse { id, r } => treasury.insert(
                derived(s0.constants.commit_pallet_id, id),
            ).union(sink_of(r.slice.buy.pay.fees)),
            Action::ClaimLocked { .. } => Set::empty(),
            Action::SetParams { .. } => Set::empty(),
            Action::SetCreationPaused { .. } => Set::empty(),
            Action::ForceSeed { .. } => treasury,
        }
    }

    /// What this action may do with an account that it does not spend from: if
    /// it is its launch's escrow, pay out of it and deposit into the pool; if
    /// not, nothing. Only a creation, which funds the escrow, and a rescue,
    /// which measures what the pool took, read what is in it.
    pub open spec fn allowed(self, s0: Store, e: AccountId) -> Allowed {
        if self.escrow(s0) == Some(e) {
            Allowed {
                payees: self.payees(s0),
                pool: Some(AssetKind::WithId(self.asset(s0))),
                read: self is Create || self is ForceSeed,
            }
        } else {
            Allowed::nothing()
        }
    }

    /// The escrow of the launch that this action is about.
    pub open spec fn escrow(self, s0: Store) -> Option<AccountId> {
        match self {
            Action::Create { .. } => Some(derived(s0.constants.pallet_id, s0.next_launch_id)),
            Action::SetParams { .. } => None,
            Action::SetCreationPaused { .. } => None,
            _ => Some(s0.launches[self.target(s0)->0].escrow),
        }
    }

    /// The token of the launch that this action is about.
    pub open spec fn asset(self, s0: Store) -> AssetId {
        match self {
            Action::Create { r, .. } => asset_chosen(s0, r.check.scan),
            _ => s0.launches[self.target(s0)->0].asset_id,
        }
    }

    /// The accounts that this action spends from besides an escrow: the
    /// caller's own, and the launch's commitment and lock accounts.
    pub open spec fn spenders(self, s0: Store) -> Set<AccountId> {
        let c = s0.constants;
        match self {
            Action::Create { a, .. } => set![a.creator],
            Action::Buy { a, .. } => set![a.who],
            Action::Sell { who, .. } => set![who],
            Action::Disburse { id, .. } => set![derived(c.commit_pallet_id, id)],
            Action::DoDisburse { id, .. } => set![derived(c.commit_pallet_id, id)],
            Action::ClaimLocked { id, .. } => set![derived(c.lock_pallet_id, id)],
            _ => Set::empty(),
        }
    }
}

proof fn lemma_fee_paid(
    run: Run,
    c: Constants,
    launch: Launch,
    protocol: u128,
    treasury: u128,
    r: FeeReplies,
    base: Seq<Call>,
    e: AccountId,
    allowed: Allowed,
)
    requires
        paid_only(run.log, base, e, allowed),
        e == launch.escrow ==> {
            &&& allowed.payees.contains(c.treasury)
            &&& sink_of(r).subset_of(allowed.payees)
        },
    ensures
        paid_only(fee_run(run, c, launch, protocol, treasury, r).log, base, e, allowed),
{
    broadcast use group_paid;

    if r.sink is Some {
        assert(sink_of(r).contains(r.sink->0));
    }
}

proof fn lemma_seed_paid(
    run: Run,
    c: Constants,
    launch: Launch,
    state: CurveState,
    id: LaunchId,
    nested: bool,
    r: SeedReplies,
    base: Seq<Call>,
    e: AccountId,
    allowed: Allowed,
)
    requires
        paid_only(run.log, base, e, allowed),
        e == launch.escrow ==> allowed.pool == Some(AssetKind::WithId(launch.asset_id)),
    ensures
        paid_only(seed_run(run, c, launch, state, id, nested, r).log, base, e, allowed),
{
    broadcast use group_paid;

}

proof fn lemma_buy_paid(
    run: Run,
    s: Store,
    a: BuyArgs,
    r: BuyReplies,
    base: Seq<Call>,
    e: AccountId,
    allowed: Allowed,
)
    requires
        paid_only(run.log, base, e, allowed),
        e != a.who,
        e == s.launches[a.launch_id].escrow ==> {
            &&& allowed.pool == Some(AssetKind::WithId(s.launches[a.launch_id].asset_id))
            &&& allowed.payees.contains(s.constants.treasury)
            &&& allowed.payees.contains(a.who)
            &&& sink_of(r.pay.fees).subset_of(allowed.payees)
        },
    ensures
        paid_only(buy_run(run, s, a, r).log, base, e, allowed),
{
    broadcast use group_paid;

    let launch = s.launches[a.launch_id];
    let q = buy_quoted(s, a, r);
    let open = open_run(run, s, a, r.open);
    assert(paid_only(open.log, base, e, allowed));
    let (protocol, treasury, creator) = fee_parts(
        q.fee,
        launch.curve.protocol_share_bps,
        launch.curve.treasury_share_bps,
    );
    let funded = open.call(
        Call::Transfer {
            from: a.who,
            to: launch.escrow,
            amount: q.quote_used,
            keep: Preservation::Preserve,
            reply: r.pay.funded,
        },
    );
    assert(paid_only(funded.log, base, e, allowed));
    lemma_fee_paid(funded, s.constants, launch, protocol, treasury, r.pay.fees, base, e, allowed);
    let paid = pay_run(open, s.constants, launch, a.who, q, r.pay);
    assert(paid_only(paid.log, base, e, allowed));
    let traded = deliver_run(paid, launch, s.curves[a.launch_id], a, q, r.delivered);
    assert(paid_only(traded.log, base, e, allowed));
    assert(traded == buy_trade_run(run, s, a, r));
    let state = buy_settled(s, a, r);
    let completed = traded.event(
        Event::CurveCompleted { launch_id: a.launch_id, raised: state.real_quote },
    );
    lemma_seed_paid(
        completed,
        s.constants,
        launch,
        state,
        a.launch_id,
        true,
        r.seed,
        base,
        e,
        allowed,
    );
    assert(paid_only(crossing_run(traded, s, a, r).log, base, e, allowed));
}

proof fn lemma_sell_paid(
    run: Run,
    s: Store,
    who: AccountId,
    id: LaunchId,
    tokens_in: Balance,
    min_quote_out: Balance,
    r: SellReplies,
    base: Seq<Call>,
    e: AccountId,
    allowed: Allowed,
)
    requires
        paid_only(run.log, base, e, allowed),
        e != who,
        e == s.launches[id].escrow ==> {
            &&& allowed.payees.contains(s.constants.treasury)
            &&& allowed.payees.contains(who)
            &&& sink_of(r.fees).subset_of(allowed.payees)
        },
    ensures
        paid_only(sell_run(run, s, who, id, tokens_in, min_quote_out, r).log, base, e, allowed),
{
    broadcast use group_paid;

    let launch = s.launches[id];
    let q = sell_quoted(s, id, tokens_in);
    let (protocol, treasury, creator) = fee_parts(
        q.fee,
        launch.curve.protocol_share_bps,
        launch.curve.treasury_share_bps,
    );
    let open = sell_open_run(run, s, id, tokens_in, min_quote_out);
    assert(paid_only(open.log, base, e, allowed));
    let delivered = open.call(
        Call::AssetTransfer {
            asset: launch.asset_id,
            from: who,
            to: launch.escrow,
            amount: tokens_in,
            keep: Preservation::Expendable,
            reply: r.delivered,
        },
    );
    assert(paid_only(delivered.log, base, e, allowed));
    lemma_fee_paid(delivered, s.constants, launch, protocol, treasury, r.fees, base, e, allowed);
}

proof fn lemma_disburse_paid(
    run: Run,
    s: Store,
    id: LaunchId,
    r: DisburseReplies,
    base: Seq<Call>,
    e: AccountId,
    allowed: Allowed,
)
    requires
        paid_only(run.log, base, e, allowed),
        e != derived(s.constants.commit_pallet_id, id),
        e == s.launches[id].escrow ==> {
            &&& allowed.pool == Some(AssetKind::WithId(s.launches[id].asset_id))
            &&& allowed.payees.contains(s.constants.treasury)
            &&& allowed.payees.contains(derived(s.constants.commit_pallet_id, id))
            &&& sink_of(r.slice.buy.pay.fees).subset_of(allowed.payees)
        },
    ensures
        paid_only(disburse_run(run, s, id, r).log, base, e, allowed),
{
    broadcast use group_paid;

    let claimed = claim_legs_run(run, s, id, r);
    assert(paid_only(claimed.log, base, e, allowed));
    let s1 = leg_taken(s, id);
    let sized = slice_size_run(claimed, s1, id, r.slice);
    assert(paid_only(sized.log, base, e, allowed));
    let commit = derived(s.constants.commit_pallet_id, id);
    let size = slice_size(s1.constants, venue_quote(s1, id, r.slice.pool), r.pending);
    let measured = sized.call(Call::CurrencyBalance { who: commit, reply: r.slice.before });
    assert(paid_only(measured.log, base, e, allowed));
    lemma_buy_paid(
        measured,
        s1,
        slice_buy(s1.constants, id, size),
        r.slice.buy,
        base,
        e,
        allowed,
    );
    let traded = slice_trade_run(measured, s1, id, size, r.slice);
    assert(paid_only(traded.log, base, e, allowed));
    assert(paid_only(slice_run(claimed, s1, id, r.pending, r.slice).log, base, e, allowed));
}

proof fn lemma_scan_paid(
    run: Run,
    s: Store,
    k: nat,
    replies: Seq<bool>,
    base: Seq<Call>,
    e: AccountId,
    allowed: Allowed,
)
    requires
        paid_only(run.log, base, e, allowed),
    ensures
        paid_only(scan_run(run, s, k, replies).log, base, e, allowed),
    decreases MAX_ASSET_ID_SCAN - k,
{
    broadcast use group_paid;

    if run.ok() && k < MAX_ASSET_ID_SCAN {
        let a = asset_tried(s, k);
        let asked = run.call(Call::AssetExists { asset: a, reply: replies[k as int] });
        if !asset_free(s, a, replies[k as int]) {
            lemma_scan_paid(asked, s, k + 1, replies, base, e, allowed);
        }
    }
}

proof fn lemma_create_paid(
    run: Run,
    s: Store,
    a: CreateArgs,
    r: CreateReplies,
    base: Seq<Call>,
    e: AccountId,
    allowed: Allowed,
)
    requires
        paid_only(run.log, base, e, allowed),
        e != a.creator,
        e == derived(s.constants.pallet_id, s.next_launch_id) ==> {
            &&& allowed.read
            &&& allowed.pool == Some(AssetKind::WithId(asset_chosen(s, r.check.scan)))
            &&& allowed.payees.contains(s.constants.treasury)
            &&& allowed.payees.contains(a.creator)
            &&& sink_of(r.buy.pay.fees).subset_of(allowed.payees)
        },
    ensures
        paid_only(create_run(run, s, a, r).log, base, e, allowed),
{
    broadcast use group_paid;

    let asset = asset_chosen(s, r.check.scan);
    let ready = run.ensure(!s.creation_paused, Error::CreationPaused).ensure(
        a.name.len() > 0 && a.symbol.len() > 0,
        Error::InvalidMetadata,
    ).stop(
        match commitments_error(
            s.constants,
            a.commitments,
            a.initial_buy != 0,
        ) {
            Some(e) => Some(DispatchError::Module(e)),
            None => None,
        },
    );
    assert(paid_only(ready.log, base, e, allowed));
    lemma_scan_paid(ready, s, 0, r.check.scan, base, e, allowed);
    let checked = check_run(run, s, a, r.check);
    assert(paid_only(checked.log, base, e, allowed));
    let minted = mint_run(checked, s, asset, a.creator, a.name, a.symbol, r.mint);
    assert(paid_only(minted.log, base, e, allowed));
    let funded = fund_run(
        minted,
        s.constants,
        s.next_launch_id,
        a.creator,
        a.commitments,
        r.fund,
    );
    assert(paid_only(funded.log, base, e, allowed));
    let launched = announce_run(funded, s, a, asset);
    assert(launched == launch_run(run, s, a, r));
    assert(paid_only(launched.log, base, e, allowed));
    let s1 = launch_store(s, a, r);
    let written = launched.call(launch_written(s1, launch_created(s, a, r), s.next_launch_id));
    assert(paid_only(written.log, base, e, allowed));
    lemma_buy_paid(written, s1, first_buy(s, a), r.buy, base, e, allowed);
}

/// No call moves an escrow's funds anywhere else: quote and tokens leave an
/// escrow only to the trader, the treasury and the fee vault in a trade, to the
/// fee recipient in a claim, to the commitment account in a disbursement, to
/// the treasury in a rescue, and into the launch's pool. Nothing is ever burned
/// or swapped out of it. And what is in it is never read back for a price:
/// whatever is sent to it unasked changes nothing. Nothing at all is done with
/// the escrow of another launch, nor with any other account that the call does
/// not spend from.
#[verifier::rlimit(40)]
pub proof fn law_escrow_pays_nobody_else(
    x: Action,
    s0: Store,
    log0: Seq<Call>,
    s1: Store,
    log1: Seq<Call>,
    e: AccountId,
)
    requires
        x.done(s0, log0, s1, log1),
        !x.spenders(s0).contains(e),
    ensures
        paid_only(log1, log0, e, x.allowed(s0, e)),
{
    broadcast use group_paid;

    let base = log0;
    let run = Run::from(log0);
    let allowed = x.allowed(s0, e);
    assert(paid_only(run.log, base, e, allowed));
    match x {
        Action::Create { a, r } => {
            assert(x.spenders(s0).contains(a.creator));
            lemma_create_paid(run, s0, a, r, base, e, allowed);
        },
        Action::Buy { a, r } => {
            assert(x.spenders(s0).contains(a.who));
            lemma_buy_paid(run, s0, a, r, base, e, allowed);
        },
        Action::Sell { who, id, tokens_in, min_quote_out, r } => {
            assert(x.spenders(s0).contains(who));
            lemma_sell_paid(run, s0, who, id, tokens_in, min_quote_out, r, base, e, allowed);
        },
        Action::Graduate { id, r } => {
            let open = run.ensure(s0.has(id), Error::LaunchNotFound).ensure(
                s0.curves[id].phase == Phase::Complete,
                Error::WrongPhase,
            );
            lemma_seed_paid(
                open,
                s0.constants,
                s0.launches[id],
                s0.curves[id],
                id,
                false,
                r,
                base,
                e,
                allowed,
            );
        },
        Action::ClaimCreatorFees { who, id, paid } => {
            assert(paid_only(claim_run(run, s0, who, id, paid).log, base, e, allowed));
        },
        Action::SetCreatorFeeRecipient { who, id, new } => {
            assert(paid_only(recipient_run(run, s0, who, id, new).log, base, e, allowed));
        },
        Action::SetLaunchMetadata { who, id, metadata } => {
            assert(paid_only(metadata_run(run, s0, who, id).log, base, e, allowed));
        },
        Action::Disburse { id, r } => {
            assert(x.spenders(s0).contains(derived(s0.constants.commit_pallet_id, id)));
            lemma_disburse_paid(run, s0, id, r.inner, base, e, allowed);
            assert(paid_only(disburse_call_run(run, s0, id, r).log, base, e, allowed));
        },
        Action::DoDisburse { id, r } => {
            assert(x.spenders(s0).contains(derived(s0.constants.commit_pallet_id, id)));
            lemma_disburse_paid(run, s0, id, r, base, e, allowed);
        },
        Action::ClaimLocked { who, id, r } => {
            assert(x.spenders(s0).contains(derived(s0.constants.lock_pallet_id, id)));
            assert(paid_only(release_run(run, s0, who, id, r).log, base, e, allowed));
        },
        Action::SetParams { origin, new, allowed: answer } => {
            assert(paid_only(
                set_params_run(run, s0.constants, origin, new, answer).log,
                base,
                e,
                allowed,
            ));
        },
        Action::SetCreationPaused { origin, paused, allowed: answer } => {
            assert(paid_only(set_paused_run(run, origin, paused, answer).log, base, e, allowed));
        },
        Action::ForceSeed { origin, id, deviation_bps, r } => {
            let launch = s0.launches[id];
            let quote = s0.curves[id].real_quote;
            let due = rescue_due_run(run, s0, origin, id, deviation_bps, r.due);
            assert(paid_only(due.log, base, e, allowed));
            let deposited = deposit_run(
                due,
                s0.constants,
                launch,
                quote,
                deviation_bps,
                r.deposit,
            );
            assert(paid_only(deposited.log, base, e, allowed));
            let swept = sweep_run(
                deposited,
                s0.constants,
                launch,
                sat_sub(quote, r.deposit.quote_spent()),
                sat_sub(reserved_tokens(s0.constants), r.deposit.tokens_spent()),
                r.quote_swept,
                r.tokens_swept,
            );
            assert(paid_only(swept.log, base, e, allowed));
            assert(paid_only(
                rescue_run(run, s0, origin, id, deviation_bps, r).log,
                base,
                e,
                allowed,
            ));
        },
    }
}

/// An account with which nothing is done loses nothing.
proof fn lemma_untouched_loses_nothing(
    log: Seq<Call>,
    base: Seq<Call>,
    w: AccountId,
    asset: AssetId,
)
    requires
        paid_only(log, base, w, Allowed::nothing()),
    ensures
        quote_flow(log, w) >= quote_flow(base, w),
        token_flow(log, asset, w) >= token_flow(base, asset, w),
    decreases log.len(),
{
    if log.len() == base.len() {
        assert(log =~= base);
    } else {
        let before = log.drop_last();
        assert(paid_only(before, base, w, Allowed::nothing())) by {
            assert forall|i: int| 0 <= i < before.len() implies #[trigger] before[i] == log[i] by {
            }
        }
        lemma_untouched_loses_nothing(before, base, w, asset);
        assert(pays_only(log[log.len() - 1], w, Allowed::nothing()));
    }
}

/// No call takes quote or tokens from an account but the caller's own, the
/// launch's commitment and lock accounts where it spends from these, and the
/// escrow of the one launch that it is about.
pub proof fn law_no_other_account_loses_anything(
    x: Action,
    s0: Store,
    log0: Seq<Call>,
    s1: Store,
    log1: Seq<Call>,
    w: AccountId,
    asset: AssetId,
)
    requires
        x.done(s0, log0, s1, log1),
        !x.spenders(s0).contains(w),
        x.escrow(s0) != Some(w),
    ensures
        quote_flow(log1, w) >= quote_flow(log0, w),
        token_flow(log1, asset, w) >= token_flow(log0, asset, w),
{
    law_escrow_pays_nobody_else(x, s0, log0, s1, log1, w);
    lemma_untouched_loses_nothing(log1, log0, w, asset);
}

} // verus!
