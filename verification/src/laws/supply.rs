//! Laws on the supply of a launch token.
use crate::{MAX_ASSET_ID_SCAN, TOKEN_DECIMALS};
use crate::accounts::derived;
use crate::config::{Call, Run};
use crate::event::Event;
use crate::laws::action::Action;
use crate::laws::creation::lemma_scan;
use crate::pallet::Store;
use crate::pallet::commitments::{claim_run, metadata_run, recipient_run, release_run};
use crate::pallet::create::{
    announce_run, asset_chosen, asset_free, asset_tried, check_run, create_run, first_buy, fund_run,
    launch_created, launch_run, launch_store, launch_written, mint_run, scan_run, CreateArgs,
    CreateReplies,
};
use crate::pallet::disburse::{
    claim_legs_run, disburse_call_run, disburse_run, leg_taken, slice_buy, slice_run, slice_size,
    slice_size_run, slice_trade_run, venue_quote, DisburseReplies,
};
use crate::pallet::govern::{
    deposit_run, rescue_due_run, rescue_run, set_params_run, set_paused_run, sweep_run,
};
use crate::pallet::terms::{commitments_error, reserved_tokens};
use crate::pallet::trade::{
    buy_quoted, buy_run, buy_trade_run, crossing_run, deliver_run, do_seed_run, open_run, pay_run,
    sell_open_run, sell_run, BuyArgs, BuyReplies,
};
use crate::types::{sat_sub, AccountId, AssetId, DispatchError, Error, LaunchId, Preservation};
use vstd::prelude::*;

verus! {

/// A call leaves every supply as it is, but for burning of one token out of one
/// account where that is allowed.
pub open spec fn keeps_supply(c: Call, burns: Option<(AssetId, AccountId)>) -> bool {
    match c {
        Call::AssetMint { .. } => false,
        Call::AssetBurn { asset, who, .. } => burns == Some((asset, who)),
        _ => true,
    }
}

/// No call that `log` holds beyond `base` does anything else to a supply.
pub open spec fn supply_kept(
    log: Seq<Call>,
    base: Seq<Call>,
    burns: Option<(AssetId, AccountId)>,
) -> bool {
    &&& base.len() <= log.len()
    &&& forall|i: int| 0 <= i < base.len() ==> #[trigger] log[i] == base[i]
    &&& forall|i: int| base.len() <= i < log.len() ==> keeps_supply(#[trigger] log[i], burns)
}

/// Of the calls that `log` holds beyond `base` this one was made exactly once,
/// and no other mints or burns.
pub open spec fn minted_once(log: Seq<Call>, base: Seq<Call>, mint: Call) -> bool {
    &&& base.len() <= log.len()
    &&& forall|i: int| 0 <= i < base.len() ==> #[trigger] log[i] == base[i]
    &&& exists|n: int| #[trigger]
        is_only_mint(log, base, mint, n)
}

/// The call at `n` is this one, and none of the others beyond `base` mints or burns.
pub open spec fn is_only_mint(log: Seq<Call>, base: Seq<Call>, mint: Call, n: int) -> bool {
    &&& base.len() <= n < log.len()
    &&& log[n] == mint
    &&& forall|i: int|
        base.len() <= i < log.len() && i != n ==> keeps_supply(#[trigger] log[i], None)
}

/// The mint of a creation: all of the supply, into the new launch's escrow.
pub open spec fn supply_mint(s: Store, r: CreateReplies) -> Call {
    Call::AssetMint {
        asset: asset_chosen(s, r.check.scan),
        who: derived(s.constants.pallet_id, s.next_launch_id),
        amount: s.constants.total_supply,
        reply: r.mint.minted,
    }
}

broadcast proof fn lemma_kept_call(
    run: Run,
    c: Call,
    base: Seq<Call>,
    burns: Option<(AssetId, AccountId)>,
)
    requires
        supply_kept(run.log, base, burns),
        run.ok() ==> keeps_supply(c, burns),
    ensures
        #[trigger] supply_kept(run.call(c).log, base, burns),
{
}

broadcast proof fn lemma_kept_call_if(
    run: Run,
    due: bool,
    c: Call,
    base: Seq<Call>,
    burns: Option<(AssetId, AccountId)>,
)
    requires
        supply_kept(run.log, base, burns),
        run.ok() && due ==> keeps_supply(c, burns),
    ensures
        #[trigger] supply_kept(run.call_if(due, c).log, base, burns),
{
}

broadcast proof fn lemma_kept_event(
    run: Run,
    event: Event,
    base: Seq<Call>,
    burns: Option<(AssetId, AccountId)>,
)
    requires
        supply_kept(run.log, base, burns),
    ensures
        #[trigger] supply_kept(run.event(event).log, base, burns),
{
}

broadcast proof fn lemma_kept_ensure(
    run: Run,
    cond: bool,
    error: Error,
    base: Seq<Call>,
    burns: Option<(AssetId, AccountId)>,
)
    requires
        supply_kept(run.log, base, burns),
    ensures
        #[trigger] supply_kept(run.ensure(cond, error).log, base, burns),
{
}

broadcast proof fn lemma_kept_stop(
    run: Run,
    error: Option<DispatchError>,
    base: Seq<Call>,
    burns: Option<(AssetId, AccountId)>,
)
    requires
        supply_kept(run.log, base, burns),
    ensures
        #[trigger] supply_kept(run.stop(error).log, base, burns),
{
}

broadcast group group_kept {
    lemma_kept_call,
    lemma_kept_call_if,
    lemma_kept_event,
    lemma_kept_ensure,
    lemma_kept_stop,
}

proof fn lemma_buy_kept(
    run: Run,
    s: Store,
    a: BuyArgs,
    r: BuyReplies,
    base: Seq<Call>,
    burns: Option<(AssetId, AccountId)>,
)
    requires
        supply_kept(run.log, base, burns),
    ensures
        supply_kept(buy_run(run, s, a, r).log, base, burns),
{
    broadcast use group_kept;

    let launch = s.launches[a.launch_id];
    let q = buy_quoted(s, a, r);
    let open = open_run(run, s, a, r.open);
    assert(supply_kept(open.log, base, burns));
    let paid = pay_run(open, s.constants, launch, a.who, q, r.pay);
    assert(supply_kept(paid.log, base, burns));
    let traded = deliver_run(paid, launch, s.curves[a.launch_id], a, q, r.delivered);
    assert(supply_kept(traded.log, base, burns));
    assert(traded == buy_trade_run(run, s, a, r));
    assert(supply_kept(crossing_run(traded, s, a, r).log, base, burns));
}

proof fn lemma_disburse_kept(
    run: Run,
    s: Store,
    id: LaunchId,
    r: DisburseReplies,
    base: Seq<Call>,
    burns: Option<(AssetId, AccountId)>,
)
    requires
        supply_kept(run.log, base, burns),
        burns == Some((s.launches[id].asset_id, derived(s.constants.commit_pallet_id, id))),
    ensures
        supply_kept(disburse_run(run, s, id, r).log, base, burns),
{
    broadcast use group_kept;

    let claimed = claim_legs_run(run, s, id, r);
    assert(supply_kept(claimed.log, base, burns));
    let s1 = leg_taken(s, id);
    let sized = slice_size_run(claimed, s1, id, r.slice);
    assert(supply_kept(sized.log, base, burns));
    let commit = derived(s.constants.commit_pallet_id, id);
    let size = slice_size(s1.constants, venue_quote(s1, id, r.slice.pool), r.pending);
    let measured = sized.call(Call::CurrencyBalance { who: commit, reply: r.slice.before });
    assert(supply_kept(measured.log, base, burns));
    lemma_buy_kept(measured, s1, slice_buy(s1.constants, id, size), r.slice.buy, base, burns);
    let traded = slice_trade_run(measured, s1, id, size, r.slice);
    assert(supply_kept(traded.log, base, burns));
    assert(supply_kept(slice_run(claimed, s1, id, r.pending, r.slice).log, base, burns));
}

proof fn lemma_scan_kept(run: Run, s: Store, k: nat, replies: Seq<bool>, base: Seq<Call>)
    requires
        supply_kept(run.log, base, None),
    ensures
        supply_kept(scan_run(run, s, k, replies).log, base, None),
    decreases MAX_ASSET_ID_SCAN - k,
{
    broadcast use group_kept;

    if run.ok() && k < MAX_ASSET_ID_SCAN {
        let a = asset_tried(s, k);
        let asked = run.call(Call::AssetExists { asset: a, reply: replies[k as int] });
        if !asset_free(s, a, replies[k as int]) {
            lemma_scan_kept(asked, s, k + 1, replies, base);
        }
    }
}

/// A creation that gets as far as the mint makes it once; one that does not
/// makes none.
proof fn lemma_create_mints_once(run: Run, s: Store, a: CreateArgs, r: CreateReplies)
    requires
        run.ok(),
    ensures
        ({
            let log = create_run(run, s, a, r).log;
            let mint = supply_mint(s, r);
            &&& supply_kept(log, run.log, None) || minted_once(log, run.log, mint)
            &&& minted_once(log, run.log, mint) ==> !s.asset_to_launch.contains_key(
                asset_chosen(s, r.check.scan),
            )
            &&& create_run(run, s, a, r).ok() ==> minted_once(log, run.log, mint)
                && r.mint.minted is Ok
        }),
{
    broadcast use group_kept;

    let base = run.log;
    let asset = asset_chosen(s, r.check.scan);
    let escrow = derived(s.constants.pallet_id, s.next_launch_id);
    assert(supply_kept(run.log, base, None));
    let ready = run.ensure(!s.creation_paused, Error::CreationPaused).ensure(
        a.name.len() > 0 && a.symbol.len() > 0,
        Error::InvalidMetadata,
    ).stop(
        match commitments_error(s.constants, a.commitments, a.initial_buy != 0) {
            Some(e) => Some(DispatchError::Module(e)),
            None => None,
        },
    );
    assert(supply_kept(ready.log, base, None));
    lemma_scan_kept(ready, s, 0, r.check.scan, base);
    let checked = check_run(run, s, a, r.check);
    assert(supply_kept(checked.log, base, None));
    let described = checked.call(
        Call::Transfer {
            from: a.creator,
            to: escrow,
            amount: s.live_params().creation_fee,
            keep: Preservation::Preserve,
            reply: r.mint.fee_paid,
        },
    ).call(
        Call::AssetCreate {
            asset,
            admin: escrow,
            is_sufficient: false,
            min_balance: 1,
            reply: r.mint.created,
        },
    ).call(
        Call::AssetSetMetadata {
            asset,
            who: escrow,
            name: a.name,
            symbol: a.symbol,
            decimals: TOKEN_DECIMALS,
            reply: r.mint.described,
        },
    );
    assert(supply_kept(described.log, base, None));
    // Everything that follows the mint, on top of it.
    let mint = supply_mint(s, r);
    let minted = described.call(mint);
    let top = minted.log;
    assert(supply_kept(minted.log, top, None));
    let made = mint_run(checked, s, asset, a.creator, a.name, a.symbol, r.mint);
    assert(supply_kept(made.log, top, None));
    let funded = fund_run(
        made,
        s.constants,
        s.next_launch_id,
        a.creator,
        a.commitments,
        r.fund,
    );
    assert(supply_kept(funded.log, top, None));
    let launched = announce_run(funded, s, a, asset);
    assert(launched == launch_run(run, s, a, r));
    assert(supply_kept(launched.log, top, None));
    let s1 = launch_store(s, a, r);
    let written = launched.call(launch_written(s1, launch_created(s, a, r), s.next_launch_id));
    assert(supply_kept(written.log, top, None));
    lemma_buy_kept(written, s1, first_buy(s, a), r.buy, top, None);
    let done = create_run(run, s, a, r);
    assert(supply_kept(done.log, top, None));
    if described.ok() {
        let n = described.log.len() as int;
        assert(done.log[n] == top[n]);
        assert(is_only_mint(done.log, base, mint, n)) by {
            assert forall|i: int| base.len() <= i < done.log.len() && i != n implies keeps_supply(
                #[trigger] done.log[i],
                None,
            ) by {
                if i < n {
                    assert(done.log[i] == top[i]);
                    assert(top[i] == described.log[i]);
                }
            }
        }
        assert(minted_once(done.log, base, mint)) by {
            assert forall|i: int| 0 <= i < base.len() implies #[trigger] done.log[i]
                == base[i] by {
                assert(done.log[i] == top[i]);
                assert(top[i] == described.log[i]);
            }
        }
        lemma_scan(ready, s, 0, r.check.scan);
    } else {
        assert(top == described.log);
        assert(!done.ok());
        assert(supply_kept(done.log, base, None)) by {
            assert forall|i: int| 0 <= i < top.len() implies #[trigger] done.log[i] == top[i] by {
            }
        }
        if minted_once(done.log, base, mint) {
            let n = choose|n: int| is_only_mint(done.log, base, mint, n);
            assert(keeps_supply(done.log[n], None));
        }
    }
}

/// A launch token's supply is fixed. Only a creation mints, once, all of the
/// supply, into the new launch's escrow, and a token that is no launch's yet; no
/// other call mints anything. Only a disbursement burns, and only the launch's own
/// token out of its commitment account.
#[verifier::rlimit(40)]
pub proof fn law_supply_is_fixed(
    x: Action,
    s0: Store,
    log0: Seq<Call>,
    s1: Store,
    log1: Seq<Call>,
)
    requires
        x.done(s0, log0, s1, log1),
    ensures
        match x {
            Action::Create { a, r } => {
                let mint = supply_mint(s0, r);
                &&& supply_kept(log1, log0, None) || minted_once(log1, log0, mint)
                &&& minted_once(log1, log0, mint) ==> !s0.asset_to_launch.contains_key(
                    asset_chosen(s0, r.check.scan),
                )
                &&& create_run(Run::from(log0), s0, a, r).ok() ==> minted_once(log1, log0, mint)
                    && r.mint.minted is Ok
            },
            Action::Disburse { id, .. } => supply_kept(
                log1,
                log0,
                Some((s0.launches[id].asset_id, derived(s0.constants.commit_pallet_id, id))),
            ),
            Action::DoDisburse { id, .. } => supply_kept(
                log1,
                log0,
                Some((s0.launches[id].asset_id, derived(s0.constants.commit_pallet_id, id))),
            ),
            _ => supply_kept(log1, log0, None),
        },
        !(x is Create) ==> forall|i: int|
            log0.len() <= i < log1.len() ==> !(#[trigger] log1[i] is AssetMint),
{
    broadcast use group_kept;

    let base = log0;
    let run = Run::from(log0);
    assert(supply_kept(run.log, base, None));
    match x {
        Action::Create { a, r } => {
            lemma_create_mints_once(run, s0, a, r);
        },
        Action::Buy { a, r } => {
            lemma_buy_kept(run, s0, a, r, base, None);
        },
        Action::Sell { who, id, tokens_in, min_quote_out, r } => {
            let open = sell_open_run(run, s0, id, tokens_in, min_quote_out);
            assert(supply_kept(open.log, base, None));
            assert(supply_kept(
                sell_run(run, s0, who, id, tokens_in, min_quote_out, r).log,
                base,
                None,
            ));
        },
        Action::Graduate { id, r } => {
            assert(supply_kept(do_seed_run(run, s0, id, false, r).log, base, None));
        },
        Action::ClaimCreatorFees { who, id, paid } => {
            assert(supply_kept(claim_run(run, s0, who, id, paid).log, base, None));
        },
        Action::SetCreatorFeeRecipient { who, id, new } => {
            assert(supply_kept(recipient_run(run, s0, who, id, new).log, base, None));
        },
        Action::SetLaunchMetadata { who, id, metadata } => {
            assert(supply_kept(metadata_run(run, s0, who, id).log, base, None));
        },
        Action::Disburse { id, r } => {
            let burns = Some(
                (s0.launches[id].asset_id, derived(s0.constants.commit_pallet_id, id)),
            );
            assert(supply_kept(run.log, base, burns));
            lemma_disburse_kept(run, s0, id, r.inner, base, burns);
            assert(supply_kept(disburse_call_run(run, s0, id, r).log, base, burns));
        },
        Action::DoDisburse { id, r } => {
            let burns = Some(
                (s0.launches[id].asset_id, derived(s0.constants.commit_pallet_id, id)),
            );
            assert(supply_kept(run.log, base, burns));
            lemma_disburse_kept(run, s0, id, r, base, burns);
        },
        Action::ClaimLocked { who, id, r } => {
            assert(supply_kept(release_run(run, s0, who, id, r).log, base, None));
        },
        Action::SetParams { origin, new, allowed } => {
            assert(supply_kept(
                set_params_run(run, s0.constants, origin, new, allowed).log,
                base,
                None,
            ));
        },
        Action::SetCreationPaused { origin, paused, allowed } => {
            assert(supply_kept(set_paused_run(run, origin, paused, allowed).log, base, None));
        },
        Action::ForceSeed { origin, id, deviation_bps, r } => {
            let launch = s0.launches[id];
            let quote = s0.curves[id].real_quote;
            let due = rescue_due_run(run, s0, origin, id, deviation_bps, r.due);
            assert(supply_kept(due.log, base, None));
            let deposited = deposit_run(
                due,
                s0.constants,
                launch,
                quote,
                deviation_bps,
                r.deposit,
            );
            assert(supply_kept(deposited.log, base, None));
            let swept = sweep_run(
                deposited,
                s0.constants,
                launch,
                sat_sub(quote, r.deposit.quote_spent()),
                sat_sub(reserved_tokens(s0.constants), r.deposit.tokens_spent()),
                r.quote_swept,
                r.tokens_swept,
            );
            assert(supply_kept(swept.log, base, None));
            assert(supply_kept(
                rescue_run(run, s0, origin, id, deviation_bps, r).log,
                base,
                None,
            ));
        },
    }
}

} // verus!
