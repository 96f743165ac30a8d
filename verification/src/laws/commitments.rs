//! Laws of what a creator binds.
use crate::accounts::derived;
use crate::config::Run;
use crate::laws::creation::lemma_scan_moves_nothing;
use crate::laws::flow::{group_token_flow, lemma_tokens_call, token_flow};
use crate::laws::passed::{lemma_buy_passed, lemma_create_passed};
use crate::laws::trading::law_buyer_gets_the_minimum;
use crate::pallet::Store;
use crate::pallet::commitments::{
    claim_run, due_at, lock_of, release_run, released_more, ReleaseReplies,
};
use crate::pallet::create::{
    check_run, create_run, create_store, first_buy, fund_run, launch_created, launch_made,
    launch_run, launch_store, launch_written, mint_run, CreateArgs, CreateReplies,
};
use crate::pallet::disburse::{
    disburse_call_run, disburse_run, disburse_store, disburse_value, impact_cap, slice_size,
    DisburseCallReplies, DisburseReplies,
};
use crate::pallet::terms::{commitments_error, lemma_vested_bound, vested_at};
use crate::pallet::trade::{
    buy_price, buy_quoted, buy_run, buy_trade_run, open_run, pay_run, sell_price, BuyArgs,
    BuyReplies,
};
use crate::pallet::views::{fee_recipient_of, venue_reserves};
use crate::records::{CreatorCommitments, Launch, LockSchedule, LockState};
use crate::types::{
    block_sub, AccountId, AssetId, Balance, BlockNumber, DispatchError, Error, LaunchId,
};
use vstd::prelude::*;

verus! {

// ---- vesting -------------------------------------------------------------

/// Nothing of a lock has vested before its cliff, all of it has at its end, and
/// never more than all of it.
pub proof fn law_vesting_stays_within_the_tranche(
    lock: LockState<Balance, BlockNumber>,
    now: BlockNumber,
)
    requires
        lock.cliff_end <= lock.vest_end,
    ensures
        now < lock.cliff_end ==> vested_at(lock, now) == 0,
        now >= lock.vest_end ==> vested_at(lock, now) == lock.total,
        vested_at(lock, now) <= lock.total,
{
    if lock.cliff_end <= now < lock.vest_end {
        lemma_vested_bound(
            lock.total as int,
            now - lock.cliff_end,
            lock.vest_end - lock.cliff_end,
        );
    }
}

/// What has vested stays vested.
pub proof fn law_vesting_never_goes_back(
    lock: LockState<Balance, BlockNumber>,
    earlier: BlockNumber,
    later: BlockNumber,
)
    requires
        lock.cliff_end <= lock.vest_end,
        earlier <= later,
    ensures
        vested_at(lock, earlier) <= vested_at(lock, later),
{
    law_vesting_stays_within_the_tranche(lock, earlier);
    law_vesting_stays_within_the_tranche(lock, later);
    if lock.cliff_end <= earlier && later < lock.vest_end {
        let total = lock.total as int;
        let a = earlier - lock.cliff_end;
        let b = later - lock.cliff_end;
        let span = lock.vest_end - lock.cliff_end;
        assert(total * a <= total * b) by (nonlinear_arith)
            requires
                total >= 0,
                a <= b,
        ;
        lemma_vested_bound(total, a, span);
        lemma_vested_bound(total, b, span);
        vstd::arithmetic::div_mod::lemma_div_is_ordered(total * a, total * b, span);
    }
}

/// A new lock vests nothing for the length of its cliff, and its schedule runs
/// in order.
pub proof fn law_new_lock_starts_closed(
    amount: Balance,
    schedule: LockSchedule<BlockNumber>,
    created: BlockNumber,
    now: BlockNumber,
)
    requires
        created <= now,
        now - created < schedule.cliff,
        created + schedule.cliff <= u32::MAX,
    ensures
        vested_at(lock_of(amount, schedule, created), now) == 0,
        lock_of(amount, schedule, created).cliff_end <= lock_of(amount, schedule, created).vest_end,
{
}

/// What a release takes out of the lock account is exactly what the records say
/// was released more, and the creator gets it: the account keeps `total -
/// released`.
pub proof fn law_release_tracks_the_lock_account(
    run: Run,
    s: Store,
    who: AccountId,
    id: LaunchId,
    r: ReleaseReplies,
)
    requires
        release_run(run, s, who, id, r).ok(),
        s.locks[id].released <= s.locks[id].total,
        s.locks[id].cliff_end <= s.locks[id].vest_end,
        who != derived(s.constants.lock_pallet_id, id),
    ensures
        ({
            let lock = s.locks[id];
            let next = released_more(lock, due_at(lock, r.now));
            let account = derived(s.constants.lock_pallet_id, id);
            let asset = s.launches[id].asset_id;
            let log = release_run(run, s, who, id, r).log;
            &&& token_flow(log, asset, account) - token_flow(run.log, asset, account) == (next.total
                - next.released) - (lock.total - lock.released)
            &&& token_flow(log, asset, who) - token_flow(run.log, asset, who) == next.released
                - lock.released
            &&& who == s.launches[id].creator
            &&& lock.released < next.released <= vested_at(lock, r.now) <= lock.total
        }),
{
    broadcast use group_token_flow;

    law_vesting_stays_within_the_tranche(s.locks[id], r.now);
}

// ---- binding -------------------------------------------------------------

/// A committed fee stream is never paid to a person: the claim is refused
/// before anything is asked, and the pool's stream resolves to the commitment
/// account.
pub proof fn law_committed_fees_reach_no_person(
    run: Run,
    s: Store,
    who: AccountId,
    id: LaunchId,
    paid: Result<(), DispatchError>,
)
    requires
        run.ok(),
        s.launches.contains_key(id),
        s.launches[id].commitments.burns(),
    ensures
        !claim_run(run, s, who, id, paid).ok(),
        claim_run(run, s, who, id, paid).log == run.log,
        s.asset_to_launch.contains_key(s.launches[id].asset_id) && s.asset_to_launch[s.launches[id].asset_id]
            == id ==> fee_recipient_of(s, s.launches[id].asset_id) == Some(
            derived(s.constants.commit_pallet_id, id),
        ),
{
}

/// Commitments touch nothing the protocol owns: whatever a creator commits to,
/// the launch gets the same terms, the same hash, the same asset and the same
/// escrow, and it is priced alike.
pub proof fn law_commitments_touch_no_term(
    s: Store,
    a: CreateArgs,
    other: CreatorCommitments<BlockNumber>,
    asset: AssetId,
    now: BlockNumber,
)
    ensures
        ({
            let b = CreateArgs { commitments: other, ..a };
            launch_made(s, b, asset, now) == (Launch {
                commitments: other,
                ..launch_made(s, a, asset, now)
            })
        }),
{
}

/// The price of a trade does not depend on the commitments of a launch.
pub proof fn law_commitments_never_change_a_price(
    s: Store,
    id: LaunchId,
    other: CreatorCommitments<BlockNumber>,
    quote_in: Balance,
    tokens_in: Balance,
)
    requires
        s.launches.contains_key(id),
    ensures
        ({
            let t = Store {
                launches: s.launches.insert(id, Launch { commitments: other, ..s.launches[id] }),
                ..s
            };
            &&& buy_price(t, id, quote_in) == buy_price(s, id, quote_in)
            &&& sell_price(t, id, tokens_in) == sell_price(s, id, tokens_in)
            &&& venue_reserves(t, id) == venue_reserves(s, id)
        }),
{
}

/// The tokens of the first buy of a launch with a lock are all in the lock
/// account when the creation ends: the records and the account agree, and the
/// creator holds none of them.
#[verifier::rlimit(40)]
pub proof fn law_lock_takes_the_whole_first_buy(run: Run, s: Store, a: CreateArgs, r: CreateReplies)
    requires
        create_run(run, s, a, r).ok(),
        a.commitments.lock is Some,
        a.creator != derived(s.constants.lock_pallet_id, s.next_launch_id),
        a.creator != launch_created(s, a, r).escrow,
        a.creator != s.constants.treasury,
        r.buy.pay.fees.sink != Some(a.creator),
        launch_created(s, a, r).escrow != derived(s.constants.lock_pallet_id, s.next_launch_id),
    ensures
        ({
            let id = s.next_launch_id;
            let asset = launch_created(s, a, r).asset_id;
            let log = create_run(run, s, a, r).log;
            let lock = create_store(s, a, r).locks[id];
            &&& create_store(s, a, r).locks.contains_key(id)
            &&& lock.total == buy_quoted(launch_store(s, a, r), first_buy(s, a), r.buy).tokens_out
            &&& lock.released == 0
            &&& token_flow(log, asset, derived(s.constants.lock_pallet_id, id)) - token_flow(
                run.log,
                asset,
                derived(s.constants.lock_pallet_id, id),
            ) == lock.total
            &&& token_flow(log, asset, a.creator) == token_flow(run.log, asset, a.creator)
        }),
{
    lemma_create_passed(run, s, a, r);
    let id = s.next_launch_id;
    let lock = derived(s.constants.lock_pallet_id, id);
    let s1 = launch_store(s, a, r);
    let buy = first_buy(s, a);
    let asset = launch_created(s, a, r).asset_id;
    let launched = launch_run(run, s, a, r);
    lemma_launch_moves_no_tokens(run, s, a, r, asset, a.creator);
    lemma_launch_moves_no_tokens(run, s, a, r, asset, lock);
    let handed = launch_written(s1, launch_created(s, a, r), id);
    let written = launched.call(handed);
    lemma_tokens_call(launched, handed, asset, a.creator);
    lemma_tokens_call(launched, handed, asset, lock);
    lemma_buy_passed(written, s1, buy, r.buy);
    law_buyer_gets_the_minimum(written, s1, buy, r.buy);
    lemma_buy_moves_no_tokens(written, s1, buy, r.buy, asset, lock);
    broadcast use group_token_flow;

}

/// A buy moves tokens only between the escrow and the buyer.
proof fn lemma_buy_moves_no_tokens(
    run: Run,
    s: Store,
    a: BuyArgs,
    r: BuyReplies,
    asset: AssetId,
    w: AccountId,
)
    requires
        w != a.who,
        w != s.launches[a.launch_id].escrow,
    ensures
        token_flow(buy_run(run, s, a, r).log, asset, w) == token_flow(run.log, asset, w),
{
    broadcast use group_token_flow;

    let launch = s.launches[a.launch_id];
    let q = buy_quoted(s, a, r);
    let open = open_run(run, s, a, r.open);
    assert(token_flow(open.log, asset, w) == token_flow(run.log, asset, w));
    let paid = pay_run(open, s.constants, launch, a.who, q, r.pay);
    assert(token_flow(paid.log, asset, w) == token_flow(run.log, asset, w));
    let traded = buy_trade_run(run, s, a, r);
    assert(token_flow(traded.log, asset, w) == token_flow(run.log, asset, w));
}

/// A creation moves tokens only into the escrow before its first buy.
proof fn lemma_launch_moves_no_tokens(
    run: Run,
    s: Store,
    a: CreateArgs,
    r: CreateReplies,
    asset: AssetId,
    w: AccountId,
)
    requires
        w != launch_created(s, a, r).escrow,
    ensures
        token_flow(launch_run(run, s, a, r).log, asset, w) == token_flow(run.log, asset, w),
{
    broadcast use group_token_flow;

    let chosen = launch_created(s, a, r).asset_id;
    let ready = run.ensure(!s.creation_paused, Error::CreationPaused).ensure(
        a.name.len() > 0 && a.symbol.len() > 0,
        Error::InvalidMetadata,
    ).stop(
        match commitments_error(
            s.constants,
            a.commitments,
            a.initial_buy != 0,
        ) {
            Some(e) => Some(DispatchError::Module(e)),
            None => None,
        },
    );
    lemma_scan_moves_nothing(ready, s, 0, r.check.scan, asset, w);
    let checked = check_run(run, s, a, r.check);
    assert(token_flow(checked.log, asset, w) == token_flow(run.log, asset, w));
    let minted = mint_run(checked, s, chosen, a.creator, a.name, a.symbol, r.mint);
    assert(token_flow(minted.log, asset, w) == token_flow(run.log, asset, w));
    let funded = fund_run(
        minted,
        s.constants,
        s.next_launch_id,
        a.creator,
        a.commitments,
        r.fund,
    );
    assert(token_flow(funded.log, asset, w) == token_flow(run.log, asset, w));
}

// ---- burning -------------------------------------------------------------

/// A slice never spends more than is pending, nor more than moves the venue's
/// price by the allowed impact.
pub proof fn law_slice_is_capped(s: Store, reserve: Balance, pending: Balance)
    ensures
        slice_size(s.constants, reserve, pending) <= pending,
        slice_size(s.constants, reserve, pending) <= impact_cap(
            reserve,
            s.constants.max_burn_impact_bps,
        ),
{
    let bps = s.constants.max_burn_impact_bps as int;
    assert(0 <= reserve * bps) by (nonlinear_arith)
        requires
            0 <= bps,
            reserve >= 0,
    ;
}

/// Two slices of one launch that spend anything lie at least the burn interval
/// apart: a slice notes its block, and none spends before the interval has
/// passed since.
pub proof fn law_slices_keep_their_distance(s: Store, id: LaunchId, r: DisburseReplies)
    requires
        disburse_value(s, id, r).1 > 0,
    ensures
        s.last_disburse_block.contains_key(id) ==> block_sub(r.now, s.last_disburse_block[id])
            >= s.constants.min_burn_interval,
        disburse_store(s, id, r).last_disburse_block == s.last_disburse_block.insert(id, r.now),
{
}

/// The first slice of a launch is never too soon.
pub proof fn law_first_slice_is_never_too_soon(
    run: Run,
    s: Store,
    id: LaunchId,
    r: DisburseCallReplies,
)
    requires
        run.ok(),
        !s.last_disburse_block.contains_key(id),
        disburse_run(run, s, id, r.inner).ok(),
    ensures
        disburse_call_run(run, s, id, r).error != Some(DispatchError::Module(Error::TooSoon)),
{
}

} // verus!
