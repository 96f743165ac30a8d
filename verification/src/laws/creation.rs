//! Laws of creation.
use crate::MAX_ASSET_ID_SCAN;
use crate::accounts::{derived, lemma_derived, lemma_sub_account_bytes_differ};
use crate::config::{Call, Run};
use crate::laws::flow::{group_quote_flow, group_token_flow, quote_flow, token_flow};
use crate::laws::passed::{lemma_buy_passed, lemma_create_passed};
use crate::laws::trading::lemma_buy_asks_the_hook;
use crate::pallet::Store;
use crate::pallet::create::{
    asset_chosen, asset_free, asset_tried, check_run, create_run, curve_made, first_buy, hash_now,
    launch_created, launch_made, launch_run, launch_store, launch_written, scan_length, scan_run,
    CheckReplies, CreateArgs, CreateReplies,
};
use crate::pallet::terms::{reserved_tokens, seedable, snapshot_of};
use crate::pallet::trade::buy_run;
use crate::types::{AccountId, AssetId, BlockNumber, DispatchError, Error, Hash256, LaunchId};
use vstd::prelude::*;

verus! {

/// A walk ends without an error exactly where some id within its reach is free,
/// and then on the first such.
pub proof fn lemma_scan(run: Run, s: Store, n: nat, replies: Seq<bool>)
    requires
        run.ok(),
        n <= MAX_ASSET_ID_SCAN,
    ensures
        ({
            let m = scan_length(s, n, replies);
            &&& n <= m <= MAX_ASSET_ID_SCAN
            &&& scan_run(run, s, n, replies).ok() <==> m < MAX_ASSET_ID_SCAN
            &&& !scan_run(run, s, n, replies).ok() ==> scan_run(run, s, n, replies).error == Some(
                DispatchError::Module(Error::AssetIdTaken),
            )
            &&& m < MAX_ASSET_ID_SCAN ==> asset_free(s, asset_tried(s, m), replies[m as int])
            &&& forall|i: int|
                n <= i < m ==> !asset_free(s, #[trigger] asset_tried(s, i as nat), replies[i])
        }),
    decreases MAX_ASSET_ID_SCAN - n,
{
    if n < MAX_ASSET_ID_SCAN {
        let a = asset_tried(s, n);
        let asked = run.call(Call::AssetExists { asset: a, reply: replies[n as int] });
        if !asset_free(s, a, replies[n as int]) {
            lemma_scan(asked, s, n + 1, replies);
        }
    }
}

/// Looking for a free asset id moves nothing.
pub proof fn lemma_scan_moves_nothing(
    run: Run,
    s: Store,
    n: nat,
    replies: Seq<bool>,
    asset: AssetId,
    who: AccountId,
)
    ensures
        quote_flow(scan_run(run, s, n, replies).log, who) == quote_flow(run.log, who),
        token_flow(scan_run(run, s, n, replies).log, asset, who) == token_flow(run.log, asset, who),
    decreases MAX_ASSET_ID_SCAN - n,
{
    broadcast use group_quote_flow, group_token_flow;

    if run.ok() && n < MAX_ASSET_ID_SCAN {
        let a = asset_tried(s, n);
        let asked = run.call(Call::AssetExists { asset: a, reply: replies[n as int] });
        if !asset_free(s, a, replies[n as int]) {
            lemma_scan_moves_nothing(asked, s, n + 1, replies, asset, who);
        }
    }
}

/// The asset id of a new launch is one that no asset and no launch claims, and
/// every id from the cursor up to it is claimed.
pub proof fn law_asset_id_is_the_first_free(run: Run, s: Store, a: CreateArgs, r: CreateReplies)
    requires
        create_run(run, s, a, r).ok(),
    ensures
        ({
            let m = scan_length(s, 0, r.check.scan);
            &&& asset_chosen(s, r.check.scan) == asset_tried(s, m)
            &&& m < MAX_ASSET_ID_SCAN
            &&& !r.check.scan[m as int]
            &&& !s.asset_to_launch.contains_key(asset_tried(s, m))
            &&& forall|i: int|
                0 <= i < m ==> !asset_free(
                    s,
                    #[trigger] asset_tried(s, i as nat),
                    r.check.scan[i],
                )
        }),
{
    lemma_create_passed(run, s, a, r);
    lemma_scan(run, s, 0, r.check.scan);
}

/// A creation fails for want of an asset id only where every id within the
/// scan is claimed.
pub proof fn law_taken_ids_only_delay(run: Run, s: Store, a: CreateArgs, r: CheckReplies)
    requires
        run.ok(),
        check_run(run, s, a, r).error == Some(DispatchError::Module(Error::AssetIdTaken)),
    ensures
        forall|i: int|
            0 <= i < MAX_ASSET_ID_SCAN ==> !asset_free(
                s,
                #[trigger] asset_tried(s, i as nat),
                r.scan[i],
            ),
{
    lemma_scan(run, s, 0, r.scan);
}

/// A creator who names the current terms' hash is never refused over it.
pub proof fn law_current_hash_always_matches(run: Run, s: Store, a: CreateArgs, r: CheckReplies)
    requires
        run.ok(),
        a.expected_params_hash == Some(hash_now(s)),
    ensures
        check_run(run, s, a, r).error != Some(DispatchError::Module(Error::ParamsMismatch)),
{
    lemma_scan(run, s, 0, r.scan);
}

/// A launch gets the terms whose hash its creator named, or none at all.
pub proof fn law_named_terms_are_the_terms(
    run: Run,
    s: Store,
    a: CreateArgs,
    r: CreateReplies,
    h: Hash256,
)
    requires
        a.expected_params_hash == Some(h),
        create_run(run, s, a, r).ok(),
    ensures
        launch_created(s, a, r).params_hash == h,
        launch_created(s, a, r).curve == snapshot_of(s.live_params()),
{
    lemma_create_passed(run, s, a, r);
}

/// Terms are uniform: whoever creates a launch, and whatever else they ask for,
/// it gets the live parameters' terms and the hash of these terms.
pub proof fn law_terms_are_uniform(
    s: Store,
    a: CreateArgs,
    b: CreateArgs,
    asset_a: AssetId,
    asset_b: AssetId,
    now_a: BlockNumber,
    now_b: BlockNumber,
)
    ensures
        launch_made(s, a, asset_a, now_a).curve == snapshot_of(s.live_params()),
        launch_made(s, a, asset_a, now_a).curve == launch_made(s, b, asset_b, now_b).curve,
        launch_made(s, a, asset_a, now_a).params_hash == launch_made(
            s,
            b,
            asset_b,
            now_b,
        ).params_hash,
{
}

/// A launch that could not be seeded is never created.
pub proof fn law_created_launch_can_be_seeded(run: Run, s: Store, a: CreateArgs, r: CreateReplies)
    requires
        create_run(run, s, a, r).ok(),
    ensures
        seedable(
            s.constants,
            launch_created(s, a, r).curve.graduation_target,
            reserved_tokens(s.constants),
        ),
        !r.check.pool,
{
    lemma_create_passed(run, s, a, r);
}

/// No two launches share an account: escrow, commitment and lock accounts
/// differ between launches, and among each other where the pallet ids do.
pub proof fn law_accounts_are_distinct(p: [u8; 8], i: LaunchId, q: [u8; 8], j: LaunchId)
    requires
        p@ != q@ || i != j,
    ensures
        derived(p, i) != derived(q, j),
{
    lemma_sub_account_bytes_differ(p@, i, q@, j);
    lemma_derived(p, i);
    lemma_derived(q, j);
}

/// By the time the hook of a first buy is asked, the new launch's records have
/// been handed over, with nothing sold yet.
pub proof fn law_first_buy_finds_its_launch(run: Run, s: Store, a: CreateArgs, r: CreateReplies)
    requires
        create_run(run, s, a, r).ok(),
        a.initial_buy != 0,
    ensures
        ({
            let id = s.next_launch_id;
            let n = launch_run(run, s, a, r).log.len() as int;
            let log = create_run(run, s, a, r).log;
            &&& log.len() > n + 2
            &&& log[n] matches Call::LaunchWritten { launch_id, launch, curve, metadata } && {
                &&& launch_id == id
                &&& launch == launch_created(s, a, r)
                &&& curve == curve_made(s.constants, r.mint.now)
                &&& a.metadata is Some ==> metadata == a.metadata
            }
            &&& log[n + 2] matches Call::OnBuy { launch_id, created_at, who, quote_in, .. } && {
                &&& launch_id == id
                &&& created_at == r.mint.now
                &&& who == a.creator
                &&& quote_in == a.initial_buy
            }
        }),
{
    lemma_create_passed(run, s, a, r);
    let launched = launch_run(run, s, a, r);
    let s1 = launch_store(s, a, r);
    let written = launched.call(launch_written(s1, launch_created(s, a, r), s.next_launch_id));
    let buy = first_buy(s, a);
    let bought = buy_run(written, s1, buy, r.buy);
    assert(bought.ok());
    lemma_buy_passed(written, s1, buy, r.buy);
    lemma_buy_asks_the_hook(written, s1, buy, r.buy);
    assert(bought.log.is_prefix_of(create_run(run, s, a, r).log));
    assert(written.log[launched.log.len() as int] == bought.log[launched.log.len() as int]);
}

} // verus!
