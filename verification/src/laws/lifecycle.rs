//! Laws on what any call may change.
use crate::config::{Call, Run};
use crate::laws::action::Action;
use crate::laws::passed::{
    lemma_buy_passed, lemma_disburse_passed, lemma_rescue_passed, lemma_seed_passed,
    lemma_sell_passed, lemma_slice_passed,
};
use crate::pallet::Store;
use crate::pallet::create::{
    asset_after, asset_chosen, create_run, create_store, launch_created, CreateArgs, CreateReplies,
};
use crate::pallet::disburse::{
    claim_legs_run, disburse_call_run, disburse_run, disburse_store, leg_taken, slice_buy,
    slice_due, slice_size, slice_trades, venue_quote, DisburseReplies,
};
use crate::pallet::govern::rescue_run;
use crate::pallet::terms::params_in_bounds;
use crate::pallet::trade::{buy_run, do_seed_run, sell_run};
use crate::records::{Launch, LockState, Phase};
use crate::types::LaunchId;
use vstd::prelude::*;

verus! {

/// How far a launch has come.
pub open spec fn rank(p: Phase) -> int {
    match p {
        Phase::Trading => 0,
        Phase::Complete => 1,
        Phase::Graduated => 2,
    }
}

/// The constants never change, and the records of a launch that a call is not
/// about stay as they were.
#[verifier::rlimit(40)]
pub proof fn law_other_launches_stay(
    x: Action,
    s0: Store,
    log0: Seq<Call>,
    s1: Store,
    log1: Seq<Call>,
    id: LaunchId,
)
    requires
        x.done(s0, log0, s1, log1),
        x.target(s0) != Some(id),
    ensures
        s1.constants == s0.constants,
        s1.launches.contains_key(id) == s0.launches.contains_key(id),
        s1.launches[id] == s0.launches[id],
        s1.curves.contains_key(id) == s0.curves.contains_key(id),
        s1.curves[id] == s0.curves[id],
        s1.metadata.contains_key(id) == s0.metadata.contains_key(id),
        s1.metadata[id] == s0.metadata[id],
        s1.locks.contains_key(id) == s0.locks.contains_key(id),
        s1.locks[id] == s0.locks[id],
        s1.last_disburse_block.contains_key(id) == s0.last_disburse_block.contains_key(id),
        s1.last_disburse_block[id] == s0.last_disburse_block[id],
{
}

/// A launch record, once written, keeps every field but the fee recipient, and
/// that one changes only when the recipient asks for it.
#[verifier::rlimit(40)]
pub proof fn law_launch_is_written_once(
    x: Action,
    s0: Store,
    log0: Seq<Call>,
    s1: Store,
    log1: Seq<Call>,
    id: LaunchId,
)
    requires
        x.done(s0, log0, s1, log1),
        s0.launches.contains_key(id),
        id < s0.next_launch_id,
    ensures
        s1.launches.contains_key(id),
        s1.launches[id] == (Launch {
            creator_fee_recipient: s1.launches[id].creator_fee_recipient,
            ..s0.launches[id]
        }),
        s1.launches[id].creator_fee_recipient != s0.launches[id].creator_fee_recipient ==> (
        x matches Action::SetCreatorFeeRecipient { who, id: named, new } && named == id && who
            == s0.launches[id].creator_fee_recipient && new
            == s1.launches[id].creator_fee_recipient),
{
}

/// A launch only moves forward: from trading to complete to graduated, and from
/// graduated to nowhere.
#[verifier::rlimit(40)]
pub proof fn law_phases_only_move_forward(
    x: Action,
    s0: Store,
    log0: Seq<Call>,
    s1: Store,
    log1: Seq<Call>,
    id: LaunchId,
)
    requires
        x.done(s0, log0, s1, log1),
        s0.curves.contains_key(id),
        id < s0.next_launch_id,
    ensures
        s1.curves.contains_key(id),
        rank(s1.curves[id].phase) >= rank(s0.curves[id].phase),
{
    let start = Run::from(log0);
    if x.target(s0) != Some(id) {
        law_other_launches_stay(x, s0, log0, s1, log1, id);
    } else {
        match x {
            Action::Buy { a, r } => if buy_run(start, s0, a, r).ok() {
                lemma_buy_passed(start, s0, a, r);
            },
            Action::Sell { who, id, tokens_in, min_quote_out, r } => if sell_run(
                start,
                s0,
                who,
                id,
                tokens_in,
                min_quote_out,
                r,
            ).ok() {
                lemma_sell_passed(start, s0, who, id, tokens_in, min_quote_out, r);
            },
            Action::Graduate { id, r } => if do_seed_run(start, s0, id, false, r).ok() {
                lemma_seed_passed(start, s0, id, false, r);
            },
            Action::Disburse { id, r } => if disburse_call_run(start, s0, id, r).ok() {
                lemma_disburse_curve(start, s0, id, r.inner);
            },
            Action::DoDisburse { id, r } => if disburse_run(start, s0, id, r).ok() {
                lemma_disburse_curve(start, s0, id, r);
            },
            Action::ForceSeed { origin, id, deviation_bps, r } => if rescue_run(
                start,
                s0,
                origin,
                id,
                deviation_bps,
                r,
            ).ok() {
                lemma_rescue_passed(start, s0, origin, id, deviation_bps, r);
            },
            _ => {},
        }
    }
}

/// A disbursement moves its launch forward, if at all.
proof fn lemma_disburse_curve(run: Run, s: Store, id: LaunchId, r: DisburseReplies)
    requires
        disburse_run(run, s, id, r).ok(),
        s.curves.contains_key(id),
    ensures
        disburse_store(s, id, r).curves.contains_key(id),
        rank(disburse_store(s, id, r).curves[id].phase) >= rank(s.curves[id].phase),
{
    lemma_disburse_passed(run, s, id, r);
    if slice_due(s, id, r) {
        let s1 = leg_taken(s, id);
        let traded = lemma_slice_passed(
            claim_legs_run(run, s, id, r),
            s1,
            id,
            r.pending,
            r.slice,
        );
        if slice_trades(s1, id, r.pending, r.slice) && s1.curves[id].phase == Phase::Trading {
            let size = slice_size(s1.constants, venue_quote(s1, id, r.slice.pool), r.pending);
            lemma_buy_passed(traded, s1, slice_buy(s1.constants, id, size), r.slice.buy);
        }
    }
}

/// Launch ids only go up, one per launch: a call either creates a launch under
/// the next id or leaves the counter and the asset index alone.
#[verifier::rlimit(40)]
pub proof fn law_launch_ids_are_monotone(
    x: Action,
    s0: Store,
    log0: Seq<Call>,
    s1: Store,
    log1: Seq<Call>,
)
    requires
        x.done(s0, log0, s1, log1),
    ensures
        s1.next_launch_id == s0.next_launch_id || (x is Create && s1.next_launch_id
            == s0.next_launch_id + 1 && s1.launches.contains_key(s0.next_launch_id)),
        s1.next_launch_id == s0.next_launch_id ==> s1.asset_to_launch == s0.asset_to_launch
            && s1.next_asset_id == s0.next_asset_id && s1.launches.dom() =~= s0.launches.dom(),
{
    match x {
        Action::Create { a, r } => {
            let run = create_run(Run::from(log0), s0, a, r);
            if run.ok() {
                lemma_created(s0, log0, a, r);
            }
        },
        Action::SetCreatorFeeRecipient { who, id, new } => {
            assert(s1.launches.dom() =~= s0.launches.dom());
        },
        _ => {
            lemma_launches_kept(x, s0, log0, s1, log1);
        },
    }
}

/// Only a creation or a new fee recipient writes a launch record.
proof fn lemma_launches_kept(x: Action, s0: Store, log0: Seq<Call>, s1: Store, log1: Seq<Call>)
    requires
        x.done(s0, log0, s1, log1),
        !(x is Create) && !(x is SetCreatorFeeRecipient),
    ensures
        s1.launches == s0.launches,
        s1.asset_to_launch == s0.asset_to_launch,
        s1.next_launch_id == s0.next_launch_id,
        s1.next_asset_id == s0.next_asset_id,
{
}

/// A creation that succeeds stores its launch under the next id.
pub proof fn lemma_created(
    s0: Store,
    log0: Seq<Call>,
    a: CreateArgs,
    r: CreateReplies,
)
    requires
        create_run(Run::from(log0), s0, a, r).ok(),
    ensures
        s0.next_launch_id < u64::MAX,
        create_store(s0, a, r).next_launch_id == s0.next_launch_id + 1,
        create_store(s0, a, r).launches == s0.launches.insert(
            s0.next_launch_id,
            launch_created(s0, a, r),
        ),
        create_store(s0, a, r).asset_to_launch == s0.asset_to_launch.insert(
            asset_chosen(s0, r.check.scan),
            s0.next_launch_id,
        ),
{
}

/// The live parameters and the pause change only where the runtime lets
/// governance change them, and parameters only to ones in bounds.
#[verifier::rlimit(40)]
pub proof fn law_only_governance_governs(
    x: Action,
    s0: Store,
    log0: Seq<Call>,
    s1: Store,
    log1: Seq<Call>,
)
    requires
        x.done(s0, log0, s1, log1),
    ensures
        s1.params != s0.params ==> (x matches Action::SetParams { new, allowed, .. } && allowed is Ok
            && s1.params == Some(new) && params_in_bounds(
            s0.constants,
            new,
        )),
        s1.creation_paused != s0.creation_paused ==> (
        x matches Action::SetCreationPaused { paused, allowed, .. } && allowed is Ok
            && s1.creation_paused == paused),
{
}

/// A lock, once written, keeps its tranche and its schedule; what it has
/// released only grows, and only where its creator claims.
#[verifier::rlimit(40)]
pub proof fn law_locks_only_release(
    x: Action,
    s0: Store,
    log0: Seq<Call>,
    s1: Store,
    log1: Seq<Call>,
    id: LaunchId,
)
    requires
        x.done(s0, log0, s1, log1),
        s0.locks.contains_key(id),
        id < s0.next_launch_id,
    ensures
        s1.locks.contains_key(id),
        s1.locks[id] == (LockState { released: s1.locks[id].released, ..s0.locks[id] }),
        s1.locks[id].released >= s0.locks[id].released,
        s1.locks[id].released != s0.locks[id].released ==> (x matches Action::ClaimLocked {
            who,
            ..
        } && who == s0.launches[id].creator),
{
    if x.target(s0) != Some(id) {
        law_other_launches_stay(x, s0, log0, s1, log1, id);
    }
}

/// The dormancy clock of a launch moves only with a trade: a buy that counts
/// as one, or a sell. Neither a venue's buy nor a burn slice moves it.
#[verifier::rlimit(40)]
pub proof fn law_only_trades_move_the_clock(
    x: Action,
    s0: Store,
    log0: Seq<Call>,
    s1: Store,
    log1: Seq<Call>,
    id: LaunchId,
)
    requires
        x.done(s0, log0, s1, log1),
        s0.curves.contains_key(id),
        id < s0.next_launch_id,
        s1.curves[id].last_trade_block != s0.curves[id].last_trade_block,
    ensures
        x.target(s0) == Some(id),
        x is Sell || (x matches Action::Buy { a, .. } && a.is_trade),
{
    if x.target(s0) != Some(id) {
        law_other_launches_stay(x, s0, log0, s1, log1, id);
    }
}

/// The block of the last burn slice moves only with a disbursement.
#[verifier::rlimit(40)]
pub proof fn law_only_slices_move_the_interval(
    x: Action,
    s0: Store,
    log0: Seq<Call>,
    s1: Store,
    log1: Seq<Call>,
)
    requires
        x.done(s0, log0, s1, log1),
        s1.last_disburse_block != s0.last_disburse_block,
    ensures
        x is Disburse || x is DoDisburse,
{
}

/// The cursor for asset ids moves only with a creation, and past the id it took.
#[verifier::rlimit(40)]
pub proof fn law_asset_cursor_moves_past(
    x: Action,
    s0: Store,
    log0: Seq<Call>,
    s1: Store,
    log1: Seq<Call>,
)
    requires
        x.done(s0, log0, s1, log1),
        s1.next_asset_id != s0.next_asset_id,
    ensures
        x matches Action::Create { r, .. } && s1.next_asset_id == Some(
            asset_after(asset_chosen(s0, r.check.scan)),
        ),
{
    if !(x is Create) && !(x is SetCreatorFeeRecipient) {
        lemma_launches_kept(x, s0, log0, s1, log1);
    }
}

} // verus!
