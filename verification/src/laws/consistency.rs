//! What every state of the records keeps.
use crate::accounts::derived;
use crate::config::{Call, Constants, Run};
use crate::curve::{after_buy, after_sell, product};
use crate::laws::action::Action;
use crate::laws::creation::lemma_scan;
use crate::laws::curve::{
    initial_product, law_buy_never_shrinks_product, law_sell_adds_up,
    law_sell_never_shrinks_product, law_sell_out_raises_target, law_sold_tokens_are_covered,
};
use crate::laws::passed::{
    lemma_buy_passed, lemma_create_passed, lemma_disburse_passed, lemma_rescue_passed,
    lemma_seed_passed, lemma_sell_passed, lemma_slice_passed,
};
use crate::pallet::Store;
use crate::pallet::commitments::{claim_run, fees_taken, release_run};
use crate::pallet::create::{
    create_run, create_store, first_buy, launch_created, launch_run, launch_store, CreateArgs,
    CreateReplies,
};
use crate::pallet::disburse::{
    claim_legs_run, disburse_call_run, disburse_run, disburse_store, leg_taken, slice_buy,
    slice_due, slice_size, slice_trades, venue_quote, DisburseReplies,
};
use crate::pallet::govern::rescue_run;
use crate::pallet::terms::{lemma_vested_bound, pricing, terms_of, vested_at};
use crate::pallet::trade::{
    buy_quoted, buy_run, buy_settled, buy_state, do_seed_run, graduated, sell_price, sell_quoted,
    sell_run, sell_state, BuyArgs, BuyReplies, SellReplies,
};
use crate::records::{CurveState, Launch, LaunchMetadata, LockState, Phase};
use crate::types::{AccountId, AssetId, Balance, BlockNumber, LaunchId};
use vstd::prelude::*;

verus! {

/// Constants of a launchpad that sells something.
pub open spec fn sells(c: Constants) -> bool {
    c.sellable > 0 && c.virtual_token_floor + c.sellable <= u128::MAX
}

/// A curve's state fits its phase. While it trades, its product is no smaller
/// than at the start; once it is complete, what it sold was paid for.
pub open spec fn curve_sound(c: Constants, launch: Launch, state: CurveState) -> bool {
    let t = terms_of(c, launch.curve);
    &&& state.tokens_remaining <= c.sellable
    &&& state.phase == Phase::Trading <==> state.tokens_remaining > 0
    &&& state.phase == Phase::Trading ==> product(t, pricing(state)) >= initial_product(
        t,
        c.sellable,
    )
    &&& state.phase == Phase::Complete ==> state.real_quote * t.token_floor >= t.virtual_quote
        * c.sellable
    &&& state.phase == Phase::Graduated ==> state.real_quote == 0
    &&& state.completed_at is Some <==> state.phase != Phase::Trading
    &&& state.graduated_at is Some <==> state.phase == Phase::Graduated
    &&& state.phase != Phase::Graduated ==> state.lp_shares == 0
}

/// A lock has released no more than it holds.
pub open spec fn lock_sound(lock: LockState<Balance, BlockNumber>) -> bool {
    &&& 0 < lock.total
    &&& lock.released <= lock.total
    &&& lock.cliff_end <= lock.vest_end
}

/// The records agree with each other.
pub open spec fn consistent(s: Store) -> bool {
    &&& s.wf()
    &&& sells(s.constants)
    &&& forall|id: LaunchId| #[trigger] s.launches.contains_key(id) <==> s.curves.contains_key(id)
    &&& forall|id: LaunchId| #[trigger] s.curves.contains_key(id) ==> s.launches.contains_key(id)
    &&& forall|id: LaunchId| #[trigger]
        s.launches.contains_key(id) ==> {
            &&& id < s.next_launch_id
            &&& s.launches[id].escrow == derived(s.constants.pallet_id, id)
            &&& s.asset_to_launch.contains_key(s.launches[id].asset_id)
            &&& s.asset_to_launch[s.launches[id].asset_id] == id
            &&& curve_sound(s.constants, s.launches[id], s.curves[id])
            &&& s.launches[id].commitments.lock is Some ==> s.locks.contains_key(id)
        }
    &&& forall|a: AssetId| #[trigger]
        s.asset_to_launch.contains_key(a) ==> {
            &&& s.launches.contains_key(s.asset_to_launch[a])
            &&& s.launches[s.asset_to_launch[a]].asset_id == a
        }
    &&& forall|id: LaunchId| #[trigger]
        s.metadata.contains_key(id) ==> s.launches.contains_key(id) && s.metadata[id].within(
            s.constants.uri_limit,
            s.constants.description_limit,
        )
    &&& forall|id: LaunchId| #[trigger]
        s.locks.contains_key(id) ==> s.launches.contains_key(id)
            && s.launches[id].commitments.lock is Some && lock_sound(s.locks[id])
    &&& forall|id: LaunchId| #[trigger]
        s.last_disburse_block.contains_key(id) ==> s.launches.contains_key(id)
            && s.launches[id].commitments.burns()
}

/// A launchpad without any launch is consistent.
pub proof fn law_empty_is_consistent(s: Store)
    requires
        s.constants.wf(),
        sells(s.constants),
        s.params is None,
        s.launches == Map::<LaunchId, Launch>::empty(),
        s.curves == Map::<LaunchId, CurveState>::empty(),
        s.asset_to_launch == Map::<AssetId, LaunchId>::empty(),
        s.metadata == Map::<LaunchId, LaunchMetadata>::empty(),
        s.locks == Map::<LaunchId, LockState<Balance, BlockNumber>>::empty(),
        s.last_disburse_block == Map::<LaunchId, BlockNumber>::empty(),
    ensures
        consistent(s),
{
}

/// Another curve state that is sound keeps the records consistent.
proof fn lemma_with_curve(s: Store, id: LaunchId, state: CurveState)
    requires
        consistent(s),
        s.has(id),
        curve_sound(s.constants, s.launches[id], state),
    ensures
        consistent(s.with_curve(id, state)),
{
}

/// A buy keeps its curve sound.
proof fn lemma_buy_sound(run: Run, s: Store, a: BuyArgs, r: BuyReplies)
    requires
        buy_run(run, s, a, r).ok(),
        sells(s.constants),
        curve_sound(s.constants, s.launches[a.launch_id], s.curves[a.launch_id]),
    ensures
        curve_sound(s.constants, s.launches[a.launch_id], buy_settled(s, a, r)),
        curve_sound(s.constants, s.launches[a.launch_id], buy_state(s, a, r)),
{
    lemma_buy_passed(run, s, a, r);
    let t = terms_of(s.constants, s.launches[a.launch_id].curve);
    let state = s.curves[a.launch_id];
    let q = buy_quoted(s, a, r);
    law_buy_never_shrinks_product(t, pricing(state), r.open.to_curve(), q);
    let next = buy_settled(s, a, r);
    assert(pricing(next) == after_buy(pricing(state), q));
    if next.tokens_remaining == 0 {
        law_sell_out_raises_target(t, pricing(next), s.constants.sellable);
    }
}

/// A sell keeps its curve sound.
proof fn lemma_sell_sound(
    run: Run,
    s: Store,
    who: AccountId,
    id: LaunchId,
    tokens_in: Balance,
    min_quote_out: Balance,
    r: SellReplies,
)
    requires
        sell_run(run, s, who, id, tokens_in, min_quote_out, r).ok(),
        sells(s.constants),
        curve_sound(s.constants, s.launches[id], s.curves[id]),
    ensures
        curve_sound(s.constants, s.launches[id], sell_state(s, id, tokens_in, r)),
{
    lemma_sell_passed(run, s, who, id, tokens_in, min_quote_out, r);
    let t = terms_of(s.constants, s.launches[id].curve);
    let state = s.curves[id];
    let q = sell_quoted(s, id, tokens_in);
    law_sell_never_shrinks_product(t, pricing(state), tokens_in, q);
    assert(pricing(sell_state(s, id, tokens_in, r)) == after_sell(pricing(state), q, tokens_in));
}

/// A disbursement keeps the records consistent.
proof fn lemma_disburse_consistent(run: Run, s: Store, id: LaunchId, r: DisburseReplies)
    requires
        disburse_run(run, s, id, r).ok(),
        consistent(s),
    ensures
        consistent(disburse_store(s, id, r)),
{
    lemma_disburse_passed(run, s, id, r);
    assert(s.has(id));
    let s1 = leg_taken(s, id);
    assert(curve_sound(s.constants, s.launches[id], fees_taken(s.curves[id])));
    lemma_with_curve(s, id, fees_taken(s.curves[id]));
    if slice_due(s, id, r) {
        let traded = lemma_slice_passed(
            claim_legs_run(run, s, id, r),
            s1,
            id,
            r.pending,
            r.slice,
        );
        if slice_trades(s1, id, r.pending, r.slice) && s1.curves[id].phase == Phase::Trading {
            let size = slice_size(s1.constants, venue_quote(s1, id, r.slice.pool), r.pending);
            let buy = slice_buy(s1.constants, id, size);
            lemma_buy_sound(traded, s1, buy, r.slice.buy);
            lemma_with_curve(s1, id, buy_state(s1, buy, r.slice.buy));
        }
    }
}

/// A new launch keeps the records consistent, but for its lock, which its first
/// buy makes.
proof fn lemma_launch_consistent(run: Run, s: Store, a: CreateArgs, r: CreateReplies)
    requires
        create_run(run, s, a, r).ok(),
        consistent(s),
        a.metadata is Some ==> a.metadata->0.within(
            s.constants.uri_limit,
            s.constants.description_limit,
        ),
    ensures
        consistent(create_store(s, a, r)),
{
    lemma_create_passed(run, s, a, r);
    lemma_scan(run, s, 0, r.check.scan);
    let id = s.next_launch_id;
    let s1 = launch_store(s, a, r);
    let launch = launch_created(s, a, r);
    let t = terms_of(s.constants, launch.curve);
    assert(product(t, pricing(s1.curves[id])) == initial_product(t, s.constants.sellable))
        by (nonlinear_arith)
        requires
            product(t, pricing(s1.curves[id])) == (t.virtual_quote + 0) * (t.token_floor
                + s.constants.sellable),
            initial_product(t, s.constants.sellable) == t.virtual_quote * (t.token_floor
                + s.constants.sellable),
    ;
    assert(curve_sound(s.constants, launch, s1.curves[id]));
    if a.initial_buy != 0 {
        lemma_buy_passed(launch_run(run, s, a, r), s1, first_buy(s, a), r.buy);
        lemma_buy_sound(launch_run(run, s, a, r), s1, first_buy(s, a), r.buy);
    }
    let s2 = create_store(s, a, r);
    assert(s2.wf());
    assert forall|k: LaunchId| #[trigger] s2.locks.contains_key(k) implies s2.launches.contains_key(
        k,
    ) && s2.launches[k].commitments.lock is Some && lock_sound(s2.locks[k]) by {
        if k == id && !s.locks.contains_key(k) {
            assert(a.initial_buy != 0);
        }
    }
}

/// No call makes consistent records inconsistent.
#[verifier::rlimit(40)]
pub proof fn law_records_stay_consistent(
    x: Action,
    s0: Store,
    log0: Seq<Call>,
    s1: Store,
    log1: Seq<Call>,
)
    requires
        x.done(s0, log0, s1, log1),
        x.metadata_within(s0),
        consistent(s0),
    ensures
        consistent(s1),
{
    let start = Run::from(log0);
    match x {
        Action::Create { a, r } => if create_run(start, s0, a, r).ok() {
            lemma_launch_consistent(start, s0, a, r);
        },
        Action::Buy { a, r } => if buy_run(start, s0, a, r).ok() {
            lemma_buy_passed(start, s0, a, r);
            lemma_buy_sound(start, s0, a, r);
            lemma_with_curve(s0, a.launch_id, buy_state(s0, a, r));
        },
        Action::Sell { who, id, tokens_in, min_quote_out, r } => if sell_run(
            start,
            s0,
            who,
            id,
            tokens_in,
            min_quote_out,
            r,
        ).ok() {
            lemma_sell_passed(start, s0, who, id, tokens_in, min_quote_out, r);
            lemma_sell_sound(start, s0, who, id, tokens_in, min_quote_out, r);
            lemma_with_curve(s0, id, sell_state(s0, id, tokens_in, r));
        },
        Action::Graduate { id, r } => if do_seed_run(start, s0, id, false, r).ok() {
            lemma_seed_passed(start, s0, id, false, r);
            lemma_with_curve(s0, id, graduated(s0.curves[id], r.shares->Ok_0, r.now));
        },
        Action::ClaimCreatorFees { who, id, paid } => if claim_run(start, s0, who, id, paid).ok() {
            assert(s0.has(id));
            assert(curve_sound(s0.constants, s0.launches[id], fees_taken(s0.curves[id])));
            lemma_with_curve(s0, id, fees_taken(s0.curves[id]));
        },
        Action::Disburse { id, r } => if disburse_call_run(start, s0, id, r).ok() {
            lemma_disburse_consistent(start, s0, id, r.inner);
        },
        Action::DoDisburse { id, r } => if disburse_run(start, s0, id, r).ok() {
            lemma_disburse_consistent(start, s0, id, r);
        },
        Action::ClaimLocked { who, id, r } => if release_run(start, s0, who, id, r).ok() {
            let lock = s0.locks[id];
            assert(lock_sound(lock));
            if lock.cliff_end <= r.now < lock.vest_end {
                lemma_vested_bound(
                    lock.total as int,
                    r.now - lock.cliff_end,
                    lock.vest_end - lock.cliff_end,
                );
            }
            assert(vested_at(lock, r.now) <= lock.total);
        },
        Action::ForceSeed { origin, id, deviation_bps, r } => if rescue_run(
            start,
            s0,
            origin,
            id,
            deviation_bps,
            r,
        ).ok() {
            lemma_rescue_passed(start, s0, origin, id, deviation_bps, r);
            lemma_with_curve(
                s0,
                id,
                graduated(s0.curves[id], r.deposit.shares->Ok_0, r.due.now),
            );
        },
        _ => {},
    }
}

/// Every token that a trading curve has sold can be sold back to it: a sell that
/// has a price is covered by the quote that the curve holds.
pub proof fn law_every_sold_token_can_be_sold_back(s: Store, id: LaunchId, tokens_in: Balance)
    requires
        consistent(s),
        s.has(id),
        s.curves[id].phase == Phase::Trading,
        0 < tokens_in <= s.constants.sellable - s.curves[id].tokens_remaining,
        sell_price(s, id, tokens_in) is Ok,
    ensures
        sell_quoted(s, id, tokens_in).quote_gross <= s.curves[id].real_quote,
{
    let t = terms_of(s.constants, s.launches[id].curve);
    let state = pricing(s.curves[id]);
    let q = sell_quoted(s, id, tokens_in);
    law_sell_adds_up(t, state, tokens_in, q);
    law_sold_tokens_are_covered(t, state, s.constants.sellable, tokens_in);
}

} // verus!
