//! Buy and burn: a committed launch's creator fees are claimed into its
//! commitment account, which buys the token on its own venue and burns it.
use crate::BPS;
use crate::accounts::derived;
use crate::config::{faithful, Call, Config, Constants, Run};
use crate::event::Event;
use crate::pallet::{Pallet, Store};
use crate::pallet::commitments::fees_taken;
use crate::pallet::trade::{buy_run, buy_store, buy_value, BuyArgs, BuyReplies};
use crate::pallet::views::{venue_reserves, CurveVenue};
use crate::records::{DisburseOutcome, Launch, Phase};
use crate::types::{
    block_sub, sat_add, sat_sub, AssetKind, Balance, BlockNumber, DispatchError, Error, LaunchId,
    Origin, Preservation,
};
use crate::u256::mul_div_floor;
use vstd::prelude::*;

verus! {

broadcast use vstd::std_specs::btree::group_btree_axioms;

// ---- one slice -----------------------------------------------------------

/// What the runtime answers while a slice is bought and burned.
pub struct SliceReplies {
    pub pool: Option<(Balance, Balance)>,
    pub minimum: Balance,
    pub before: Balance,
    pub buy: BuyReplies,
    pub swapped: Result<Balance, DispatchError>,
    pub after: Balance,
    pub burned: Result<(), DispatchError>,
}

/// The quote reserve of a launch's venue: the curve's while it trades, the
/// pool's once it has graduated. A curve waiting for its seed has no venue.
pub open spec fn venue_quote(s: Store, id: LaunchId, pool: Option<(Balance, Balance)>) -> Balance {
    match s.curves[id].phase {
        Phase::Trading => match venue_reserves(s, id) {
            Some((q, _)) => q,
            None => 0,
        },
        Phase::Graduated => match pool {
            Some((n, _)) => n,
            None => 0,
        },
        Phase::Complete => 0,
    }
}

/// The quote that moves a constant-product price by the allowed impact.
pub open spec fn impact_cap(reserve: Balance, max_burn_impact_bps: u16) -> int {
    reserve * max_burn_impact_bps / (2 * BPS)
}

/// What a slice spends at most: all that is pending, up to the cap.
pub open spec fn slice_size(c: Constants, reserve: Balance, pending: Balance) -> Balance {
    let cap = impact_cap(reserve, c.max_burn_impact_bps);
    if pending <= cap {
        pending
    } else {
        cap as u128
    }
}

/// The buy that a slice makes on a trading curve. It is the launchpad buying the
/// token back, which says nothing of whether anyone is still interested in it:
/// not a trade for the dormancy clock.
pub open spec fn slice_buy(c: Constants, id: LaunchId, size: Balance) -> BuyArgs {
    BuyArgs {
        who: derived(c.commit_pallet_id, id),
        launch_id: id,
        quote_in: size,
        min_tokens_out: 0,
        is_creator: false,
        is_trade: false,
    }
}

/// Whether a slice trades: its venue has a reserve, and what it may spend is
/// above dust.
pub open spec fn slice_trades(s: Store, id: LaunchId, pending: Balance, r: SliceReplies) -> bool {
    let reserve = venue_quote(s, id, r.pool);
    reserve != 0 && slice_size(s.constants, reserve, pending) >= r.minimum
}

/// The tokens that a slice buys.
pub open spec fn slice_tokens(s: Store, id: LaunchId, pending: Balance, r: SliceReplies) -> Balance {
    let size = slice_size(s.constants, venue_quote(s, id, r.pool), pending);
    match s.curves[id].phase {
        Phase::Trading => buy_value(s, slice_buy(s.constants, id, size), r.buy).1,
        Phase::Graduated => r.swapped->Ok_0,
        Phase::Complete => 0,
    }
}

/// The trade of a slice, on the curve or in the pool.
pub open spec fn slice_trade_run(
    run: Run,
    s: Store,
    id: LaunchId,
    size: Balance,
    r: SliceReplies,
) -> Run {
    match s.curves[id].phase {
        Phase::Trading => buy_run(run, s, slice_buy(s.constants, id, size), r.buy),
        Phase::Graduated => run.call(
            Call::Swap {
                who: derived(s.constants.commit_pallet_id, id),
                from: AssetKind::Native,
                to: AssetKind::WithId(s.launches[id].asset_id),
                amount: size,
                min_out: 0,
                reply: r.swapped,
            },
        ),
        Phase::Complete => run,
    }
}

/// Sizing a slice: what of the venue and of the currency has to be asked.
pub open spec fn slice_size_run(run: Run, s: Store, id: LaunchId, r: SliceReplies) -> Run {
    let asset = AssetKind::WithId(s.launches[id].asset_id);
    run.ensure(s.curves.contains_key(id), Error::LaunchNotFound).call_if(
        s.curves[id].phase == Phase::Graduated,
        Call::NativeReserves { asset, reply: r.pool },
    ).call_if(
        venue_quote(s, id, r.pool) != 0,
        Call::MinimumBalance { reply: r.minimum },
    )
}

/// Buying and burning one slice.
pub open spec fn slice_run(
    run: Run,
    s: Store,
    id: LaunchId,
    pending: Balance,
    r: SliceReplies,
) -> Run {
    let commit = derived(s.constants.commit_pallet_id, id);
    let sized = slice_size_run(run, s, id, r);
    if !sized.ok() || !slice_trades(s, id, pending, r) {
        sized
    } else {
        let size = slice_size(s.constants, venue_quote(s, id, r.pool), pending);
        let tokens = slice_tokens(s, id, pending, r);
        slice_trade_run(
            sized.call(Call::CurrencyBalance { who: commit, reply: r.before }),
            s,
            id,
            size,
            r,
        ).call(Call::CurrencyBalance { who: commit, reply: r.after }).call_if(
            tokens > 0,
            Call::AssetBurn {
                asset: s.launches[id].asset_id,
                who: commit,
                amount: tokens,
                reply: r.burned,
            },
        )
    }
}

/// What a slice spent, as measured, and the tokens it burned.
pub open spec fn slice_value(s: Store, id: LaunchId, pending: Balance, r: SliceReplies) -> (
    Balance,
    Balance,
) {
    if slice_trades(s, id, pending, r) {
        (sat_sub(r.before, r.after), slice_tokens(s, id, pending, r))
    } else {
        (0, 0)
    }
}

/// What a slice leaves in the records: its buy, where the curve still trades.
pub open spec fn slice_store(s: Store, id: LaunchId, pending: Balance, r: SliceReplies) -> Store {
    let size = slice_size(s.constants, venue_quote(s, id, r.pool), pending);
    if slice_trades(s, id, pending, r) && s.curves[id].phase == Phase::Trading {
        buy_store(s, slice_buy(s.constants, id, size), r.buy)
    } else {
        s
    }
}

/// What a slice does for given answers. Where it fails after its own buy, the
/// buy's record is taken back by the dispatch around it.
pub open spec fn slice_done(
    s0: Store,
    log0: Seq<Call>,
    id: LaunchId,
    pending: Balance,
    r: SliceReplies,
    result: Result<(Balance, Balance), DispatchError>,
    s1: Store,
    log1: Seq<Call>,
) -> bool {
    let run = slice_run(Run::from(log0), s0, id, pending, r);
    &&& log1 == run.log
    &&& result == run.result(slice_value(s0, id, pending, r))
    &&& s1 == if run.ok() {
        slice_store(s0, id, pending, r)
    } else {
        s0
    }
}

/// The most that a slice may spend: `min(pending, reserve × bps / (2 × BPS))`.
/// A cap beyond any balance caps nothing.
pub fn size_slice(constants: &Constants, reserve: Balance, pending: Balance) -> (r: Balance)
    ensures
        r == slice_size(*constants, reserve, pending),
{
    let bps: u128 = constants.max_burn_impact_bps as u128;
    let whole: u128 = 2 * (BPS as u128);
    proof {
        assert(0 <= reserve * bps) by (nonlinear_arith)
            requires
                0 <= bps,
                reserve >= 0,
        ;
    }
    match mul_div_floor(reserve, bps, whole) {
        Some(cap) => if pending <= cap {
            pending
        } else {
            cap
        },
        None => pending,
    }
}

impl<T: Config> Pallet<T> {
    /// Buy a slice on the launch's venue and measure what it cost: `(spent,
    /// tokens)`.
    #[verifier::rlimit(40)]
    fn trade_slice(&mut self, launch: &Launch, launch_id: LaunchId, phase: Phase, size: Balance) -> (out:
        (Result<Balance, DispatchError>, Ghost<(BuyReplies, Result<Balance, DispatchError>)>))
        requires
            old(self).wf(),
            old(self).store().has(launch_id),
            old(self).store().launches[launch_id] == *launch,
            old(self).store().curves[launch_id].phase == phase,
            phase != Phase::Complete,
        ensures
            final(self).wf(),
            ({
                let s0 = old(self).store();
                let a = slice_buy(s0.constants, launch_id, size);
                let (buy, swapped) = out.1@;
                let run = match phase {
                    Phase::Trading => buy_run(Run::from(old(self).log()), s0, a, buy),
                    _ => Run::from(old(self).log()).call(
                        Call::Swap {
                            who: derived(s0.constants.commit_pallet_id, launch_id),
                            from: AssetKind::Native,
                            to: AssetKind::WithId(launch.asset_id),
                            amount: size,
                            min_out: 0,
                            reply: swapped,
                        },
                    ),
                };
                &&& final(self).log() == run.log
                &&& out.0 == run.result(
                    if phase == Phase::Trading {
                        buy_value(s0, a, buy).1
                    } else {
                        swapped->Ok_0
                    },
                )
                &&& final(self).store() == if run.ok() && phase == Phase::Trading {
                    buy_store(s0, a, buy)
                } else {
                    s0
                }
            }),
    {
        let ghost blank: (BuyReplies, Result<Balance, DispatchError>) = arbitrary();
        let commit = self.commit_account(launch_id);
        match phase {
            Phase::Trading => {
                let (bought, buy) = self.buy_inner(&commit, launch_id, size, 0, false, false);
                match bought {
                    Ok((_, tokens)) => (Ok(tokens), Ghost((buy@, blank.1))),
                    Err(e) => (Err(e), Ghost((buy@, blank.1))),
                }
            },
            _ => {
                let swapped = self.host.swap_for(
                    &commit,
                    AssetKind::Native,
                    AssetKind::WithId(launch.asset_id),
                    size,
                    0,
                );
                (swapped, Ghost((blank.0, swapped)))
            },
        }
    }

    /// Buy `min(pending, cap)` of the token on the launch's venue with the
    /// commitment account's quote and burn what arrives. What was spent is
    /// measured, not assumed.
    #[verifier::rlimit(60)]
    pub(crate) fn burn_slice(&mut self, launch_id: LaunchId, pending: Balance) -> (out: (
        Result<(Balance, Balance), DispatchError>,
        Ghost<SliceReplies>,
    ))
        requires
            old(self).wf(),
            old(self).store().launches.contains_key(launch_id),
        ensures
            final(self).wf(),
            slice_done(
                old(self).store(),
                old(self).log(),
                launch_id,
                pending,
                out.1@,
                out.0,
                final(self).store(),
                final(self).log(),
            ),
    {
        let ghost blank: SliceReplies = arbitrary();
        let (launch, state) = match (self.launches.get(&launch_id), self.curves.get(&launch_id)) {
            (Some(l), Some(c)) => (*l, *c),
            _ => return (Err(DispatchError::Module(Error::LaunchNotFound)), Ghost(blank)),
        };
        let asset = AssetKind::WithId(launch.asset_id);
        let ghost mut r1 = blank;
        let reserve: Balance = match state.phase {
            Phase::Trading => match self.virtual_reserves(launch_id) {
                Some((q, _)) => q,
                None => 0,
            },
            Phase::Graduated => {
                let pool = self.host.native_reserves(asset);
                proof {
                    r1 = SliceReplies { pool, ..blank };
                }
                match pool {
                    Some((n, _)) => n,
                    None => 0,
                }
            },
            Phase::Complete => 0,
        };
        if reserve == 0 {
            return (Ok((0, 0)), Ghost(r1));
        }
        let size: Balance = size_slice(&self.constants, reserve, pending);
        let minimum: Balance = self.host.currency_minimum_balance();
        let ghost r2 = SliceReplies { minimum, ..r1 };
        if size < minimum {
            return (Ok((0, 0)), Ghost(r2));
        }
        let commit = self.commit_account(launch_id);
        let before: Balance = self.host.currency_balance(&commit);
        let (traded, replies) = self.trade_slice(&launch, launch_id, state.phase, size);
        let ghost r3 = SliceReplies { before, buy: replies@.0, swapped: replies@.1, ..r2 };
        let tokens: Balance = match traded {
            Ok(t) => t,
            Err(e) => return (Err(e), Ghost(r3)),
        };
        let after: Balance = self.host.currency_balance(&commit);
        let ghost r4 = SliceReplies { after, ..r3 };
        let spent: Balance = before.saturating_sub(after);
        let ghost mut r5 = r4;
        if tokens > 0 {
            let burned = self.host.asset_burn_from(launch.asset_id, &commit, tokens);
            proof {
                r5 = SliceReplies { burned, ..r4 };
            }
            if let Err(e) = burned {
                self.curves.insert(launch_id, state);
                assert(self.curves@ =~= old(self).curves@);
                return (Err(e), Ghost(r5));
            }
        }
        (Ok((spent, tokens)), Ghost(r5))
    }
}

// ---- one disbursement ----------------------------------------------------

/// What the runtime answers during a disbursement.
pub struct DisburseReplies {
    pub leg_paid: Result<(), DispatchError>,
    pub pool_leg: Balance,
    pub pool_claimed: Result<(), DispatchError>,
    pub now: BlockNumber,
    pub pending: Balance,
    pub slice: SliceReplies,
}

/// The curve's unclaimed creator fees, if the launch has a curve.
pub open spec fn curve_leg(s: Store, id: LaunchId) -> Balance {
    if s.curves.contains_key(id) {
        s.curves[id].creator_fees_unclaimed
    } else {
        0
    }
}

/// The records once the curve leg was taken.
pub open spec fn leg_taken(s: Store, id: LaunchId) -> Store {
    if s.curves.contains_key(id) {
        s.with_curve(id, fees_taken(s.curves[id]))
    } else {
        s
    }
}

/// Enough blocks have passed since the last slice; the first is never too soon.
pub open spec fn interval_passed(s: Store, id: LaunchId, now: BlockNumber) -> bool {
    s.last_disburse_block.contains_key(id) ==> block_sub(now, s.last_disburse_block[id])
        >= s.constants.min_burn_interval
}

/// Claiming both legs' unclaimed creator fees into the commitment account. The
/// curve without them is handed over first, for the calls that follow.
pub open spec fn claim_legs_run(run: Run, s: Store, id: LaunchId, r: DisburseReplies) -> Run {
    let launch = s.launches[id];
    let commit = derived(s.constants.commit_pallet_id, id);
    let asset = AssetKind::WithId(launch.asset_id);
    run.ensure(s.launches.contains_key(id), Error::LaunchNotFound).ensure(
        launch.commitments.burns(),
        Error::NotCommitted,
    ).call_if(
        curve_leg(s, id) > 0,
        Call::CurveWritten { launch_id: id, curve: fees_taken(s.curves[id]) },
    ).call_if(
        curve_leg(s, id) > 0,
        Call::Transfer {
            from: launch.escrow,
            to: commit,
            amount: curve_leg(s, id),
            keep: Preservation::Preserve,
            reply: r.leg_paid,
        },
    ).call(Call::PoolCreatorFees { asset, reply: r.pool_leg }).call_if(
        r.pool_leg > 0,
        Call::ClaimPoolCreatorFees { who: commit, asset, reply: r.pool_claimed },
    ).call(Call::BlockNumber { reply: r.now }).call(
        Call::ReducibleBalance { who: commit, reply: r.pending },
    )
}

/// Whether a slice is run: there is something to spend and the interval passed.
pub open spec fn slice_due(s: Store, id: LaunchId, r: DisburseReplies) -> bool {
    r.pending > 0 && interval_passed(s, id, r.now)
}

/// A disbursement from the start.
pub open spec fn disburse_run(run: Run, s: Store, id: LaunchId, r: DisburseReplies) -> Run {
    let claimed = claim_legs_run(run, s, id, r);
    if claimed.ok() && slice_due(s, id, r) {
        slice_run(claimed, leg_taken(s, id), id, r.pending, r.slice)
    } else {
        claimed
    }
}

/// What a disbursement did.
pub open spec fn disburse_value(s: Store, id: LaunchId, r: DisburseReplies) -> DisburseOutcome {
    let (spent, burned) = if slice_due(s, id, r) {
        slice_value(leg_taken(s, id), id, r.pending, r.slice)
    } else {
        (0, 0)
    };
    (sat_add(curve_leg(s, id), r.pool_leg), spent, burned, interval_passed(s, id, r.now))
}

/// What a disbursement leaves in the records.
pub open spec fn disburse_store(s: Store, id: LaunchId, r: DisburseReplies) -> Store {
    let s1 = leg_taken(s, id);
    let s2 = if slice_due(s, id, r) {
        slice_store(s1, id, r.pending, r.slice)
    } else {
        s1
    };
    if disburse_value(s, id, r).1 > 0 {
        Store { last_disburse_block: s2.last_disburse_block.insert(id, r.now), ..s2 }
    } else {
        s2
    }
}

/// What `do_disburse` does for given answers.
pub open spec fn disburse_done(
    s0: Store,
    log0: Seq<Call>,
    id: LaunchId,
    r: DisburseReplies,
    result: Result<DisburseOutcome, DispatchError>,
    s1: Store,
    log1: Seq<Call>,
) -> bool {
    let run = disburse_run(Run::from(log0), s0, id, r);
    &&& log1 == run.log
    &&& result == run.result(disburse_value(s0, id, r))
    &&& s1 == if run.ok() {
        disburse_store(s0, id, r)
    } else {
        s0
    }
}

/// What the runtime answers during the `disburse` call.
pub struct DisburseCallReplies {
    pub inner: DisburseReplies,
    pub pending: Balance,
    pub minimum: Balance,
}

/// The `disburse` call from the start: one that neither claimed nor burned is
/// refused.
pub open spec fn disburse_call_run(run: Run, s: Store, id: LaunchId, r: DisburseCallReplies) -> Run {
    let done = disburse_run(run, s, id, r.inner);
    let (claimed, vtrs_burned_in, tokens_burned, interval_ok) = disburse_value(s, id, r.inner);
    if !done.ok() {
        done
    } else if claimed == 0 && vtrs_burned_in == 0 {
        done.call(
            Call::ReducibleBalance {
                who: derived(s.constants.commit_pallet_id, id),
                reply: r.pending,
            },
        ).call_if(!interval_ok, Call::MinimumBalance { reply: r.minimum }).stop(
            Some(
                DispatchError::Module(
                    if !interval_ok && r.pending >= r.minimum {
                        Error::TooSoon
                    } else {
                        Error::NothingToDo
                    },
                ),
            ),
        )
    } else {
        done.event(Event::Disbursed { launch_id: id, claimed, vtrs_burned_in, tokens_burned })
    }
}

/// What the `disburse` call does for given answers.
pub open spec fn disburse_called(
    s0: Store,
    log0: Seq<Call>,
    id: LaunchId,
    r: DisburseCallReplies,
    result: Result<(), DispatchError>,
    s1: Store,
    log1: Seq<Call>,
) -> bool {
    let run = disburse_call_run(Run::from(log0), s0, id, r);
    &&& log1 == run.log
    &&& result == run.result(())
    &&& s1 == if run.ok() {
        disburse_store(s0, id, r.inner)
    } else {
        s0
    }
}

impl<T: Config> Pallet<T> {
    /// Claim both legs. Returns `(claimed, block, pending)`. Leaves the records
    /// to the caller.
    #[verifier::rlimit(40)]
    fn claim_legs(&mut self, launch_id: LaunchId) -> (out: (
        Result<(Balance, BlockNumber, Balance), DispatchError>,
        Ghost<DisburseReplies>,
    ))
        ensures
            final(self).store() == old(self).store(),
            ({
                let s0 = old(self).store();
                let r = out.1@;
                let run = claim_legs_run(Run::from(old(self).log()), s0, launch_id, r);
                &&& final(self).log() == run.log
                &&& out.0 == run.result(
                    (sat_add(curve_leg(s0, launch_id), r.pool_leg), r.now, r.pending),
                )
            }),
    {
        let ghost blank: DisburseReplies = arbitrary();
        let launch = match self.launches.get(&launch_id) {
            Some(l) => *l,
            None => return (Err(DispatchError::Module(Error::LaunchNotFound)), Ghost(blank)),
        };
        if !launch.commitments.burns_fees() {
            return (Err(DispatchError::Module(Error::NotCommitted)), Ghost(blank));
        }
        let commit = self.commit_account(launch_id);
        let mut leg: Balance = 0;
        if let Some(c) = self.curves.get(&launch_id) {
            leg = c.creator_fees_unclaimed;
            if leg > 0 {
                let mut taken = *c;
                taken.creator_fees_unclaimed = 0;
                self.host.curve_written(launch_id, &taken);
            }
        }
        let ghost mut r1 = blank;
        if leg > 0 {
            let leg_paid = self.host.currency_transfer(
                &launch.escrow,
                &commit,
                leg,
                Preservation::Preserve,
            );
            proof {
                r1 = DisburseReplies { leg_paid, ..blank };
            }
            if let Err(e) = leg_paid {
                return (Err(e), Ghost(r1));
            }
        }
        let asset = AssetKind::WithId(launch.asset_id);
        let pool_leg: Balance = self.host.pool_creator_fees_unclaimed(asset);
        let ghost r2 = DisburseReplies { pool_leg, ..r1 };
        let ghost mut r3 = r2;
        if pool_leg > 0 {
            let pool_claimed = self.host.claim_pool_creator_fees(&commit, asset);
            proof {
                r3 = DisburseReplies { pool_claimed, ..r2 };
            }
            if let Err(e) = pool_claimed {
                return (Err(e), Ghost(r3));
            }
        }
        let now: BlockNumber = self.host.block_number();
        let pending: Balance = self.host.currency_reducible_balance(&commit);
        let ghost r4 = DisburseReplies { now, pending, ..r3 };
        (Ok((leg.saturating_add(pool_leg), now, pending)), Ghost(r4))
    }

    /// The body of `do_disburse`, with the runtime's answers to it.
    #[verifier::rlimit(60)]
    pub(crate) fn disburse_inner(&mut self, launch_id: LaunchId) -> (out: (
        Result<DisburseOutcome, DispatchError>,
        Ghost<DisburseReplies>,
    ))
        requires
            old(self).wf(),
        ensures
            final(self).wf(),
            disburse_done(
                old(self).store(),
                old(self).log(),
                launch_id,
                out.1@,
                out.0,
                final(self).store(),
                final(self).log(),
            ),
    {
        let (claimed, legs) = self.claim_legs(launch_id);
        let ghost r1 = legs@;
        let (claimed, now, pending): (Balance, BlockNumber, Balance) = match claimed {
            Ok(v) => v,
            Err(e) => return (Err(e), Ghost(r1)),
        };
        let interval_ok = match self.last_disburse_block.get(&launch_id) {
            Some(last) => now.saturating_sub(*last) >= self.constants.min_burn_interval,
            None => true,
        };
        let saved = match self.curves.get(&launch_id) {
            Some(c) => Some(*c),
            None => None,
        };
        if let Some(state) = saved {
            let mut taken = state;
            taken.creator_fees_unclaimed = 0;
            self.curves.insert(launch_id, taken);
        }
        assert(self.store() == leg_taken(old(self).store(), launch_id));
        let ghost mut r2 = r1;
        let (spent, burned): (Balance, Balance) = if pending > 0 && interval_ok {
            let (sliced, slice) = self.burn_slice(launch_id, pending);
            proof {
                r2 = DisburseReplies { slice: slice@, ..r1 };
            }
            match sliced {
                Ok(v) => v,
                Err(e) => {
                    if let Some(state) = saved {
                        self.curves.insert(launch_id, state);
                    }
                    assert(self.curves@ =~= old(self).curves@);
                    return (Err(e), Ghost(r2));
                },
            }
        } else {
            (0, 0)
        };
        if spent > 0 {
            self.last_disburse_block.insert(launch_id, now);
        }
        (Ok((claimed, spent, burned, interval_ok)), Ghost(r2))
    }

    /// Claim both legs' unclaimed creator fees into the commitment account,
    /// then run at most one burn slice.
    pub fn do_disburse(&mut self, launch_id: LaunchId) -> (result: Result<
        DisburseOutcome,
        DispatchError,
    >)
        requires
            old(self).wf(),
        ensures
            final(self).wf(),
            faithful::<T>(final(self).log()),
            exists|r: DisburseReplies|
                disburse_done(
                    old(self).store(),
                    old(self).log(),
                    launch_id,
                    r,
                    result,
                    final(self).store(),
                    final(self).log(),
                ),
    {
        let out = self.disburse_inner(launch_id);
        self.host.attest();
        out.0
    }

    /// The body of the `disburse` call, with the runtime's answers to it.
    #[verifier::rlimit(60)]
    fn disburse_call_inner(&mut self, launch_id: LaunchId) -> (out: (
        Result<(), DispatchError>,
        Ghost<DisburseCallReplies>,
    ))
        requires
            old(self).wf(),
        ensures
            final(self).wf(),
            disburse_called(
                old(self).store(),
                old(self).log(),
                launch_id,
                out.1@,
                out.0,
                final(self).store(),
                final(self).log(),
            ),
    {
        let ghost blank: DisburseCallReplies = arbitrary();
        let saved = match self.curves.get(&launch_id) {
            Some(c) => Some(*c),
            None => None,
        };
        let (done, inner) = self.disburse_inner(launch_id);
        let ghost r1 = DisburseCallReplies { inner: inner@, ..blank };
        let (claimed, vtrs_burned_in, tokens_burned, interval_ok): DisburseOutcome = match done {
            Ok(v) => v,
            Err(e) => return (Err(e), Ghost(r1)),
        };
        if claimed == 0 && vtrs_burned_in == 0 {
            let commit = self.commit_account(launch_id);
            let pending: Balance = self.host.currency_reducible_balance(&commit);
            let ghost r2 = DisburseCallReplies { pending, ..r1 };
            let ghost mut r3 = r2;
            let mut too_soon = false;
            if !interval_ok {
                let minimum: Balance = self.host.currency_minimum_balance();
                proof {
                    r3 = DisburseCallReplies { minimum, ..r2 };
                }
                too_soon = pending >= minimum;
            }
            if let Some(state) = saved {
                self.curves.insert(launch_id, state);
            }
            assert(self.curves@ =~= old(self).curves@);
            let error = if too_soon {
                Error::TooSoon
            } else {
                Error::NothingToDo
            };
            return (Err(DispatchError::Module(error)), Ghost(r3));
        }
        self.host.deposit_event(
            Event::Disbursed { launch_id, claimed, vtrs_burned_in, tokens_burned },
        );
        (Ok(()), Ghost(r1))
    }

    /// Claim a committed launch's creator fees into its commitment account and
    /// burn one capped slice. Anyone; nothing is paid to the caller.
    pub fn disburse(&mut self, origin: Origin, launch_id: LaunchId) -> (result: Result<
        (),
        DispatchError,
    >)
        requires
            old(self).wf(),
        ensures
            final(self).wf(),
            faithful::<T>(final(self).log()),
            match origin {
                Origin::Signed(_) => exists|r: DisburseCallReplies|
                    disburse_called(
                        old(self).store(),
                        old(self).log(),
                        launch_id,
                        r,
                        result,
                        final(self).store(),
                        final(self).log(),
                    ),
                _ => {
                    &&& result == Err::<(), _>(DispatchError::BadOrigin)
                    &&& final(self).store() == old(self).store()
                    &&& final(self).log() == old(self).log()
                },
            },
    {
        let result = match origin {
            Origin::Signed(_) => self.disburse_call_inner(launch_id).0,
            _ => Err(DispatchError::BadOrigin),
        };
        self.host.attest();
        result
    }
}

} // verus!
