//! What governance may do: set the terms of later launches, pause creation,
//! and rescue a launch whose pool already holds liquidity.
use crate::BPS;
use crate::config::{faithful, Call, Config, Constants, Run};
use crate::event::Event;
use crate::pallet::{Pallet, Store};
use crate::pallet::terms::{params_in_bounds, reserved_tokens, share, share_of};
use crate::pallet::trade::{graduated, mark_graduated};
use crate::records::{CurveState, Launch, LaunchParams, Phase};
use crate::types::{
    block_add, sat_sub, AssetKind, Balance, BlockNumber, DispatchError, Error, LaunchId, Origin,
    Preservation,
};
use vstd::prelude::*;

verus! {

broadcast use vstd::std_specs::btree::group_btree_axioms;

/// Setting the live parameters.
pub open spec fn set_params_run(
    run: Run,
    c: Constants,
    origin: Origin,
    new: LaunchParams<Balance>,
    allowed: Result<(), DispatchError>,
) -> Run {
    run.call(Call::EnsureManageOrigin { origin, reply: allowed }).ensure(
        params_in_bounds(c, new),
        Error::ParamsOutOfBounds,
    ).event(Event::ParamsUpdated { params: new })
}

/// What `set_params` does for a given answer.
pub open spec fn set_params_done(
    s0: Store,
    log0: Seq<Call>,
    origin: Origin,
    new: LaunchParams<Balance>,
    allowed: Result<(), DispatchError>,
    result: Result<(), DispatchError>,
    s1: Store,
    log1: Seq<Call>,
) -> bool {
    let run = set_params_run(Run::from(log0), s0.constants, origin, new, allowed);
    &&& log1 == run.log
    &&& result == run.result(())
    &&& s1 == if run.ok() {
        Store { params: Some(new), ..s0 }
    } else {
        s0
    }
}

/// Pausing creation, or letting it go on.
pub open spec fn set_paused_run(
    run: Run,
    origin: Origin,
    paused: bool,
    allowed: Result<(), DispatchError>,
) -> Run {
    run.call(Call::EnsureManageOrigin { origin, reply: allowed }).event(
        Event::CreationPausedSet { paused },
    )
}

/// What `set_creation_paused` does for a given answer.
pub open spec fn set_paused_done(
    s0: Store,
    log0: Seq<Call>,
    origin: Origin,
    paused: bool,
    allowed: Result<(), DispatchError>,
    result: Result<(), DispatchError>,
    s1: Store,
    log1: Seq<Call>,
) -> bool {
    let run = set_paused_run(Run::from(log0), origin, paused, allowed);
    &&& log1 == run.log
    &&& result == run.result(())
    &&& s1 == if run.ok() {
        Store { creation_paused: paused, ..s0 }
    } else {
        s0
    }
}

// ---- rescue --------------------------------------------------------------

/// What the runtime answers until a rescue may go ahead.
pub struct DueReplies {
    pub allowed: Result<(), DispatchError>,
    pub now: BlockNumber,
    pub pool: bool,
}

/// What the runtime answers while a rescue deposits.
pub struct DepositReplies {
    pub quote_before: Balance,
    pub tokens_before: Balance,
    pub shares: Result<Balance, DispatchError>,
    pub locked: Result<(), DispatchError>,
    pub quote_after: Balance,
    pub tokens_after: Balance,
}

impl DepositReplies {
    /// The quote that the pool took, as measured.
    pub open spec fn quote_spent(self) -> Balance {
        sat_sub(self.quote_before, self.quote_after)
    }

    /// The tokens that the pool took, as measured.
    pub open spec fn tokens_spent(self) -> Balance {
        sat_sub(self.tokens_before, self.tokens_after)
    }
}

/// What the runtime answers during a rescue.
pub struct RescueReplies {
    pub due: DueReplies,
    pub deposit: DepositReplies,
    pub quote_swept: Result<(), DispatchError>,
    pub tokens_swept: Result<(), DispatchError>,
}

/// The least of an amount that a rescue lets the pool take.
pub open spec fn kept(amount: Balance, deviation_bps: u16) -> Balance {
    share_of(amount, (BPS - deviation_bps) as u16)
}

/// A rescue until it may go ahead.
pub open spec fn rescue_due_run(
    run: Run,
    s: Store,
    origin: Origin,
    id: LaunchId,
    deviation_bps: u16,
    r: DueReplies,
) -> Run {
    let state = s.curves[id];
    run.call(Call::EnsureManageOrigin { origin, reply: r.allowed }).ensure(
        deviation_bps <= BPS,
        Error::ParamsOutOfBounds,
    ).ensure(s.has(id), Error::LaunchNotFound).ensure(
        state.phase == Phase::Complete && state.completed_at is Some,
        Error::WrongPhase,
    ).call(Call::BlockNumber { reply: r.now }).ensure(
        r.now >= block_add(state.completed_at->0, s.constants.rescue_delay),
        Error::RescueNotDue,
    ).call(
        Call::PoolExists {
            a: AssetKind::Native,
            b: AssetKind::WithId(s.launches[id].asset_id),
            reply: r.pool,
        },
    ).ensure(r.pool, Error::PoolNotFound)
}

/// Depositing a launch's amounts into its existing pool, for good.
pub open spec fn deposit_run(
    run: Run,
    c: Constants,
    launch: Launch,
    quote: Balance,
    deviation_bps: u16,
    r: DepositReplies,
) -> Run {
    let asset = AssetKind::WithId(launch.asset_id);
    run.call(Call::CurrencyBalance { who: launch.escrow, reply: r.quote_before }).call(
        Call::AssetBalance {
            asset: launch.asset_id,
            who: launch.escrow,
            reply: r.tokens_before,
        },
    ).call(
        Call::AddLiquidity {
            who: launch.escrow,
            a: asset,
            b: AssetKind::Native,
            amount_a: reserved_tokens(c),
            amount_b: quote,
            min_a: kept(reserved_tokens(c), deviation_bps),
            min_b: kept(quote, deviation_bps),
            reply: r.shares,
        },
    ).call(
        Call::LockLiquidity {
            who: launch.escrow,
            a: asset,
            b: AssetKind::Native,
            until: u32::MAX,
            reply: r.locked,
        },
    ).call(Call::CurrencyBalance { who: launch.escrow, reply: r.quote_after }).call(
        Call::AssetBalance { asset: launch.asset_id, who: launch.escrow, reply: r.tokens_after },
    )
}

/// Sweeping what the pool did not take to the treasury.
pub open spec fn sweep_run(
    run: Run,
    c: Constants,
    launch: Launch,
    quote_left: Balance,
    tokens_left: Balance,
    quote_swept: Result<(), DispatchError>,
    tokens_swept: Result<(), DispatchError>,
) -> Run {
    run.call_if(
        quote_left > 0,
        Call::Transfer {
            from: launch.escrow,
            to: c.treasury,
            amount: quote_left,
            keep: Preservation::Preserve,
            reply: quote_swept,
        },
    ).call_if(
        tokens_left > 0,
        Call::AssetTransfer {
            asset: launch.asset_id,
            from: launch.escrow,
            to: c.treasury,
            amount: tokens_left,
            keep: Preservation::Expendable,
            reply: tokens_swept,
        },
    )
}

/// A rescue from the start.
pub open spec fn rescue_run(
    run: Run,
    s: Store,
    origin: Origin,
    id: LaunchId,
    deviation_bps: u16,
    r: RescueReplies,
) -> Run {
    let launch = s.launches[id];
    let quote = s.curves[id].real_quote;
    sweep_run(
        deposit_run(
            rescue_due_run(run, s, origin, id, deviation_bps, r.due),
            s.constants,
            launch,
            quote,
            deviation_bps,
            r.deposit,
        ),
        s.constants,
        launch,
        sat_sub(quote, r.deposit.quote_spent()),
        sat_sub(reserved_tokens(s.constants), r.deposit.tokens_spent()),
        r.quote_swept,
        r.tokens_swept,
    ).event(
        Event::ForceSeeded {
            launch_id: id,
            deviation_bps,
            shares: r.deposit.shares->Ok_0,
        },
    ).event(
        Event::Graduated {
            launch_id: id,
            quote_seeded: r.deposit.quote_spent(),
            tokens_seeded: r.deposit.tokens_spent(),
            shares: r.deposit.shares->Ok_0,
        },
    )
}

/// What a rescue does for given answers.
pub open spec fn rescue_done(
    s0: Store,
    log0: Seq<Call>,
    origin: Origin,
    id: LaunchId,
    deviation_bps: u16,
    r: RescueReplies,
    result: Result<(), DispatchError>,
    s1: Store,
    log1: Seq<Call>,
) -> bool {
    let run = rescue_run(Run::from(log0), s0, origin, id, deviation_bps, r);
    &&& log1 == run.log
    &&& result == run.result(())
    &&& s1 == if run.ok() {
        s0.with_curve(id, graduated(s0.curves[id], r.deposit.shares->Ok_0, r.due.now))
    } else {
        s0
    }
}

impl<T: Config> Pallet<T> {
    /// Set the live parameters. Affects launches created afterwards only.
    pub fn set_params(&mut self, origin: Origin, new: LaunchParams<Balance>) -> (result: Result<
        (),
        DispatchError,
    >)
        requires
            old(self).wf(),
        ensures
            final(self).wf(),
            faithful::<T>(final(self).log()),
            exists|allowed: Result<(), DispatchError>|
                set_params_done(
                    old(self).store(),
                    old(self).log(),
                    origin,
                    new,
                    allowed,
                    result,
                    final(self).store(),
                    final(self).log(),
                ),
    {
        let ghost s0 = self.store();
        let ghost log0 = self.log();
        let allowed = self.host.ensure_manage_origin(&origin);
        if let Err(e) = allowed {
            assert(set_params_done(
                s0,
                log0,
                origin,
                new,
                allowed,
                Err(e),
                self.store(),
                self.log(),
            ));
            self.host.attest();
            return Err(e);
        }
        if let Err(e) = self.validate_params(&new) {
            assert(set_params_done(
                s0,
                log0,
                origin,
                new,
                allowed,
                Err(e),
                self.store(),
                self.log(),
            ));
            self.host.attest();
            return Err(e);
        }
        self.params = Some(new);
        self.host.deposit_event(Event::ParamsUpdated { params: new });
        assert(set_params_done(s0, log0, origin, new, allowed, Ok(()), self.store(), self.log()));
        self.host.attest();
        Ok(())
    }

    /// Pause creation, or let it go on. Never affects buy, sell or graduate.
    pub fn set_creation_paused(&mut self, origin: Origin, paused: bool) -> (result: Result<
        (),
        DispatchError,
    >)
        requires
            old(self).wf(),
        ensures
            final(self).wf(),
            faithful::<T>(final(self).log()),
            exists|allowed: Result<(), DispatchError>|
                set_paused_done(
                    old(self).store(),
                    old(self).log(),
                    origin,
                    paused,
                    allowed,
                    result,
                    final(self).store(),
                    final(self).log(),
                ),
    {
        let ghost s0 = self.store();
        let ghost log0 = self.log();
        let allowed = self.host.ensure_manage_origin(&origin);
        if let Err(e) = allowed {
            assert(set_paused_done(
                s0,
                log0,
                origin,
                paused,
                allowed,
                Err(e),
                self.store(),
                self.log(),
            ));
            self.host.attest();
            return Err(e);
        }
        self.creation_paused = paused;
        self.host.deposit_event(Event::CreationPausedSet { paused });
        assert(set_paused_done(
            s0,
            log0,
            origin,
            paused,
            allowed,
            Ok(()),
            self.store(),
            self.log(),
        ));
        self.host.attest();
        Ok(())
    }

    /// Whether a rescue may go ahead. Returns both records and the block.
    #[verifier::rlimit(40)]
    fn rescue_due(&mut self, origin: &Origin, launch_id: LaunchId, deviation_bps: u16) -> (out: (
        Result<(Launch, CurveState, BlockNumber), DispatchError>,
        Ghost<DueReplies>,
    ))
        ensures
            final(self).store() == old(self).store(),
            ({
                let s0 = old(self).store();
                let run = rescue_due_run(
                    Run::from(old(self).log()),
                    s0,
                    *origin,
                    launch_id,
                    deviation_bps,
                    out.1@,
                );
                &&& final(self).log() == run.log
                &&& out.0 == run.result(
                    (s0.launches[launch_id], s0.curves[launch_id], out.1@.now),
                )
            }),
    {
        let ghost blank: DueReplies = arbitrary();
        let allowed = self.host.ensure_manage_origin(origin);
        let ghost r1 = DueReplies { allowed, ..blank };
        if let Err(e) = allowed {
            return (Err(e), Ghost(r1));
        }
        if deviation_bps > BPS {
            return (Err(DispatchError::Module(Error::ParamsOutOfBounds)), Ghost(r1));
        }
        let launch = match self.launches.get(&launch_id) {
            Some(l) => *l,
            None => return (Err(DispatchError::Module(Error::LaunchNotFound)), Ghost(r1)),
        };
        let state = match self.curves.get(&launch_id) {
            Some(c) => *c,
            None => return (Err(DispatchError::Module(Error::LaunchNotFound)), Ghost(r1)),
        };
        if state.phase != Phase::Complete {
            return (Err(DispatchError::Module(Error::WrongPhase)), Ghost(r1));
        }
        let completed_at: BlockNumber = match state.completed_at {
            Some(b) => b,
            None => return (Err(DispatchError::Module(Error::WrongPhase)), Ghost(r1)),
        };
        let now: BlockNumber = self.host.block_number();
        let ghost r2 = DueReplies { now, ..r1 };
        if now < completed_at.saturating_add(self.constants.rescue_delay) {
            return (Err(DispatchError::Module(Error::RescueNotDue)), Ghost(r2));
        }
        let pool = self.host.pool_exists(AssetKind::Native, AssetKind::WithId(launch.asset_id));
        let ghost r3 = DueReplies { pool, ..r2 };
        if !pool {
            return (Err(DispatchError::Module(Error::PoolNotFound)), Ghost(r3));
        }
        (Ok((launch, state, now)), Ghost(r3))
    }

    /// Deposit a launch's amounts into its existing pool and lock the position
    /// forever. Returns `(shares, quote spent, tokens spent)`.
    #[verifier::rlimit(40)]
    fn deposit(&mut self, launch: &Launch, quote: Balance, deviation_bps: u16) -> (out: (
        Result<(Balance, Balance, Balance), DispatchError>,
        Ghost<DepositReplies>,
    ))
        requires
            deviation_bps <= BPS,
        ensures
            final(self).store() == old(self).store(),
            ({
                let r = out.1@;
                let run = deposit_run(
                    Run::from(old(self).log()),
                    old(self).constants,
                    *launch,
                    quote,
                    deviation_bps,
                    r,
                );
                &&& final(self).log() == run.log
                &&& out.0 == run.result((r.shares->Ok_0, r.quote_spent(), r.tokens_spent()))
            }),
    {
        let ghost blank: DepositReplies = arbitrary();
        let reserved: Balance = self.reserved();
        let asset = AssetKind::WithId(launch.asset_id);
        let keep: u16 = BPS - deviation_bps;
        let quote_before: Balance = self.host.currency_balance(&launch.escrow);
        let tokens_before: Balance = self.host.asset_balance(launch.asset_id, &launch.escrow);
        let added = self.host.add_liquidity_for(
            &launch.escrow,
            asset,
            AssetKind::Native,
            reserved,
            quote,
            share(reserved, keep),
            share(quote, keep),
        );
        let ghost r1 = DepositReplies { quote_before, tokens_before, shares: added, ..blank };
        let shares: Balance = match added {
            Ok(s) => s,
            Err(DispatchError::DexSlippageExceeded) => return (
                Err(DispatchError::Module(Error::PriceOutOfTolerance)),
                Ghost(r1),
            ),
            Err(e) => return (Err(e), Ghost(r1)),
        };
        let locked = self.host.lock_liquidity_for(
            &launch.escrow,
            asset,
            AssetKind::Native,
            u32::MAX,
        );
        let ghost r2 = DepositReplies { locked, ..r1 };
        if let Err(e) = locked {
            return (Err(e), Ghost(r2));
        }
        let quote_after: Balance = self.host.currency_balance(&launch.escrow);
        let tokens_after: Balance = self.host.asset_balance(launch.asset_id, &launch.escrow);
        let ghost r3 = DepositReplies { quote_after, tokens_after, ..r2 };
        (
            Ok(
                (
                    shares,
                    quote_before.saturating_sub(quote_after),
                    tokens_before.saturating_sub(tokens_after),
                ),
            ),
            Ghost(r3),
        )
    }

    /// The body of the rescue, with the runtime's answers to it.
    #[verifier::rlimit(60)]
    fn rescue_inner(&mut self, origin: &Origin, launch_id: LaunchId, deviation_bps: u16) -> (out: (
        Result<(), DispatchError>,
        Ghost<RescueReplies>,
    ))
        requires
            old(self).wf(),
        ensures
            final(self).wf(),
            rescue_done(
                old(self).store(),
                old(self).log(),
                *origin,
                launch_id,
                deviation_bps,
                out.1@,
                out.0,
                final(self).store(),
                final(self).log(),
            ),
    {
        let ghost blank: RescueReplies = arbitrary();
        let (due, due_replies) = self.rescue_due(origin, launch_id, deviation_bps);
        let ghost r1 = RescueReplies { due: due_replies@, ..blank };
        let (launch, state, now) = match due {
            Ok(v) => v,
            Err(e) => return (Err(e), Ghost(r1)),
        };
        let (deposited, deposit_replies) = self.deposit(&launch, state.real_quote, deviation_bps);
        let ghost r2 = RescueReplies { deposit: deposit_replies@, ..r1 };
        let (shares, quote_spent, tokens_spent): (Balance, Balance, Balance) = match deposited {
            Ok(v) => v,
            Err(e) => return (Err(e), Ghost(r2)),
        };
        let quote_left: Balance = state.real_quote.saturating_sub(quote_spent);
        let tokens_left: Balance = self.reserved().saturating_sub(tokens_spent);
        let ghost mut r3 = r2;
        if quote_left > 0 {
            let quote_swept = self.host.currency_transfer(
                &launch.escrow,
                &self.constants.treasury,
                quote_left,
                Preservation::Preserve,
            );
            proof {
                r3 = RescueReplies { quote_swept, ..r2 };
            }
            if let Err(e) = quote_swept {
                return (Err(e), Ghost(r3));
            }
        }
        let ghost mut r4 = r3;
        if tokens_left > 0 {
            let tokens_swept = self.host.asset_transfer(
                launch.asset_id,
                &launch.escrow,
                &self.constants.treasury,
                tokens_left,
                Preservation::Expendable,
            );
            proof {
                r4 = RescueReplies { tokens_swept, ..r3 };
            }
            if let Err(e) = tokens_swept {
                return (Err(e), Ghost(r4));
            }
        }
        self.curves.insert(launch_id, mark_graduated(&state, shares, now));
        self.host.deposit_event(Event::ForceSeeded { launch_id, deviation_bps, shares });
        self.host.deposit_event(
            Event::Graduated {
                launch_id,
                quote_seeded: quote_spent,
                tokens_seeded: tokens_spent,
                shares,
            },
        );
        (Ok(()), Ghost(r4))
    }

    /// Governance rescue for a launch whose DEX pool already holds liquidity.
    /// Deposits the stored amounts into that pool at its price, requiring the
    /// realised amounts to stay within `max_price_deviation_bps` of the stored
    /// ones, locks the position forever, sweeps the unused remainder to the
    /// treasury. The only fund movement is escrow to pool or treasury.
    pub fn force_seed_into_existing_pool(
        &mut self,
        origin: Origin,
        launch_id: LaunchId,
        max_price_deviation_bps: u16,
    ) -> (result: Result<(), DispatchError>)
        requires
            old(self).wf(),
        ensures
            final(self).wf(),
            faithful::<T>(final(self).log()),
            exists|r: RescueReplies|
                rescue_done(
                    old(self).store(),
                    old(self).log(),
                    origin,
                    launch_id,
                    max_price_deviation_bps,
                    r,
                    result,
                    final(self).store(),
                    final(self).log(),
                ),
    {
        let out = self.rescue_inner(&origin, launch_id, max_price_deviation_bps);
        self.host.attest();
        out.0
    }
}

} // verus!
