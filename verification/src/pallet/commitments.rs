//! Creator fees and commitments: who is paid a launch's creator share, and
//! what a creator who bound it instead has bound.
use crate::accounts::derived;
use crate::config::{faithful, Call, Config, Constants, Run};
use crate::event::Event;
use crate::pallet::{Pallet, Store};
use crate::pallet::terms::vested_at;
use crate::records::{CurveState, Launch, LaunchMetadata, LockSchedule, LockState};
use crate::types::{
    block_add, sat_add, sat_sub, AccountId, Balance, BlockNumber, DispatchError, Error, LaunchId,
    Origin, Preservation,
};
use vstd::prelude::*;

verus! {

broadcast use vstd::std_specs::btree::group_btree_axioms;

// ---- claiming ------------------------------------------------------------

/// A curve state whose creator fees were taken.
pub open spec fn fees_taken(state: CurveState) -> CurveState {
    CurveState { creator_fees_unclaimed: 0, ..state }
}

/// Claiming a launch's creator fees.
pub open spec fn claim_run(
    run: Run,
    s: Store,
    who: AccountId,
    id: LaunchId,
    paid: Result<(), DispatchError>,
) -> Run {
    let launch = s.launches[id];
    let amount = s.curves[id].creator_fees_unclaimed;
    run.ensure(s.launches.contains_key(id), Error::LaunchNotFound).ensure(
        who == launch.creator_fee_recipient,
        Error::NotFeeRecipient,
    ).ensure(!launch.commitments.burns(), Error::Committed).ensure(
        s.curves.contains_key(id),
        Error::LaunchNotFound,
    ).ensure(amount != 0, Error::ZeroAmount).call(
        Call::Transfer {
            from: launch.escrow,
            to: who,
            amount,
            keep: Preservation::Preserve,
            reply: paid,
        },
    ).event(Event::CreatorFeesClaimed { launch_id: id, recipient: who, amount })
}

/// What `claim_creator_fees` does for a given answer.
pub open spec fn claim_done(
    s0: Store,
    log0: Seq<Call>,
    who: AccountId,
    id: LaunchId,
    paid: Result<(), DispatchError>,
    result: Result<(), DispatchError>,
    s1: Store,
    log1: Seq<Call>,
) -> bool {
    let run = claim_run(Run::from(log0), s0, who, id, paid);
    &&& log1 == run.log
    &&& result == run.result(())
    &&& s1 == if run.ok() {
        s0.with_curve(id, fees_taken(s0.curves[id]))
    } else {
        s0
    }
}

/// Naming another fee recipient.
pub open spec fn recipient_run(run: Run, s: Store, who: AccountId, id: LaunchId, new: AccountId) -> Run {
    run.ensure(s.launches.contains_key(id), Error::LaunchNotFound).ensure(
        who == s.launches[id].creator_fee_recipient,
        Error::NotFeeRecipient,
    ).event(
        Event::CreatorFeeRecipientChanged {
            launch_id: id,
            old_recipient: s.launches[id].creator_fee_recipient,
            new,
        },
    )
}

/// Writing a launch's metadata.
pub open spec fn metadata_run(run: Run, s: Store, who: AccountId, id: LaunchId) -> Run {
    run.ensure(s.launches.contains_key(id), Error::LaunchNotFound).ensure(
        who == s.launches[id].creator_fee_recipient,
        Error::NotFeeRecipient,
    ).event(Event::LaunchMetadataSet { launch_id: id })
}

// ---- locks ---------------------------------------------------------------

/// The lock that a schedule and a tranche make.
pub open spec fn lock_of(
    amount: Balance,
    schedule: LockSchedule<BlockNumber>,
    now: BlockNumber,
) -> LockState<Balance, BlockNumber> {
    let cliff_end = block_add(now, schedule.cliff);
    LockState { total: amount, released: 0, cliff_end, vest_end: block_add(cliff_end, schedule.vest) }
}

/// Moving a tranche of the launch token to the lock account.
pub open spec fn lock_run(
    run: Run,
    c: Constants,
    launch: Launch,
    id: LaunchId,
    amount: Balance,
    schedule: LockSchedule<BlockNumber>,
    now: BlockNumber,
    moved: Result<(), DispatchError>,
) -> Run {
    let lock = lock_of(amount, schedule, now);
    run.ensure(amount != 0, Error::LockWithoutPosition).call(
        Call::AssetTransfer {
            asset: launch.asset_id,
            from: launch.creator,
            to: derived(c.lock_pallet_id, id),
            amount,
            keep: Preservation::Expendable,
            reply: moved,
        },
    ).event(
        Event::Locked {
            launch_id: id,
            amount,
            cliff_end: lock.cliff_end,
            vest_end: lock.vest_end,
        },
    )
}

/// What the runtime answers while vested tokens are released.
pub struct ReleaseReplies {
    pub now: BlockNumber,
    pub moved: Result<(), DispatchError>,
}

/// What is due of a lock at a block.
pub open spec fn due_at(lock: LockState<Balance, BlockNumber>, now: BlockNumber) -> Balance {
    sat_sub(vested_at(lock, now), lock.released)
}

/// Releasing what has vested of a lock.
pub open spec fn release_run(
    run: Run,
    s: Store,
    who: AccountId,
    id: LaunchId,
    r: ReleaseReplies,
) -> Run {
    let launch = s.launches[id];
    let amount = due_at(s.locks[id], r.now);
    run.ensure(s.launches.contains_key(id), Error::LaunchNotFound).ensure(
        who == launch.creator,
        Error::NotFeeRecipient,
    ).call(Call::BlockNumber { reply: r.now }).ensure(
        s.locks.contains_key(id),
        Error::NotCommitted,
    ).ensure(amount != 0, Error::NothingVested).call(
        Call::AssetTransfer {
            asset: launch.asset_id,
            from: derived(s.constants.lock_pallet_id, id),
            to: who,
            amount,
            keep: Preservation::Expendable,
            reply: r.moved,
        },
    ).event(Event::LockReleased { launch_id: id, amount })
}

/// A lock after `due` more of it was released.
pub open spec fn released_more(
    lock: LockState<Balance, BlockNumber>,
    due: Balance,
) -> LockState<Balance, BlockNumber> {
    LockState { released: sat_add(lock.released, due), ..lock }
}

/// What `claim_locked` does for given answers.
pub open spec fn release_done(
    s0: Store,
    log0: Seq<Call>,
    who: AccountId,
    id: LaunchId,
    r: ReleaseReplies,
    result: Result<(), DispatchError>,
    s1: Store,
    log1: Seq<Call>,
) -> bool {
    let run = release_run(Run::from(log0), s0, who, id, r);
    &&& log1 == run.log
    &&& result == run.result(())
    &&& s1 == if run.ok() {
        Store {
            locks: s0.locks.insert(id, released_more(s0.locks[id], due_at(s0.locks[id], r.now))),
            ..s0
        }
    } else {
        s0
    }
}

impl<T: Config> Pallet<T> {
    /// Pay the unclaimed creator fees to the fee recipient, who alone may ask.
    /// A committed stream is never paid to a person.
    pub fn claim_creator_fees(&mut self, origin: Origin, launch_id: LaunchId) -> (result: Result<
        (),
        DispatchError,
    >)
        requires
            old(self).wf(),
        ensures
            final(self).wf(),
            faithful::<T>(final(self).log()),
            match origin {
                Origin::Signed(who) => exists|paid: Result<(), DispatchError>|
                    claim_done(
                        old(self).store(),
                        old(self).log(),
                        who,
                        launch_id,
                        paid,
                        result,
                        final(self).store(),
                        final(self).log(),
                    ),
                _ => {
                    &&& result == Err::<(), _>(DispatchError::BadOrigin)
                    &&& final(self).store() == old(self).store()
                    &&& final(self).log() == old(self).log()
                },
            },
    {
        let result = match origin {
            Origin::Signed(who) => self.claim_inner(&who, launch_id).0,
            _ => Err(DispatchError::BadOrigin),
        };
        self.host.attest();
        result
    }

    /// The body of `claim_creator_fees`, with the runtime's answer to it.
    fn claim_inner(&mut self, who: &AccountId, launch_id: LaunchId) -> (out: (
        Result<(), DispatchError>,
        Ghost<Result<(), DispatchError>>,
    ))
        requires
            old(self).wf(),
        ensures
            final(self).wf(),
            claim_done(
                old(self).store(),
                old(self).log(),
                *who,
                launch_id,
                out.1@,
                out.0,
                final(self).store(),
                final(self).log(),
            ),
    {
        let ghost blank: Result<(), DispatchError> = arbitrary();
        let launch = match self.launches.get(&launch_id) {
            Some(l) => *l,
            None => return (Err(DispatchError::Module(Error::LaunchNotFound)), Ghost(blank)),
        };
        if *who != launch.creator_fee_recipient {
            return (Err(DispatchError::Module(Error::NotFeeRecipient)), Ghost(blank));
        }
        if launch.commitments.burns_fees() {
            return (Err(DispatchError::Module(Error::Committed)), Ghost(blank));
        }
        let mut state = match self.curves.get(&launch_id) {
            Some(c) => *c,
            None => return (Err(DispatchError::Module(Error::LaunchNotFound)), Ghost(blank)),
        };
        let amount: Balance = state.creator_fees_unclaimed;
        if amount == 0 {
            return (Err(DispatchError::Module(Error::ZeroAmount)), Ghost(blank));
        }
        let paid = self.host.currency_transfer(
            &launch.escrow,
            who,
            amount,
            Preservation::Preserve,
        );
        if let Err(e) = paid {
            return (Err(e), Ghost(paid));
        }
        state.creator_fees_unclaimed = 0;
        self.curves.insert(launch_id, state);
        self.host.deposit_event(Event::CreatorFeesClaimed { launch_id, recipient: *who, amount });
        (Ok(()), Ghost(paid))
    }

    /// Name another fee recipient. Only the current recipient; no governance
    /// override.
    pub fn set_creator_fee_recipient(
        &mut self,
        origin: Origin,
        launch_id: LaunchId,
        new: AccountId,
    ) -> (result: Result<(), DispatchError>)
        requires
            old(self).wf(),
        ensures
            final(self).wf(),
            faithful::<T>(final(self).log()),
            match origin {
                Origin::Signed(who) => {
                    let run = recipient_run(
                        Run::from(old(self).log()),
                        old(self).store(),
                        who,
                        launch_id,
                        new,
                    );
                    &&& result == run.result(())
                    &&& final(self).log() == run.log
                    &&& final(self).store() == if run.ok() {
                        Store {
                            launches: old(self).store().launches.insert(
                                launch_id,
                                Launch {
                                    creator_fee_recipient: new,
                                    ..old(self).store().launches[launch_id]
                                },
                            ),
                            ..old(self).store()
                        }
                    } else {
                        old(self).store()
                    }
                },
                _ => {
                    &&& result == Err::<(), _>(DispatchError::BadOrigin)
                    &&& final(self).store() == old(self).store()
                    &&& final(self).log() == old(self).log()
                },
            },
    {
        self.host.attest();
        let who = match origin {
            Origin::Signed(who) => who,
            _ => return Err(DispatchError::BadOrigin),
        };
        let mut launch = match self.launches.get(&launch_id) {
            Some(l) => *l,
            None => return Err(DispatchError::Module(Error::LaunchNotFound)),
        };
        if who != launch.creator_fee_recipient {
            return Err(DispatchError::Module(Error::NotFeeRecipient));
        }
        let old_recipient = launch.creator_fee_recipient;
        launch.creator_fee_recipient = new;
        self.host.deposit_event(
            Event::CreatorFeeRecipientChanged { launch_id, old_recipient, new },
        );
        self.launches.insert(launch_id, launch);
        self.host.attest();
        Ok(())
    }

    /// Replace a launch's presentation metadata. Same authority as
    /// `set_creator_fee_recipient`. Allowed in every phase. Nothing is
    /// validated.
    pub fn set_launch_metadata(
        &mut self,
        origin: Origin,
        launch_id: LaunchId,
        metadata: LaunchMetadata,
    ) -> (result: Result<(), DispatchError>)
        requires
            old(self).wf(),
            metadata.within(old(self).constants.uri_limit, old(self).constants.description_limit),
        ensures
            final(self).wf(),
            faithful::<T>(final(self).log()),
            match origin {
                Origin::Signed(who) => {
                    let run = metadata_run(
                        Run::from(old(self).log()),
                        old(self).store(),
                        who,
                        launch_id,
                    );
                    &&& result == run.result(())
                    &&& final(self).log() == run.log
                    &&& final(self).store() == if run.ok() {
                        Store {
                            metadata: old(self).store().metadata.insert(launch_id, metadata),
                            ..old(self).store()
                        }
                    } else {
                        old(self).store()
                    }
                },
                _ => {
                    &&& result == Err::<(), _>(DispatchError::BadOrigin)
                    &&& final(self).store() == old(self).store()
                    &&& final(self).log() == old(self).log()
                },
            },
    {
        self.host.attest();
        let who = match origin {
            Origin::Signed(who) => who,
            _ => return Err(DispatchError::BadOrigin),
        };
        match self.launches.get(&launch_id) {
            Some(l) => if who != l.creator_fee_recipient {
                return Err(DispatchError::Module(Error::NotFeeRecipient));
            },
            None => return Err(DispatchError::Module(Error::LaunchNotFound)),
        }
        self.metadata.insert(launch_id, metadata);
        self.host.deposit_event(Event::LaunchMetadataSet { launch_id });
        self.host.attest();
        Ok(())
    }

    /// Move `amount` of the launch token from the creator to the lock account
    /// and record the schedule. Called once, inside `create_launch`.
    pub(crate) fn lock_tranche(
        &mut self,
        launch: &Launch,
        id: LaunchId,
        amount: Balance,
        schedule: LockSchedule<BlockNumber>,
        now: BlockNumber,
    ) -> (out: (Result<(), DispatchError>, Ghost<Result<(), DispatchError>>))
        ensures
            ({
                let run = lock_run(
                    Run::from(old(self).log()),
                    old(self).constants,
                    *launch,
                    id,
                    amount,
                    schedule,
                    now,
                    out.1@,
                );
                &&& final(self).log() == run.log
                &&& out.0 == run.result(())
                &&& final(self).store() == if run.ok() {
                    Store {
                        locks: old(self).store().locks.insert(id, lock_of(amount, schedule, now)),
                        ..old(self).store()
                    }
                } else {
                    old(self).store()
                }
            }),
    {
        let ghost blank: Result<(), DispatchError> = arbitrary();
        if amount == 0 {
            return (Err(DispatchError::Module(Error::LockWithoutPosition)), Ghost(blank));
        }
        let lock = self.lock_account(id);
        let moved = self.host.asset_transfer(
            launch.asset_id,
            &launch.creator,
            &lock,
            amount,
            Preservation::Expendable,
        );
        if let Err(e) = moved {
            return (Err(e), Ghost(moved));
        }
        let cliff_end: BlockNumber = now.saturating_add(schedule.cliff);
        let vest_end: BlockNumber = cliff_end.saturating_add(schedule.vest);
        self.locks.insert(id, LockState { total: amount, released: 0, cliff_end, vest_end });
        self.host.deposit_event(Event::Locked { launch_id: id, amount, cliff_end, vest_end });
        (Ok(()), Ghost(moved))
    }

    /// Release what has vested of the locked tranche to the creator. Creator
    /// only; nothing before the cliff.
    pub fn claim_locked(&mut self, origin: Origin, launch_id: LaunchId) -> (result: Result<
        (),
        DispatchError,
    >)
        requires
            old(self).wf(),
        ensures
            final(self).wf(),
            faithful::<T>(final(self).log()),
            match origin {
                Origin::Signed(who) => exists|r: ReleaseReplies|
                    release_done(
                        old(self).store(),
                        old(self).log(),
                        who,
                        launch_id,
                        r,
                        result,
                        final(self).store(),
                        final(self).log(),
                    ),
                _ => {
                    &&& result == Err::<(), _>(DispatchError::BadOrigin)
                    &&& final(self).store() == old(self).store()
                    &&& final(self).log() == old(self).log()
                },
            },
    {
        let result = match origin {
            Origin::Signed(who) => self.release_inner(&who, launch_id).0,
            _ => Err(DispatchError::BadOrigin),
        };
        self.host.attest();
        result
    }

    /// The body of `claim_locked`, with the runtime's answers to it.
    fn release_inner(&mut self, who: &AccountId, launch_id: LaunchId) -> (out: (
        Result<(), DispatchError>,
        Ghost<ReleaseReplies>,
    ))
        requires
            old(self).wf(),
        ensures
            final(self).wf(),
            release_done(
                old(self).store(),
                old(self).log(),
                *who,
                launch_id,
                out.1@,
                out.0,
                final(self).store(),
                final(self).log(),
            ),
    {
        let ghost blank: ReleaseReplies = arbitrary();
        let launch = match self.launches.get(&launch_id) {
            Some(l) => *l,
            None => return (Err(DispatchError::Module(Error::LaunchNotFound)), Ghost(blank)),
        };
        if *who != launch.creator {
            return (Err(DispatchError::Module(Error::NotFeeRecipient)), Ghost(blank));
        }
        let now: BlockNumber = self.host.block_number();
        let ghost r1 = ReleaseReplies { now, ..blank };
        let mut lock = match self.locks.get(&launch_id) {
            Some(l) => *l,
            None => return (Err(DispatchError::Module(Error::NotCommitted)), Ghost(r1)),
        };
        let due: Balance = Self::vested(&lock, now).saturating_sub(lock.released);
        if due == 0 {
            return (Err(DispatchError::Module(Error::NothingVested)), Ghost(r1));
        }
        let holder = self.lock_account(launch_id);
        let moved = self.host.asset_transfer(
            launch.asset_id,
            &holder,
            who,
            due,
            Preservation::Expendable,
        );
        let ghost r2 = ReleaseReplies { moved, ..r1 };
        if let Err(e) = moved {
            return (Err(e), Ghost(r2));
        }
        lock.released = lock.released.saturating_add(due);
        self.locks.insert(launch_id, lock);
        self.host.deposit_event(Event::LockReleased { launch_id, amount: due });
        (Ok(()), Ghost(r2))
    }
}

} // verus!
