//! What a creation is for: when it goes through and why it is refused otherwise,
//! what it leaves in the records, and what it asks of the runtime in which order.
use crate::MAX_ASSET_ID_SCAN;
use crate::accounts::derived;
use crate::config::{Call, Run};
use crate::event::Event;
use crate::laws::creation::lemma_scan;
use crate::laws::outcomes::then;
use crate::laws::passed::lemma_buy_passed;
use crate::laws::rules::{greatest, least};
use crate::pallet::Store;
use crate::pallet::create::{
    announce_run, asset_chosen, asset_free, asset_tried, check_run, create_done, create_run,
    first_buy, fund_run, launch_created, launch_run, launch_store, launch_written, mint_run,
    scan_length, scan_run, CreateArgs, CreateReplies,
};
use crate::pallet::terms::{commitments_error, seedable, snapshot_of, terms_hash};
use crate::pallet::trade::{buy_done, buy_run, buy_store, buy_value, BuyArgs};
use crate::records::{CurveState, Launch, LockState, Phase};
use crate::types::{
    ActualWeight, AssetId, AssetKind, Balance, BlockNumber, DispatchError, Error, LaunchId,
    Preservation,
};
use vstd::prelude::*;

verus! {

/// The asset id that a creation tries after `n` others: it goes on from the last
/// id taken, or starts at the launch's own place in the range.
pub open spec fn nth_id(s: Store, n: int) -> AssetId {
    let first = match s.next_asset_id {
        Some(next) => next as int,
        None => least(s.constants.launch_asset_base + s.next_launch_id, u32::MAX as int),
    };
    least(first + n, u32::MAX as int) as u32
}

/// The first asset id that no asset and no launch has is the one after `m` others;
/// where there is none within the scan, `m` is its length.
pub open spec fn is_first_free(s: Store, replies: Seq<bool>, m: int) -> bool {
    &&& 0 <= m <= 256
    &&& forall|i: int|
        0 <= i < m ==> #[trigger] replies[i] || s.asset_to_launch.contains_key(nth_id(s, i))
    &&& m < 256 ==> !replies[m] && !s.asset_to_launch.contains_key(nth_id(s, m))
}

/// Why a creation is refused before it has written anything, if it is.
pub open spec fn creation_stopped(
    s: Store,
    a: CreateArgs,
    r: CreateReplies,
    m: int,
) -> Option<DispatchError> {
    let c = s.constants;
    let live = s.live_params();
    let reserved = greatest(c.total_supply - c.sellable, 0) as u128;
    if s.creation_paused {
        Some(DispatchError::Module(Error::CreationPaused))
    } else if a.name.len() == 0 || a.symbol.len() == 0 {
        Some(DispatchError::Module(Error::InvalidMetadata))
    } else if a.commitments.lock is Some && a.initial_buy == 0 {
        Some(DispatchError::Module(Error::LockWithoutPosition))
    } else if a.commitments.lock is Some && a.commitments.lock->0.cliff
        + a.commitments.lock->0.vest > c.max_lock_blocks {
        Some(DispatchError::Module(Error::CommitmentOutOfBounds))
    } else if m == 256 {
        Some(DispatchError::Module(Error::AssetIdTaken))
    } else if a.expected_params_hash is Some && a.expected_params_hash->0 != terms_hash(
        c,
        snapshot_of(live),
    ) {
        Some(DispatchError::Module(Error::ParamsMismatch))
    } else if r.check.pool {
        Some(DispatchError::Module(Error::PoolAlreadySeeded))
    } else if !seedable(c, live.graduation_target, reserved) {
        Some(DispatchError::Module(Error::Unseedable))
    } else {
        match (r.mint.fee_paid, r.mint.created, r.mint.described, r.mint.minted) {
            (Err(e), _, _, _) => Some(e),
            (_, Err(e), _, _) => Some(e),
            (_, _, Err(e), _) => Some(e),
            (_, _, _, Err(e)) => Some(e),
            _ => match (r.mint.spare_paid, r.fund.commit_funded, r.fund.lock_funded) {
                (Err(e), _, _) if r.mint.spare > 0 => Some(e),
                (_, Err(e), _) if a.commitments.fee_disposition is BuybackBurn => Some(e),
                (_, _, Err(e)) if a.commitments.lock is Some => Some(e),
                _ => if s.next_launch_id == u64::MAX {
                    Some(DispatchError::Module(Error::ArithmeticOverflow))
                } else {
                    None
                },
            },
        }
    }
}

/// The launch that a creation records: the creator's, paid to the recipient they
/// named or else to them, under the live terms, and bound as they asked.
pub open spec fn new_launch(s: Store, a: CreateArgs, asset: AssetId, now: BlockNumber) -> Launch {
    let terms = snapshot_of(s.live_params());
    Launch {
        asset_id: asset,
        creator: a.creator,
        creator_fee_recipient: if a.creator_fee_recipient is Some {
            a.creator_fee_recipient->0
        } else {
            a.creator
        },
        escrow: derived(s.constants.pallet_id, s.next_launch_id),
        created_at: now,
        curve: terms,
        params_hash: terms_hash(s.constants, terms),
        commitments: a.commitments,
    }
}

/// The curve that a creation records: all of it still to sell, nothing raised.
pub open spec fn new_curve(s: Store, now: BlockNumber) -> CurveState {
    CurveState {
        phase: Phase::Trading,
        real_quote: 0,
        tokens_remaining: s.constants.sellable,
        creator_fees_unclaimed: 0,
        protocol_fees_paid: 0,
        treasury_fees_paid: 0,
        last_trade_block: now,
        completed_at: None,
        graduated_at: None,
        lp_shares: 0,
    }
}

/// The records with a new launch in them.
pub open spec fn with_launch(s: Store, a: CreateArgs, asset: AssetId, now: BlockNumber) -> Store {
    let id = s.next_launch_id;
    Store {
        constants: s.constants,
        params: s.params,
        creation_paused: s.creation_paused,
        next_launch_id: (id + 1) as u64,
        next_asset_id: Some(least(asset + 1, u32::MAX as int) as u32),
        launches: s.launches.insert(id, new_launch(s, a, asset, now)),
        curves: s.curves.insert(id, new_curve(s, now)),
        asset_to_launch: s.asset_to_launch.insert(asset, id),
        metadata: if a.metadata is Some {
            s.metadata.insert(id, a.metadata->0)
        } else {
            s.metadata
        },
        locks: s.locks,
        last_disburse_block: s.last_disburse_block,
    }
}

/// The record after a launch was made: the ids tried, the fee into the escrow, the
/// token with all of its supply into the escrow, what the escrow can spare to the
/// treasury, the accounts of the commitments, and what is reported.
pub open spec fn launch_on_record(
    log: Seq<Call>,
    s: Store,
    a: CreateArgs,
    r: CreateReplies,
    m: int,
) -> Seq<Call> {
    let c = s.constants;
    let id = s.next_launch_id;
    let asset = nth_id(s, m);
    let e = derived(c.pallet_id, id);
    let burns = a.commitments.fee_disposition is BuybackBurn;
    let locks = a.commitments.lock is Some;
    let l1 = (log + Seq::new(
        (m + 1) as nat,
        |i: int| Call::AssetExists { asset: nth_id(s, i), reply: r.check.scan[i] },
    )).push(
        Call::PoolExists {
            a: AssetKind::Native,
            b: AssetKind::WithId(asset),
            reply: r.check.pool,
        },
    );
    let l2 = l1.push(
        Call::Transfer {
            from: a.creator,
            to: e,
            amount: s.live_params().creation_fee,
            keep: Preservation::Preserve,
            reply: r.mint.fee_paid,
        },
    ).push(
        Call::AssetCreate {
            asset,
            admin: e,
            is_sufficient: false,
            min_balance: 1,
            reply: r.mint.created,
        },
    ).push(
        Call::AssetSetMetadata {
            asset,
            who: e,
            name: a.name,
            symbol: a.symbol,
            decimals: 18,
            reply: r.mint.described,
        },
    ).push(
        Call::AssetMint { asset, who: e, amount: c.total_supply, reply: r.mint.minted },
    ).push(Call::ReducibleBalance { who: e, reply: r.mint.spare });
    let l3 = then(
        l2,
        r.mint.spare > 0,
        Call::Transfer {
            from: e,
            to: c.treasury,
            amount: r.mint.spare,
            keep: Preservation::Preserve,
            reply: r.mint.spare_paid,
        },
    ).push(Call::BlockNumber { reply: r.mint.now });
    let l4 = then(l3, burns, Call::MinimumBalance { reply: r.fund.commit_minimum });
    let l5 = then(
        l4,
        burns,
        Call::Transfer {
            from: a.creator,
            to: derived(c.commit_pallet_id, id),
            amount: r.fund.commit_minimum,
            keep: Preservation::Preserve,
            reply: r.fund.commit_funded,
        },
    );
    let l6 = then(l5, locks, Call::MinimumBalance { reply: r.fund.lock_minimum });
    let l7 = then(
        l6,
        locks,
        Call::Transfer {
            from: a.creator,
            to: derived(c.lock_pallet_id, id),
            amount: r.fund.lock_minimum,
            keep: Preservation::Preserve,
            reply: r.fund.lock_funded,
        },
    ).push(
        Call::DepositEvent {
            event: Event::LaunchCreated {
                id,
                asset_id: asset,
                creator: a.creator,
                params_hash: terms_hash(c, snapshot_of(s.live_params())),
            },
        },
    );
    then(
        l7,
        a.metadata is Some,
        Call::DepositEvent { event: Event::LaunchMetadataSet { launch_id: id } },
    )
}

/// What a walk for an asset id puts on record: each id that it tried, in turn.
proof fn lemma_scan_on_record(run: Run, s: Store, n: nat, replies: Seq<bool>)
    requires
        run.ok(),
        n <= MAX_ASSET_ID_SCAN,
    ensures
        ({
            let m = scan_length(s, n, replies);
            m < MAX_ASSET_ID_SCAN ==> scan_run(run, s, n, replies).log == run.log + Seq::new(
                (m - n + 1) as nat,
                |i: int| Call::AssetExists { asset: nth_id(s, n + i), reply: replies[n + i] },
            )
        }),
    decreases MAX_ASSET_ID_SCAN - n,
{
    if n < MAX_ASSET_ID_SCAN {
        let a = asset_tried(s, n);
        assert(a == nth_id(s, n as int));
        let first = Call::AssetExists { asset: a, reply: replies[n as int] };
        let asked = run.call(first);
        let m = scan_length(s, n, replies);
        let all = Seq::new(
            (m - n + 1) as nat,
            |i: int| Call::AssetExists { asset: nth_id(s, n + i), reply: replies[n + i] },
        );
        lemma_scan(run, s, n, replies);
        if asset_free(s, a, replies[n as int]) {
            assert(asked.log =~= run.log + all);
        } else {
            lemma_scan_on_record(asked, s, n + 1, replies);
            let rest = Seq::new(
                (m - n) as nat,
                |i: int|
                    Call::AssetExists { asset: nth_id(s, n + 1 + i), reply: replies[n + 1 + i] },
            );
            if m < MAX_ASSET_ID_SCAN {
                assert(asked.log + rest =~= run.log + all) by {
                    assert forall|i: int| 0 <= i < rest.len() implies #[trigger] rest[i] == all[i
                        + 1] by {}
                }
            }
        }
    }
}

/// The place of the first free id is what the walk's length is.
proof fn lemma_first_free(s: Store, replies: Seq<bool>, m: int)
    requires
        is_first_free(s, replies, m),
    ensures
        m == scan_length(s, 0, replies),
        m < 256 ==> asset_chosen(s, replies) == nth_id(s, m),
{
    let k = scan_length(s, 0, replies);
    lemma_scan(Run::from(Seq::empty()), s, 0, replies);
    assert forall|i: int| 0 <= i <= 256 implies #[trigger] asset_tried(s, i as nat) == nth_id(
        s,
        i,
    ) by {}
    if m < k {
        assert(asset_free(s, asset_tried(s, m as nat), replies[m]));
        assert(!asset_free(s, asset_tried(s, m as nat), replies[m]));
    }
    if k < m {
        assert(asset_free(s, asset_tried(s, k), replies[k as int]));
        assert(replies[k as int] || s.asset_to_launch.contains_key(nth_id(s, k as int)));
    }
}

/// A creation is refused, before it has written anything, exactly for one of the
/// reasons above; otherwise the launch is recorded and reported as it was asked
/// for. Where there is no first buy, that is all. Where there is one it is made
/// next, by the creator on the new curve, and if it fails so does the creation.
/// Where a lock was promised, all that the buy got goes to the lock account, and if
/// that fails so does the creation. A refused creation changes nothing.
#[verifier::rlimit(100)]
pub proof fn law_what_a_creation_does(
    s0: Store,
    log0: Seq<Call>,
    a: CreateArgs,
    r: CreateReplies,
    m: int,
    buy: BuyArgs,
    result: Result<Option<ActualWeight>, DispatchError>,
    s1: Store,
    log1: Seq<Call>,
)
    requires
        create_done(s0, log0, a, r, result, s1, log1),
        is_first_free(s0, r.check.scan, m),
        buy == (BuyArgs {
            who: a.creator,
            launch_id: s0.next_launch_id,
            quote_in: a.initial_buy,
            min_tokens_out: a.min_tokens_out,
            is_creator: true,
            is_trade: true,
        }),
    ensures
        match creation_stopped(s0, a, r, m) {
            Some(e) => result == Err::<Option<ActualWeight>, _>(e) && s1 == s0,
            None => {
                let id = s0.next_launch_id;
                let asset = nth_id(s0, m);
                let now = r.mint.now;
                let made = with_launch(s0, a, asset, now);
                let made_log = launch_on_record(log0, s0, a, r, m);
                if a.initial_buy == 0 {
                    &&& result == Ok::<Option<ActualWeight>, DispatchError>(None)
                    &&& s1 == made
                    &&& log1 == made_log
                } else {
                    bought_first(
                        s0,
                        a,
                        r,
                        asset,
                        made,
                        made_log.push(launch_handed(s0, a, asset, now)),
                        buy,
                        result,
                        s1,
                        log1,
                    )
                }
            },
        },
{
    let run = Run::from(log0);
    let id = s0.next_launch_id;
    let asset = asset_chosen(s0, r.check.scan);
    let ready = run.ensure(!s0.creation_paused, Error::CreationPaused).ensure(
        a.name.len() > 0 && a.symbol.len() > 0,
        Error::InvalidMetadata,
    ).stop(
        match commitments_error(s0.constants, a.commitments, a.initial_buy != 0) {
            Some(e) => Some(DispatchError::Module(e)),
            None => None,
        },
    );
    lemma_first_free(s0, r.check.scan, m);
    let scanned = scan_run(ready, s0, 0, r.check.scan);
    if ready.ok() {
        lemma_scan(ready, s0, 0, r.check.scan);
        lemma_scan_on_record(ready, s0, 0, r.check.scan);
        assert(ready.log == log0);
        if m < 256 {
            assert(scanned.log =~= log0 + Seq::new(
                (m + 1) as nat,
                |i: int| Call::AssetExists { asset: nth_id(s0, i), reply: r.check.scan[i] },
            ));
        }
    }
    let checked = check_run(run, s0, a, r.check);
    let minted = mint_run(checked, s0, asset, a.creator, a.name, a.symbol, r.mint);
    let funded = fund_run(minted, s0.constants, id, a.creator, a.commitments, r.fund);
    let launched = launch_run(run, s0, a, r);
    assert(launched == announce_run(funded, s0, a, asset));
    match creation_stopped(s0, a, r, m) {
        Some(e) => {
            assert(launched.error == Some(e));
            assert(create_run(run, s0, a, r).error == Some(e));
        },
        None => {
            let made = with_launch(s0, a, nth_id(s0, m), r.mint.now);
            assert(launched.ok());
            assert(launched.log == launch_on_record(log0, s0, a, r, m));
            assert(launch_store(s0, a, r) == made);
            if a.initial_buy != 0 {
                let handed = launched.call(launch_written(made, launch_created(s0, a, r), id));
                let bought = buy_run(handed, made, buy, r.buy);
                assert(handed == Run::from(handed.log));
                assert(launch_written(made, launch_created(s0, a, r), id) == launch_handed(
                    s0,
                    a,
                    nth_id(s0, m),
                    r.mint.now,
                ));
                let inner = bought.result(buy_value(made, buy, r.buy));
                let s2 = if bought.ok() {
                    buy_store(made, buy, r.buy)
                } else {
                    made
                };
                if bought.ok() {
                    lemma_buy_passed(handed, made, buy, r.buy);
                }
                assert(buy == first_buy(s0, a));
                assert(buy_done(made, handed.log, buy, r.buy, inner, s2, bought.log));
                assert(bought_and_locked(
                    s0,
                    a,
                    r,
                    id,
                    nth_id(s0, m),
                    inner,
                    s2,
                    bought.log,
                    result,
                    s1,
                    log1,
                ));
                assert(bought_first(
                    s0,
                    a,
                    r,
                    nth_id(s0, m),
                    made,
                    handed.log,
                    buy,
                    result,
                    s1,
                    log1,
                ));
            } else {
                assert(log1 == launched.log);
                assert(s1 == made);
            }
        },
    }
}

/// Handing a new launch's records over before its first buy.
pub open spec fn launch_handed(s: Store, a: CreateArgs, asset: AssetId, now: BlockNumber) -> Call {
    let id = s.next_launch_id;
    Call::LaunchWritten {
        launch_id: id,
        launch: new_launch(s, a, asset, now),
        curve: new_curve(s, now),
        metadata: if a.metadata is Some {
            a.metadata
        } else if s.metadata.contains_key(id) {
            Some(s.metadata[id])
        } else {
            None
        },
    }
}

/// A creation goes on from the records `made` with its first buy, and ends as that
/// does.
pub open spec fn bought_first(
    s0: Store,
    a: CreateArgs,
    r: CreateReplies,
    asset: AssetId,
    made: Store,
    handed: Seq<Call>,
    buy: BuyArgs,
    result: Result<Option<ActualWeight>, DispatchError>,
    s1: Store,
    log1: Seq<Call>,
) -> bool {
    exists|inner: Result<(bool, Balance), DispatchError>, s2: Store, log2: Seq<Call>|
        {
            &&& #[trigger] buy_done(made, handed, buy, r.buy, inner, s2, log2)
            &&& bought_and_locked(
                s0,
                a,
                r,
                s0.next_launch_id,
                asset,
                inner,
                s2,
                log2,
                result,
                s1,
                log1,
            )
        }
}

/// How a creation ends once its first buy was made.
pub open spec fn bought_and_locked(
    s0: Store,
    a: CreateArgs,
    r: CreateReplies,
    id: LaunchId,
    asset: AssetId,
    inner: Result<(bool, Balance), DispatchError>,
    s2: Store,
    log2: Seq<Call>,
    result: Result<Option<ActualWeight>, DispatchError>,
    s1: Store,
    log1: Seq<Call>,
) -> bool {
    match inner {
        Err(e) => result == Err::<Option<ActualWeight>, _>(e) && s1 == s0 && log1 == log2,
        Ok((crossed, tokens)) => {
            let moved = log2.push(
                Call::AssetTransfer {
                    asset,
                    from: a.creator,
                    to: derived(s0.constants.lock_pallet_id, id),
                    amount: tokens,
                    keep: Preservation::Expendable,
                    reply: r.moved,
                },
            );
            let done = Ok::<Option<ActualWeight>, DispatchError>(
                if crossed {
                    None
                } else {
                    Some(
                        ActualWeight::CreateLaunchAndBuy {
                            name: a.name.len() as u32,
                            symbol: a.symbol.len() as u32,
                            description: if a.metadata is Some {
                                (a.metadata->0).description@.len() as u32
                            } else {
                                0
                            },
                            uri: if a.metadata is Some {
                                (a.metadata->0).longest_uri() as u32
                            } else {
                                0
                            },
                        },
                    )
                },
            );
            match a.commitments.lock {
                None => result == done && s1 == s2 && log1 == log2,
                Some(schedule) => match r.moved {
                    Err(e) => {
                        &&& result == Err::<Option<ActualWeight>, _>(e)
                        &&& s1 == s0
                        &&& log1 == moved
                    },
                    Ok(_) => {
                        let most = u32::MAX as int;
                        let cliff_end = least(r.mint.now + schedule.cliff, most) as u32;
                        let vest_end = least(
                            r.mint.now + schedule.cliff + schedule.vest,
                            most,
                        ) as u32;
                        &&& result == done
                        &&& s1 == (Store {
                            locks: s2.locks.insert(
                                id,
                                LockState { total: tokens, released: 0, cliff_end, vest_end },
                            ),
                            ..s2
                        })
                        &&& log1 == moved.push(
                            Call::DepositEvent {
                                event: Event::Locked {
                                    launch_id: id,
                                    amount: tokens,
                                    cliff_end,
                                    vest_end,
                                },
                            },
                        )
                    },
                },
            }
        },
    }
}

/// The recipient that a creation records is the one its creator named, or else the
/// creator, whatever else they asked for; nobody else can then claim.
pub proof fn law_recipient_is_the_one_named(
    s0: Store,
    log0: Seq<Call>,
    a: CreateArgs,
    r: CreateReplies,
    result: Result<Option<ActualWeight>, DispatchError>,
    s1: Store,
    log1: Seq<Call>,
)
    requires
        create_done(s0, log0, a, r, result, s1, log1),
        result is Ok,
    ensures
        ({
            let launch = s1.launches[s0.next_launch_id];
            &&& s1.launches.contains_key(s0.next_launch_id)
            &&& launch.creator == a.creator
            &&& a.creator_fee_recipient matches Some(who) ==> launch.creator_fee_recipient == who
            &&& a.creator_fee_recipient is None ==> launch.creator_fee_recipient == a.creator
            &&& launch.commitments == a.commitments
        }),
{
}

} // verus!
