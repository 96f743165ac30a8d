//! Creating a launch: its token, its records and, where asked for, its first
//! buy and its lock.
use crate::{MAX_ASSET_ID_SCAN, TOKEN_DECIMALS};
use crate::accounts::derived;
use crate::config::{faithful, Call, Config, Constants, Run};
use crate::event::Event;
use crate::pallet::{Pallet, Store};
use crate::pallet::commitments::{lock_of, lock_run};
use crate::pallet::terms::{
    commitments_error, default_asset_id, reserved_tokens, seedable, snapshot, snapshot_of,
    terms_hash,
};
use crate::pallet::trade::{buy_run, buy_state, buy_store, buy_value, BuyArgs, BuyReplies};
use crate::records::{CreatorCommitments, CurveParams, CurveState, Launch, LaunchMetadata, Phase};
use crate::types::{
    AccountId, ActualWeight, AssetId, AssetKind, Balance, BlockNumber, DispatchError, Error,
    Hash256, LaunchId, Origin, Preservation,
};
use vstd::prelude::*;

verus! {

broadcast use vstd::std_specs::btree::group_btree_axioms;

// ---- the asset id --------------------------------------------------------

/// Where the walk for a free asset id starts.
pub open spec fn asset_cursor(s: Store) -> AssetId {
    match s.next_asset_id {
        Some(a) => a,
        None => default_asset_id(s.constants.launch_asset_base, s.next_launch_id),
    }
}

/// The asset id after another; saturating.
pub open spec fn asset_after(a: AssetId) -> AssetId {
    if a == u32::MAX {
        a
    } else {
        (a + 1) as u32
    }
}

/// Neither an asset nor a launch claims an id.
pub open spec fn asset_free(s: Store, a: AssetId, exists: bool) -> bool {
    !exists && !s.asset_to_launch.contains_key(a)
}

/// The asset id that the walk tries after `n` others; saturating.
pub open spec fn asset_tried(s: Store, n: nat) -> AssetId {
    if asset_cursor(s) + n > u32::MAX {
        u32::MAX
    } else {
        (asset_cursor(s) + n) as u32
    }
}

/// Walking on to the first free asset id once `n` were tried. `replies` say of
/// each id in turn whether that asset exists.
pub open spec fn scan_run(run: Run, s: Store, n: nat, replies: Seq<bool>) -> Run
    decreases MAX_ASSET_ID_SCAN - n,
{
    if !run.ok() {
        run
    } else if n >= MAX_ASSET_ID_SCAN {
        run.ensure(false, Error::AssetIdTaken)
    } else {
        let a = asset_tried(s, n);
        let asked = run.call(Call::AssetExists { asset: a, reply: replies[n as int] });
        if asset_free(s, a, replies[n as int]) {
            asked
        } else {
            scan_run(asked, s, n + 1, replies)
        }
    }
}

/// How many ids such a walk tries in vain.
pub open spec fn scan_length(s: Store, n: nat, replies: Seq<bool>) -> nat
    decreases MAX_ASSET_ID_SCAN - n,
{
    if n >= MAX_ASSET_ID_SCAN || asset_free(s, asset_tried(s, n), replies[n as int]) {
        n
    } else {
        scan_length(s, n + 1, replies)
    }
}

/// The asset id that a creation takes.
pub open spec fn asset_chosen(s: Store, replies: Seq<bool>) -> AssetId {
    asset_tried(s, scan_length(s, 0, replies))
}

// ---- the creation --------------------------------------------------------

/// What a creator asks for.
pub struct CreateArgs {
    pub creator: AccountId,
    pub name: Seq<u8>,
    pub symbol: Seq<u8>,
    pub creator_fee_recipient: Option<AccountId>,
    pub initial_buy: Balance,
    pub min_tokens_out: Balance,
    pub expected_params_hash: Option<Hash256>,
    pub metadata: Option<LaunchMetadata>,
    pub commitments: CreatorCommitments<BlockNumber>,
}

/// What the runtime answers until a creation may go ahead.
pub struct CheckReplies {
    pub scan: Seq<bool>,
    pub pool: bool,
}

/// What the runtime answers while a launch token is made.
pub struct MintReplies {
    pub fee_paid: Result<(), DispatchError>,
    pub created: Result<(), DispatchError>,
    pub described: Result<(), DispatchError>,
    pub minted: Result<(), DispatchError>,
    pub spare: Balance,
    pub spare_paid: Result<(), DispatchError>,
    pub now: BlockNumber,
}

/// What the runtime answers while the accounts of a commitment are funded.
pub struct FundReplies {
    pub commit_minimum: Balance,
    pub commit_funded: Result<(), DispatchError>,
    pub lock_minimum: Balance,
    pub lock_funded: Result<(), DispatchError>,
}

/// What the runtime answers during a creation.
pub struct CreateReplies {
    pub check: CheckReplies,
    pub mint: MintReplies,
    pub fund: FundReplies,
    pub buy: BuyReplies,
    pub moved: Result<(), DispatchError>,
}

/// The terms that a launch created now gets.
pub open spec fn terms_now(s: Store) -> CurveParams<Balance> {
    snapshot_of(s.live_params())
}

/// The hash of the terms that a launch created now gets.
pub open spec fn hash_now(s: Store) -> Hash256 {
    terms_hash(s.constants, terms_now(s))
}

/// A creation until it may go ahead.
pub open spec fn check_run(run: Run, s: Store, a: CreateArgs, r: CheckReplies) -> Run {
    let ready = run.ensure(!s.creation_paused, Error::CreationPaused).ensure(
        a.name.len() > 0 && a.symbol.len() > 0,
        Error::InvalidMetadata,
    ).stop(
        match commitments_error(s.constants, a.commitments, a.initial_buy != 0) {
            Some(e) => Some(DispatchError::Module(e)),
            None => None,
        },
    );
    scan_run(ready, s, 0, r.scan).ensure(
        a.expected_params_hash is None || a.expected_params_hash->0 == hash_now(s),
        Error::ParamsMismatch,
    ).call(
        Call::PoolExists {
            a: AssetKind::Native,
            b: AssetKind::WithId(asset_chosen(s, r.scan)),
            reply: r.pool,
        },
    ).ensure(!r.pool, Error::PoolAlreadySeeded).ensure(
        seedable(s.constants, terms_now(s).graduation_target, reserved_tokens(s.constants)),
        Error::Unseedable,
    )
}

/// Making the launch token: the creation fee into the escrow, the asset, its
/// metadata, the whole supply, and what the escrow can spare to the treasury.
pub open spec fn mint_run(
    run: Run,
    s: Store,
    asset: AssetId,
    creator: AccountId,
    name: Seq<u8>,
    symbol: Seq<u8>,
    r: MintReplies,
) -> Run {
    let escrow = derived(s.constants.pallet_id, s.next_launch_id);
    run.call(
        Call::Transfer {
            from: creator,
            to: escrow,
            amount: s.live_params().creation_fee,
            keep: Preservation::Preserve,
            reply: r.fee_paid,
        },
    ).call(
        Call::AssetCreate {
            asset,
            admin: escrow,
            is_sufficient: false,
            min_balance: 1,
            reply: r.created,
        },
    ).call(
        Call::AssetSetMetadata {
            asset,
            who: escrow,
            name,
            symbol,
            decimals: TOKEN_DECIMALS,
            reply: r.described,
        },
    ).call(
        Call::AssetMint {
            asset,
            who: escrow,
            amount: s.constants.total_supply,
            reply: r.minted,
        },
    ).call(Call::ReducibleBalance { who: escrow, reply: r.spare }).call_if(
        r.spare > 0,
        Call::Transfer {
            from: escrow,
            to: s.constants.treasury,
            amount: r.spare,
            keep: Preservation::Preserve,
            reply: r.spare_paid,
        },
    ).call(Call::BlockNumber { reply: r.now })
}

/// Funding the accounts that commitments need, out of the creator's pocket.
pub open spec fn fund_run(
    run: Run,
    c: Constants,
    id: LaunchId,
    creator: AccountId,
    commitments: CreatorCommitments<BlockNumber>,
    r: FundReplies,
) -> Run {
    let burns = commitments.burns();
    let locks = commitments.lock is Some;
    run.call_if(burns, Call::MinimumBalance { reply: r.commit_minimum }).call_if(
        burns,
        Call::Transfer {
            from: creator,
            to: derived(c.commit_pallet_id, id),
            amount: r.commit_minimum,
            keep: Preservation::Preserve,
            reply: r.commit_funded,
        },
    ).call_if(locks, Call::MinimumBalance { reply: r.lock_minimum }).call_if(
        locks,
        Call::Transfer {
            from: creator,
            to: derived(c.lock_pallet_id, id),
            amount: r.lock_minimum,
            keep: Preservation::Preserve,
            reply: r.lock_funded,
        },
    )
}

/// Reporting a new launch.
pub open spec fn announce_run(run: Run, s: Store, a: CreateArgs, asset: AssetId) -> Run {
    let id = s.next_launch_id;
    run.ensure(id < u64::MAX, Error::ArithmeticOverflow).event(
        Event::LaunchCreated {
            id,
            asset_id: asset,
            creator: a.creator,
            params_hash: hash_now(s),
        },
    ).call_if(
        a.metadata is Some,
        Call::DepositEvent { event: Event::LaunchMetadataSet { launch_id: id } },
    )
}

/// The launch record of a creation.
pub open spec fn launch_made(s: Store, a: CreateArgs, asset: AssetId, now: BlockNumber) -> Launch {
    Launch {
        asset_id: asset,
        creator: a.creator,
        creator_fee_recipient: match a.creator_fee_recipient {
            Some(who) => who,
            None => a.creator,
        },
        escrow: derived(s.constants.pallet_id, s.next_launch_id),
        created_at: now,
        curve: terms_now(s),
        params_hash: hash_now(s),
        commitments: a.commitments,
    }
}

/// The curve state of a new launch.
pub open spec fn curve_made(c: Constants, now: BlockNumber) -> CurveState {
    CurveState {
        phase: Phase::Trading,
        real_quote: 0,
        tokens_remaining: c.sellable,
        creator_fees_unclaimed: 0,
        protocol_fees_paid: 0,
        treasury_fees_paid: 0,
        last_trade_block: now,
        completed_at: None,
        graduated_at: None,
        lp_shares: 0,
    }
}

/// What a creation leaves in the records before any first buy.
pub open spec fn recorded(s: Store, a: CreateArgs, asset: AssetId, now: BlockNumber) -> Store {
    let id = s.next_launch_id;
    Store {
        launches: s.launches.insert(id, launch_made(s, a, asset, now)),
        curves: s.curves.insert(id, curve_made(s.constants, now)),
        asset_to_launch: s.asset_to_launch.insert(asset, id),
        next_launch_id: (id + 1) as u64,
        next_asset_id: Some(asset_after(asset)),
        metadata: match a.metadata {
            Some(m) => s.metadata.insert(id, m),
            None => s.metadata,
        },
        ..s
    }
}

/// The first buy of a creation.
pub open spec fn first_buy(s: Store, a: CreateArgs) -> BuyArgs {
    BuyArgs {
        who: a.creator,
        launch_id: s.next_launch_id,
        quote_in: a.initial_buy,
        min_tokens_out: a.min_tokens_out,
        is_creator: true,
        is_trade: true,
    }
}

/// Handing a new launch's records over, for whoever looks them up.
pub open spec fn launch_written(s1: Store, launch: Launch, id: LaunchId) -> Call {
    Call::LaunchWritten {
        launch_id: id,
        launch,
        curve: s1.curves[id],
        metadata: if s1.metadata.contains_key(id) {
            Some(s1.metadata[id])
        } else {
            None
        },
    }
}

/// The first buy of a creation and, where the creator bound it, its lock. `s1`
/// are the records with the new launch in them; they are handed over first, so
/// that the hook finds the launch.
pub open spec fn first_buy_run(
    run: Run,
    s1: Store,
    buy: BuyArgs,
    launch: Launch,
    now: BlockNumber,
    buy_replies: BuyReplies,
    moved: Result<(), DispatchError>,
) -> Run {
    let bought = buy_run(
        run.call(launch_written(s1, launch, buy.launch_id)),
        s1,
        buy,
        buy_replies,
    );
    match launch.commitments.lock {
        Some(schedule) => lock_run(
            bought,
            s1.constants,
            launch,
            buy.launch_id,
            buy_value(s1, buy, buy_replies).1,
            schedule,
            now,
            moved,
        ),
        None => bought,
    }
}

/// What the first buy of a creation and its lock leave in the records.
pub open spec fn first_buy_store(
    s1: Store,
    buy: BuyArgs,
    launch: Launch,
    now: BlockNumber,
    buy_replies: BuyReplies,
) -> Store {
    let s2 = buy_store(s1, buy, buy_replies);
    match launch.commitments.lock {
        Some(schedule) => Store {
            locks: s2.locks.insert(
                buy.launch_id,
                lock_of(buy_value(s1, buy, buy_replies).1, schedule, now),
            ),
            ..s2
        },
        None => s2,
    }
}

/// A creation up to its records.
pub open spec fn launch_run(run: Run, s: Store, a: CreateArgs, r: CreateReplies) -> Run {
    let asset = asset_chosen(s, r.check.scan);
    announce_run(
        fund_run(
            mint_run(
                check_run(run, s, a, r.check),
                s,
                asset,
                a.creator,
                a.name,
                a.symbol,
                r.mint,
            ),
            s.constants,
            s.next_launch_id,
            a.creator,
            a.commitments,
            r.fund,
        ),
        s,
        a,
        asset,
    )
}

/// The records with the new launch in them, before any first buy.
pub open spec fn launch_store(s: Store, a: CreateArgs, r: CreateReplies) -> Store {
    recorded(s, a, asset_chosen(s, r.check.scan), r.mint.now)
}

/// The launch that a creation makes.
pub open spec fn launch_created(s: Store, a: CreateArgs, r: CreateReplies) -> Launch {
    launch_made(s, a, asset_chosen(s, r.check.scan), r.mint.now)
}

/// A creation from the start.
pub open spec fn create_run(run: Run, s: Store, a: CreateArgs, r: CreateReplies) -> Run {
    let launched = launch_run(run, s, a, r);
    if a.initial_buy != 0 {
        first_buy_run(
            launched,
            launch_store(s, a, r),
            first_buy(s, a),
            launch_created(s, a, r),
            r.mint.now,
            r.buy,
            r.moved,
        )
    } else {
        launched
    }
}

/// What a creation leaves in the records.
pub open spec fn create_store(s: Store, a: CreateArgs, r: CreateReplies) -> Store {
    if a.initial_buy != 0 {
        first_buy_store(
            launch_store(s, a, r),
            first_buy(s, a),
            launch_created(s, a, r),
            r.mint.now,
            r.buy,
        )
    } else {
        launch_store(s, a, r)
    }
}

/// The actual weight of a creation whose first buy did not take the last of
/// the curve.
pub open spec fn create_weight(a: CreateArgs) -> ActualWeight {
    ActualWeight::CreateLaunchAndBuy {
        name: a.name.len() as u32,
        symbol: a.symbol.len() as u32,
        description: match a.metadata {
            Some(m) => m.description@.len() as u32,
            None => 0,
        },
        uri: match a.metadata {
            Some(m) => m.longest_uri() as u32,
            None => 0,
        },
    }
}

/// What a creation returns.
pub open spec fn create_value(s: Store, a: CreateArgs, r: CreateReplies) -> Option<ActualWeight> {
    if a.initial_buy != 0 && !buy_value(launch_store(s, a, r), first_buy(s, a), r.buy).0 {
        Some(create_weight(a))
    } else {
        None
    }
}

/// What `create_launch` does for given answers.
pub open spec fn create_done(
    s0: Store,
    log0: Seq<Call>,
    a: CreateArgs,
    r: CreateReplies,
    result: Result<Option<ActualWeight>, DispatchError>,
    s1: Store,
    log1: Seq<Call>,
) -> bool {
    let run = create_run(Run::from(log0), s0, a, r);
    &&& log1 == run.log
    &&& result == run.result(create_value(s0, a, r))
    &&& s1 == if run.ok() {
        create_store(s0, a, r)
    } else {
        s0
    }
}

/// A map with one entry put back to what it was.
pub open spec fn put_back<K, V>(m: Map<K, V>, k: K, was: Option<V>) -> Map<K, V> {
    match was {
        Some(v) => m.insert(k, v),
        None => m.remove(k),
    }
}

/// What was stored before a creation wrote its records.
struct Overwritten {
    launch: Option<Launch>,
    curve: Option<CurveState>,
    index: Option<LaunchId>,
    /// Nothing where the creation wrote no metadata.
    metadata: Option<Option<LaunchMetadata>>,
    next_launch_id: LaunchId,
    next_asset_id: Option<AssetId>,
}

impl Overwritten {
    /// The records as they were.
    spec fn undo(&self, s: Store, id: LaunchId, asset: AssetId) -> Store {
        Store {
            launches: put_back(s.launches, id, self.launch),
            curves: put_back(s.curves, id, self.curve),
            asset_to_launch: put_back(s.asset_to_launch, asset, self.index),
            next_launch_id: self.next_launch_id,
            next_asset_id: self.next_asset_id,
            metadata: match self.metadata {
                Some(was) => put_back(s.metadata, id, was),
                None => s.metadata,
            },
            ..s
        }
    }
}

impl<T: Config> Pallet<T> {
    /// The first asset id at or above the cursor that no asset and no launch
    /// already claims. Bounded, so that taken ids cannot make one creation scan
    /// without end; the cursor never advances on a failed creation.
    pub(crate) fn next_free_asset_id(&mut self) -> (out: (
        Result<AssetId, DispatchError>,
        Ghost<Seq<bool>>,
    ))
        ensures
            final(self).store() == old(self).store(),
            ({
                let s = old(self).store();
                let run = scan_run(Run::from(old(self).log()), s, 0, out.1@);
                &&& final(self).log() == run.log
                &&& out.0 == run.result(asset_chosen(s, out.1@))
            }),
    {
        let ghost s = self.store();
        let ghost log0 = self.log();
        let mut candidate: AssetId = match self.next_asset_id {
            Some(a) => a,
            None => self.asset_id_for(self.next_launch_id),
        };
        let ghost mut replies = Seq::<bool>::empty();
        let mut n: u32 = 0;
        while n < MAX_ASSET_ID_SCAN
            invariant
                n <= MAX_ASSET_ID_SCAN,
                s == old(self).store(),
                log0 == old(self).log(),
                self.store() == s,
                candidate == asset_tried(s, n as nat),
                replies.len() == n,
                forall|all: Seq<bool>|
                    #![trigger replies.is_prefix_of(all)]
                    replies.is_prefix_of(all) ==> scan_run(Run::from(log0), s, 0, all) == scan_run(
                        Run::from(self.log()),
                        s,
                        n as nat,
                        all,
                    ) && scan_length(s, 0, all) == scan_length(s, n as nat, all),
            decreases MAX_ASSET_ID_SCAN - n,
        {
            let ghost before = replies;
            let ghost log1 = self.log();
            let taken = self.host.asset_exists(candidate);
            proof {
                replies = before.push(taken);
                assert(before.is_prefix_of(replies));
                assert(self.log() == Run::from(log1).call(
                    Call::AssetExists { asset: candidate, reply: taken },
                ).log);
            }
            if !taken && !self.asset_to_launch.contains_key(&candidate) {
                return (Ok(candidate), Ghost(replies));
            }
            candidate = candidate.saturating_add(1);
            proof {
                assert forall|all: Seq<bool>|
                    #![trigger replies.is_prefix_of(all)]
                    replies.is_prefix_of(all) implies scan_run(Run::from(log0), s, 0, all)
                    == scan_run(Run::from(self.log()), s, (n + 1) as nat, all) && scan_length(
                    s,
                    0,
                    all,
                ) == scan_length(s, (n + 1) as nat, all) by {
                    assert(before.is_prefix_of(all)) by {
                        assert(before =~= all.subrange(0, before.len() as int));
                    }
                    assert(all[n as int] == replies[n as int]);
                }
            }
            n = n + 1;
        }
        assert(replies.is_prefix_of(replies));
        (Err(DispatchError::Module(Error::AssetIdTaken)), Ghost(replies))
    }

    /// Whether a creation may go ahead. Returns the asset id it takes, the
    /// terms it gets and their hash.
    fn check_creation(
        &mut self,
        name: &Vec<u8>,
        symbol: &Vec<u8>,
        expected_params_hash: Option<Hash256>,
        commitments: &CreatorCommitments<BlockNumber>,
        has_position: bool,
        Ghost(a): Ghost<CreateArgs>,
    ) -> (out: (
        Result<(AssetId, CurveParams<Balance>, Hash256), DispatchError>,
        Ghost<CheckReplies>,
    ))
        requires
            a.name == name@,
            a.symbol == symbol@,
            a.expected_params_hash == expected_params_hash,
            a.commitments == *commitments,
            has_position == (a.initial_buy != 0),
        ensures
            final(self).store() == old(self).store(),
            ({
                let s = old(self).store();
                let run = check_run(Run::from(old(self).log()), s, a, out.1@);
                &&& final(self).log() == run.log
                &&& out.0 == run.result((asset_chosen(s, out.1@.scan), terms_now(s), hash_now(s)))
            }),
    {
        let ghost blank: CheckReplies = arbitrary();
        if self.creation_paused {
            return (Err(DispatchError::Module(Error::CreationPaused)), Ghost(blank));
        }
        if name.len() == 0 || symbol.len() == 0 {
            return (Err(DispatchError::Module(Error::InvalidMetadata)), Ghost(blank));
        }
        // Validated on its own, before any protocol term is read.
        if let Err(e) = self.ensure_commitments_in_bounds(commitments, has_position) {
            return (Err(e), Ghost(blank));
        }
        let (free, scan) = self.next_free_asset_id();
        let ghost r1 = CheckReplies { scan: scan@, ..blank };
        let asset: AssetId = match free {
            Ok(a) => a,
            Err(e) => return (Err(e), Ghost(r1)),
        };
        let curve = snapshot(&self.live_params());
        let params_hash = self.params_hash(&curve);
        if let Some(expected) = expected_params_hash {
            if expected != params_hash {
                return (Err(DispatchError::Module(Error::ParamsMismatch)), Ghost(r1));
            }
        }
        let pool = self.host.pool_exists(AssetKind::Native, AssetKind::WithId(asset));
        let ghost r2 = CheckReplies { pool, ..r1 };
        if pool {
            return (Err(DispatchError::Module(Error::PoolAlreadySeeded)), Ghost(r2));
        }
        if let Err(e) = self.ensure_seedable(curve.graduation_target, self.reserved()) {
            return (Err(e), Ghost(r2));
        }
        (Ok((asset, curve, params_hash)), Ghost(r2))
    }

    /// Make the launch token. Returns the block it was made in.
    #[verifier::rlimit(40)]
    fn mint_token(
        &mut self,
        asset: AssetId,
        creator: &AccountId,
        name: &Vec<u8>,
        symbol: &Vec<u8>,
    ) -> (out: (Result<BlockNumber, DispatchError>, Ghost<MintReplies>))
        ensures
            final(self).store() == old(self).store(),
            ({
                let run = mint_run(
                    Run::from(old(self).log()),
                    old(self).store(),
                    asset,
                    *creator,
                    name@,
                    symbol@,
                    out.1@,
                );
                &&& final(self).log() == run.log
                &&& out.0 == run.result(out.1@.now)
            }),
    {
        let ghost blank: MintReplies = arbitrary();
        let escrow = self.escrow_account(self.next_launch_id);
        let creation_fee: Balance = self.live_params().creation_fee;
        // The creation fee funds the escrow's own deposits first.
        let fee_paid = self.host.currency_transfer(
            creator,
            &escrow,
            creation_fee,
            Preservation::Preserve,
        );
        let ghost r1 = MintReplies { fee_paid, ..blank };
        if let Err(e) = fee_paid {
            return (Err(e), Ghost(r1));
        }
        let created = self.host.asset_create(asset, &escrow, false, 1);
        let ghost r2 = MintReplies { created, ..r1 };
        if let Err(e) = created {
            return (Err(e), Ghost(r2));
        }
        let described = self.host.asset_set_metadata(
            asset,
            &escrow,
            name,
            symbol,
            TOKEN_DECIMALS,
        );
        let ghost r3 = MintReplies { described, ..r2 };
        if let Err(e) = described {
            return (Err(e), Ghost(r3));
        }
        let minted = self.host.asset_mint_into(asset, &escrow, self.constants.total_supply);
        let ghost r4 = MintReplies { minted, ..r3 };
        if let Err(e) = minted {
            return (Err(e), Ghost(r4));
        }
        // Whatever the escrow can spare above its deposits goes to the treasury.
        let spare: Balance = self.host.currency_reducible_balance(&escrow);
        let ghost r5 = MintReplies { spare, ..r4 };
        let ghost mut r6 = r5;
        if spare > 0 {
            let spare_paid = self.host.currency_transfer(
                &escrow,
                &self.constants.treasury,
                spare,
                Preservation::Preserve,
            );
            proof {
                r6 = MintReplies { spare_paid, ..r5 };
            }
            if let Err(e) = spare_paid {
                return (Err(e), Ghost(r6));
            }
        }
        let now: BlockNumber = self.host.block_number();
        (Ok(now), Ghost(MintReplies { now, ..r6 }))
    }

    /// Fund the accounts that commitments need: they must exist before anything
    /// can reach them.
    fn fund_commitments(
        &mut self,
        id: LaunchId,
        creator: &AccountId,
        commitments: &CreatorCommitments<BlockNumber>,
    ) -> (out: (Result<(), DispatchError>, Ghost<FundReplies>))
        ensures
            final(self).store() == old(self).store(),
            ({
                let run = fund_run(
                    Run::from(old(self).log()),
                    old(self).constants,
                    id,
                    *creator,
                    *commitments,
                    out.1@,
                );
                &&& final(self).log() == run.log
                &&& out.0 == run.result(())
            }),
    {
        let ghost blank: FundReplies = arbitrary();
        let ghost mut r1 = blank;
        if commitments.burns_fees() {
            let commit = self.commit_account(id);
            let commit_minimum: Balance = self.host.currency_minimum_balance();
            let commit_funded = self.host.currency_transfer(
                creator,
                &commit,
                commit_minimum,
                Preservation::Preserve,
            );
            proof {
                r1 = FundReplies { commit_minimum, commit_funded, ..blank };
            }
            if let Err(e) = commit_funded {
                return (Err(e), Ghost(r1));
            }
        }
        let ghost mut r2 = r1;
        if commitments.lock.is_some() {
            let lock = self.lock_account(id);
            let lock_minimum: Balance = self.host.currency_minimum_balance();
            let lock_funded = self.host.currency_transfer(
                creator,
                &lock,
                lock_minimum,
                Preservation::Preserve,
            );
            proof {
                r2 = FundReplies { lock_minimum, lock_funded, ..r1 };
            }
            if let Err(e) = lock_funded {
                return (Err(e), Ghost(r2));
            }
        }
        (Ok(()), Ghost(r2))
    }

    /// Write the records of a new launch. Returns what they replace.
    fn record_launch(
        &mut self,
        launch: Launch,
        metadata: Option<LaunchMetadata>,
        Ghost(a): Ghost<CreateArgs>,
    ) -> (was: Overwritten)
        requires
            old(self).next_launch_id < u64::MAX,
            a.metadata == metadata,
            launch == launch_made(old(self).store(), a, launch.asset_id, launch.created_at),
        ensures
            final(self).store() == recorded(
                old(self).store(),
                a,
                launch.asset_id,
                launch.created_at,
            ),
            final(self).log() == old(self).log(),
            was.undo(final(self).store(), old(self).next_launch_id, launch.asset_id) == old(
                self,
            ).store(),
            forall|state: CurveState|
                #![trigger final(self).store().with_curve(old(self).next_launch_id, state)]
                was.undo(
                    final(self).store().with_curve(old(self).next_launch_id, state),
                    old(self).next_launch_id,
                    launch.asset_id,
                ) == old(self).store(),
    {
        let ghost s0 = self.store();
        let id = self.next_launch_id;
        let now = launch.created_at;
        let next_asset_id = self.next_asset_id;
        let replaced_launch = self.launches.insert(id, launch);
        let curve = CurveState {
            phase: Phase::Trading,
            real_quote: 0,
            tokens_remaining: self.constants.sellable,
            creator_fees_unclaimed: 0,
            protocol_fees_paid: 0,
            treasury_fees_paid: 0,
            last_trade_block: now,
            completed_at: None,
            graduated_at: None,
            lp_shares: 0,
        };
        let replaced_curve = self.curves.insert(id, curve);
        let index = self.asset_to_launch.insert(launch.asset_id, id);
        self.next_launch_id = id + 1;
        self.next_asset_id = Some(launch.asset_id.saturating_add(1));
        let replaced_metadata = match metadata {
            Some(m) => Some(self.metadata.insert(id, m)),
            None => None,
        };
        let was = Overwritten {
            launch: replaced_launch,
            curve: replaced_curve,
            index,
            metadata: replaced_metadata,
            next_launch_id: id,
            next_asset_id,
        };
        proof {
            let s1 = self.store();
            assert(s1 =~= recorded(s0, a, launch.asset_id, now));
            assert(was.undo(s1, id, launch.asset_id) =~= s0);
            assert forall|state: CurveState|
                #![trigger s1.with_curve(id, state)]
                was.undo(s1.with_curve(id, state), id, launch.asset_id) == s0 by {
                assert(was.undo(s1.with_curve(id, state), id, launch.asset_id) =~= s0);
            }
        }
        was
    }

    /// Put the records back to what they were before a launch was written.
    fn take_back(&mut self, id: LaunchId, asset: AssetId, was: Overwritten)
        ensures
            final(self).store() == was.undo(old(self).store(), id, asset),
            final(self).log() == old(self).log(),
    {
        match was.launch {
            Some(l) => {
                self.launches.insert(id, l);
            },
            None => {
                self.launches.remove(&id);
            },
        }
        match was.curve {
            Some(c) => {
                self.curves.insert(id, c);
            },
            None => {
                self.curves.remove(&id);
            },
        }
        match was.index {
            Some(i) => {
                self.asset_to_launch.insert(asset, i);
            },
            None => {
                self.asset_to_launch.remove(&asset);
            },
        }
        self.next_launch_id = was.next_launch_id;
        self.next_asset_id = was.next_asset_id;
        match was.metadata {
            Some(Some(m)) => {
                self.metadata.insert(id, m);
            },
            Some(None) => {
                self.metadata.remove(&id);
            },
            None => {},
        }
    }

    /// The first buy of a creation and, where the creator bound it, its lock.
    /// Returns whether the buy took the last of the curve. A refusal may leave
    /// the new launch's curve written.
    fn buy_first(
        &mut self,
        launch: &Launch,
        id: LaunchId,
        quote_in: Balance,
        min_tokens_out: Balance,
        now: BlockNumber,
    ) -> (out: (
        Result<bool, DispatchError>,
        Ghost<BuyReplies>,
        Ghost<Result<(), DispatchError>>,
    ))
        requires
            old(self).wf(),
            old(self).store().curves.contains_key(id),
        ensures
            final(self).wf(),
            ({
                let s1 = old(self).store();
                let buy = BuyArgs {
                    who: launch.creator,
                    launch_id: id,
                    quote_in,
                    min_tokens_out,
                    is_creator: true,
                    is_trade: true,
                };
                let run = first_buy_run(
                    Run::from(old(self).log()),
                    s1,
                    buy,
                    *launch,
                    now,
                    out.1@,
                    out.2@,
                );
                &&& final(self).log() == run.log
                &&& out.0 == run.result(buy_value(s1, buy, out.1@).0)
                &&& if run.ok() {
                    final(self).store() == first_buy_store(s1, buy, *launch, now, out.1@)
                } else {
                    final(self).store() == s1 || exists|state: CurveState|
                        final(self).store() == #[trigger] s1.with_curve(id, state)
                }
            }),
    {
        let ghost s1 = self.store();
        let ghost blank: Result<(), DispatchError> = arbitrary();
        if let Some(state) = self.curves.get(&id) {
            self.host.launch_written(id, launch, state, self.metadata.get(&id));
        }
        let (bought, replies) = self.buy_inner(
            &launch.creator,
            id,
            quote_in,
            min_tokens_out,
            true,
            true,
        );
        let (crossed, tokens_out) = match bought {
            Ok(pair) => pair,
            Err(e) => return (Err(e), replies, Ghost(blank)),
        };
        let ghost buy = BuyArgs {
            who: launch.creator,
            launch_id: id,
            quote_in,
            min_tokens_out,
            is_creator: true,
            is_trade: true,
        };
        assert(self.store() == s1.with_curve(
            id,
            buy_state(s1, buy, replies@),
        ));
        let ghost mut moved_reply = blank;
        // The first buy's tokens are the locked tranche. Moved in the same
        // call, so no block ever sees them free.
        if let Some(schedule) = launch.commitments.lock {
            let (locked, moved) = self.lock_tranche(launch, id, tokens_out, schedule, now);
            proof {
                moved_reply = moved@;
            }
            if let Err(e) = locked {
                return (Err(e), replies, Ghost(moved_reply));
            }
        }
        (Ok(crossed), replies, Ghost(moved_reply))
    }

    /// A creation up to its records, with the runtime's answers. Returns the
    /// launch and what its records replaced.
    #[verifier::rlimit(40)]
    fn open_launch(
        &mut self,
        creator: &AccountId,
        name: &Vec<u8>,
        symbol: &Vec<u8>,
        creator_fee_recipient: Option<AccountId>,
        expected_params_hash: Option<Hash256>,
        metadata: Option<LaunchMetadata>,
        commitments: CreatorCommitments<BlockNumber>,
        has_position: bool,
        Ghost(a): Ghost<CreateArgs>,
    ) -> (out: (Result<(Launch, Overwritten), DispatchError>, Ghost<CreateReplies>))
        requires
            old(self).wf(),
            a.creator == *creator,
            a.name == name@,
            a.symbol == symbol@,
            a.creator_fee_recipient == creator_fee_recipient,
            a.expected_params_hash == expected_params_hash,
            a.metadata == metadata,
            a.commitments == commitments,
            has_position == (a.initial_buy != 0),
        ensures
            final(self).wf(),
            ({
                let s0 = old(self).store();
                let id = s0.next_launch_id;
                let r = out.1@;
                let run = launch_run(Run::from(old(self).log()), s0, a, r);
                &&& final(self).log() == run.log
                &&& match out.0 {
                    Ok((launch, was)) => {
                        &&& run.ok()
                        &&& launch == launch_created(s0, a, r)
                        &&& final(self).store() == launch_store(s0, a, r)
                        &&& was.undo(final(self).store(), id, launch.asset_id) == s0
                        &&& forall|state: CurveState|
                            #![trigger final(self).store().with_curve(id, state)]
                            was.undo(
                                final(self).store().with_curve(id, state),
                                id,
                                launch.asset_id,
                            ) == s0
                    },
                    Err(e) => run.error == Some(e) && final(self).store() == s0,
                }
            }),
    {
        let ghost blank: CreateReplies = arbitrary();
        let id = self.next_launch_id;
        let (checked, check) = self.check_creation(
            name,
            symbol,
            expected_params_hash,
            &commitments,
            has_position,
            Ghost(a),
        );
        let ghost r1 = CreateReplies { check: check@, ..blank };
        let (asset_id, curve, params_hash) = match checked {
            Ok(v) => v,
            Err(e) => return (Err(e), Ghost(r1)),
        };
        let (made, mint) = self.mint_token(asset_id, creator, name, symbol);
        let ghost r2 = CreateReplies { mint: mint@, ..r1 };
        let now: BlockNumber = match made {
            Ok(now) => now,
            Err(e) => return (Err(e), Ghost(r2)),
        };
        let (funded, fund) = self.fund_commitments(id, creator, &commitments);
        let ghost r3 = CreateReplies { fund: fund@, ..r2 };
        if let Err(e) = funded {
            return (Err(e), Ghost(r3));
        }
        if id == u64::MAX {
            return (Err(DispatchError::Module(Error::ArithmeticOverflow)), Ghost(r3));
        }
        let launch = Launch {
            asset_id,
            creator: *creator,
            creator_fee_recipient: match creator_fee_recipient {
                Some(who) => who,
                None => *creator,
            },
            escrow: self.escrow_account(id),
            created_at: now,
            curve,
            params_hash,
            commitments,
        };
        let described = metadata.is_some();
        let was = self.record_launch(launch, metadata, Ghost(a));
        self.host.deposit_event(
            Event::LaunchCreated { id, asset_id, creator: *creator, params_hash },
        );
        if described {
            self.host.deposit_event(Event::LaunchMetadataSet { launch_id: id });
        }
        (Ok((launch, was)), Ghost(r3))
    }

    /// The body of `create_launch`, with the runtime's answers to it.
    #[verifier::rlimit(60)]
    fn create_inner(
        &mut self,
        creator: &AccountId,
        name: &Vec<u8>,
        symbol: &Vec<u8>,
        creator_fee_recipient: Option<AccountId>,
        initial_buy: Balance,
        min_tokens_out: Balance,
        expected_params_hash: Option<Hash256>,
        metadata: Option<LaunchMetadata>,
        commitments: CreatorCommitments<BlockNumber>,
    ) -> (out: (Result<Option<ActualWeight>, DispatchError>, Ghost<CreateReplies>))
        requires
            old(self).wf(),
            name@.len() <= old(self).constants.string_limit,
            symbol@.len() <= old(self).constants.string_limit,
            metadata is Some ==> metadata->0.within(
                old(self).constants.uri_limit,
                old(self).constants.description_limit,
            ),
        ensures
            final(self).wf(),
            create_done(
                old(self).store(),
                old(self).log(),
                CreateArgs {
                    creator: *creator,
                    name: name@,
                    symbol: symbol@,
                    creator_fee_recipient,
                    initial_buy,
                    min_tokens_out,
                    expected_params_hash,
                    metadata,
                    commitments,
                },
                out.1@,
                out.0,
                final(self).store(),
                final(self).log(),
            ),
    {
        let ghost a = CreateArgs {
            creator: *creator,
            name: name@,
            symbol: symbol@,
            creator_fee_recipient,
            initial_buy,
            min_tokens_out,
            expected_params_hash,
            metadata,
            commitments,
        };
        let id = self.next_launch_id;
        let (description, uri): (u32, u32) = match &metadata {
            Some(m) => m.dims(),
            None => (0, 0),
        };
        let (opened, replies) = self.open_launch(
            creator,
            name,
            symbol,
            creator_fee_recipient,
            expected_params_hash,
            metadata,
            commitments,
            initial_buy != 0,
            Ghost(a),
        );
        let (launch, was) = match opened {
            Ok(pair) => pair,
            Err(e) => return (Err(e), replies),
        };
        if initial_buy == 0 {
            return (Ok(None), replies);
        }
        let (bought, buy, moved) = self.buy_first(
            &launch,
            id,
            initial_buy,
            min_tokens_out,
            launch.created_at,
        );
        let ghost r = CreateReplies { buy: buy@, moved: moved@, ..replies@ };
        match bought {
            Ok(crossed) => {
                // Charged as a crossing buy up front; refunded to a plain buy
                // when the curve was not exhausted.
                let weight = if crossed {
                    None
                } else {
                    Some(
                        ActualWeight::CreateLaunchAndBuy {
                            name: name.len() as u32,
                            symbol: symbol.len() as u32,
                            description,
                            uri,
                        },
                    )
                };
                (Ok(weight), Ghost(r))
            },
            Err(e) => {
                self.take_back(id, launch.asset_id, was);
                (Err(e), Ghost(r))
            },
        }
    }

    /// Create a launch: its token, its records and, where asked for, its first
    /// buy. With a lock among the commitments, the tokens of the first buy go
    /// to the lock account in the same call.
    pub fn create_launch(
        &mut self,
        origin: Origin,
        name: Vec<u8>,
        symbol: Vec<u8>,
        creator_fee_recipient: Option<AccountId>,
        initial_buy: Balance,
        min_tokens_out: Balance,
        expected_params_hash: Option<Hash256>,
        metadata: Option<LaunchMetadata>,
        commitments: CreatorCommitments<BlockNumber>,
    ) -> (result: Result<Option<ActualWeight>, DispatchError>)
        requires
            old(self).wf(),
            name@.len() <= old(self).constants.string_limit,
            symbol@.len() <= old(self).constants.string_limit,
            metadata is Some ==> metadata->0.within(
                old(self).constants.uri_limit,
                old(self).constants.description_limit,
            ),
        ensures
            final(self).wf(),
            faithful::<T>(final(self).log()),
            match origin {
                Origin::Signed(creator) => exists|r: CreateReplies|
                    create_done(
                        old(self).store(),
                        old(self).log(),
                        CreateArgs {
                            creator,
                            name: name@,
                            symbol: symbol@,
                            creator_fee_recipient,
                            initial_buy,
                            min_tokens_out,
                            expected_params_hash,
                            metadata,
                            commitments,
                        },
                        r,
                        result,
                        final(self).store(),
                        final(self).log(),
                    ),
                _ => {
                    &&& result == Err::<Option<ActualWeight>, _>(DispatchError::BadOrigin)
                    &&& final(self).store() == old(self).store()
                    &&& final(self).log() == old(self).log()
                },
            },
    {
        let result = match origin {
            Origin::Signed(creator) => self.create_inner(
                &creator,
                &name,
                &symbol,
                creator_fee_recipient,
                initial_buy,
                min_tokens_out,
                expected_params_hash,
                metadata,
                commitments,
            ).0,
            _ => Err(DispatchError::BadOrigin),
        };
        self.host.attest();
        result
    }
}

} // verus!
