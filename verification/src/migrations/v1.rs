//! Version 0 to 1 (L1): the parameters gain a treasury share; the curve state gains
//! the treasury fees paid and the last trade block.
//!
//! Existing launches get a treasury share of zero: a launch's terms are its
//! snapshot, and the treasury's share is a term. Stored governance parameters
//! get zero too, for governance to raise with `set_params`. The last trade
//! block becomes the curve's last known event (its graduation, else its
//! completion, else the block the migration runs in), so that a dormancy clock
//! can only start from the upgrade, never earlier.
use crate::codec::{bool_bytes, counts_of, decode_counts, encode_counts};
use crate::config::{Call, Config};
use crate::pallet::{Pallet, Store};
use crate::pallet::terms::params_in_bounds;
use crate::records::{
    CreatorCommitments, CurveParams, CurveState, FeeDisposition, Launch, LaunchParams, Phase,
};
use crate::types::{AccountId, AssetId, Balance, BlockNumber, Hash256, LaunchId};
use std::collections::BTreeMap;
use vstd::bytes::{spec_u32_to_le_bytes, spec_u64_to_le_bytes};
use vstd::prelude::*;
use vstd::std_specs::iter::IteratorSpec;

verus! {

broadcast use vstd::std_specs::btree::group_btree_axioms;

/// `LaunchParams` as stored at version 0.
#[derive(Clone, Copy, PartialEq, Eq, Debug)]
pub struct OldLaunchParams<Balance> {
    pub graduation_target: Balance,
    pub curve_fee_bps: u16,
    pub protocol_share_bps: u16,
    pub pool_fee_tier: u32,
    pub creation_fee: Balance,
}

/// `CurveParams` as stored at version 0.
#[derive(Clone, Copy, PartialEq, Eq, Debug)]
pub struct OldCurveParams<Balance> {
    pub graduation_target: Balance,
    pub virtual_quote: Balance,
    pub curve_fee_bps: u16,
    pub protocol_share_bps: u16,
    pub pool_fee_tier: u32,
}

/// `Launch` as stored at version 0.
#[derive(Clone, Copy, PartialEq, Eq, Debug)]
pub struct OldLaunch {
    pub asset_id: AssetId,
    pub creator: AccountId,
    pub creator_fee_recipient: AccountId,
    pub escrow: AccountId,
    pub created_at: BlockNumber,
    pub curve: OldCurveParams<Balance>,
    pub params_hash: Hash256,
}

/// `CurveState` as stored at version 0.
#[derive(Clone, Copy, PartialEq, Eq, Debug)]
pub struct OldCurveState {
    pub phase: Phase,
    pub real_quote: Balance,
    pub tokens_remaining: Balance,
    pub creator_fees_unclaimed: Balance,
    pub protocol_fees_paid: Balance,
    pub completed_at: Option<BlockNumber>,
    pub graduated_at: Option<BlockNumber>,
    pub lp_shares: Balance,
}

/// What version 0 stores in another layout than version 1.
pub struct OldRecords {
    /// Absent on a chain still on the runtime default.
    pub params: Option<OldLaunchParams<Balance>>,
    pub launches: BTreeMap<LaunchId, OldLaunch>,
    pub curves: BTreeMap<LaunchId, OldCurveState>,
}

/// Parameters with a treasury share of zero.
pub open spec fn params_upgraded(o: OldLaunchParams<Balance>) -> LaunchParams<Balance> {
    LaunchParams {
        graduation_target: o.graduation_target,
        curve_fee_bps: o.curve_fee_bps,
        protocol_share_bps: o.protocol_share_bps,
        treasury_share_bps: 0,
        pool_fee_tier: o.pool_fee_tier,
        creation_fee: o.creation_fee,
    }
}

/// A launch with a treasury share of zero and without a commitment.
pub open spec fn launch_upgraded(o: OldLaunch) -> Launch {
    Launch {
        asset_id: o.asset_id,
        creator: o.creator,
        creator_fee_recipient: o.creator_fee_recipient,
        escrow: o.escrow,
        created_at: o.created_at,
        curve: CurveParams {
            graduation_target: o.curve.graduation_target,
            virtual_quote: o.curve.virtual_quote,
            curve_fee_bps: o.curve.curve_fee_bps,
            protocol_share_bps: o.curve.protocol_share_bps,
            treasury_share_bps: 0,
            pool_fee_tier: o.curve.pool_fee_tier,
        },
        params_hash: o.params_hash,
        commitments: CreatorCommitments { fee_disposition: FeeDisposition::Recipient, lock: None },
    }
}

/// A curve's last known event.
pub open spec fn last_event(o: OldCurveState, now: BlockNumber) -> BlockNumber {
    match (o.graduated_at, o.completed_at) {
        (Some(b), _) => b,
        (None, Some(b)) => b,
        (None, None) => now,
    }
}

/// A curve state without treasury fees, last traded at its last known event.
pub open spec fn curve_upgraded(o: OldCurveState, now: BlockNumber) -> CurveState {
    CurveState {
        phase: o.phase,
        real_quote: o.real_quote,
        tokens_remaining: o.tokens_remaining,
        creator_fees_unclaimed: o.creator_fees_unclaimed,
        protocol_fees_paid: o.protocol_fees_paid,
        treasury_fees_paid: 0,
        last_trade_block: last_event(o, now),
        completed_at: o.completed_at,
        graduated_at: o.graduated_at,
        lp_shares: o.lp_shares,
    }
}

/// What the migration leaves in the records.
pub open spec fn upgraded(s: Store, old: OldRecords, now: BlockNumber) -> Store {
    Store {
        params: match old.params {
            Some(o) => Some(params_upgraded(o)),
            None => None,
        },
        launches: old.launches@.map_values(|o: OldLaunch| launch_upgraded(o)),
        curves: old.curves@.map_values(|o: OldCurveState| curve_upgraded(o, now)),
        ..s
    }
}

/// The bytes that the first check hands to the last one.
pub open spec fn counts_bytes(launches: u32, curves: u32, next: LaunchId, set: bool) -> Seq<u8> {
    spec_u32_to_le_bytes(launches) + spec_u32_to_le_bytes(curves) + spec_u64_to_le_bytes(next)
        + bool_bytes(set)
}

fn upgrade_params(o: &OldLaunchParams<Balance>) -> (r: LaunchParams<Balance>)
    ensures
        r == params_upgraded(*o),
{
    LaunchParams {
        graduation_target: o.graduation_target,
        curve_fee_bps: o.curve_fee_bps,
        protocol_share_bps: o.protocol_share_bps,
        treasury_share_bps: 0,
        pool_fee_tier: o.pool_fee_tier,
        creation_fee: o.creation_fee,
    }
}

fn upgrade_launch(o: &OldLaunch) -> (r: Launch)
    ensures
        r == launch_upgraded(*o),
{
    Launch {
        asset_id: o.asset_id,
        creator: o.creator,
        creator_fee_recipient: o.creator_fee_recipient,
        escrow: o.escrow,
        created_at: o.created_at,
        curve: CurveParams {
            graduation_target: o.curve.graduation_target,
            virtual_quote: o.curve.virtual_quote,
            curve_fee_bps: o.curve.curve_fee_bps,
            protocol_share_bps: o.curve.protocol_share_bps,
            treasury_share_bps: 0,
            pool_fee_tier: o.curve.pool_fee_tier,
        },
        params_hash: o.params_hash,
        commitments: CreatorCommitments { fee_disposition: FeeDisposition::Recipient, lock: None },
    }
}

fn upgrade_curve(o: &OldCurveState, now: BlockNumber) -> (r: CurveState)
    ensures
        r == curve_upgraded(*o, now),
{
    CurveState {
        phase: o.phase,
        real_quote: o.real_quote,
        tokens_remaining: o.tokens_remaining,
        creator_fees_unclaimed: o.creator_fees_unclaimed,
        protocol_fees_paid: o.protocol_fees_paid,
        treasury_fees_paid: 0,
        last_trade_block: match (o.graduated_at, o.completed_at) {
            (Some(b), _) => b,
            (None, Some(b)) => b,
            (None, None) => now,
        },
        completed_at: o.completed_at,
        graduated_at: o.graduated_at,
        lp_shares: o.lp_shares,
    }
}

/// Every launch in its new layout.
fn upgrade_launches(old: &BTreeMap<LaunchId, OldLaunch>) -> (r: BTreeMap<LaunchId, Launch>)
    ensures
        r@ == old@.map_values(|o: OldLaunch| launch_upgraded(o)),
{
    let mut new: BTreeMap<LaunchId, Launch> = BTreeMap::new();
    for (id, o) in it: old.iter()
        invariant
            it.seq() == old.iter().remaining(),
            forall|k: LaunchId| #[trigger]
                new@.contains_key(k) ==> old@.contains_key(k) && new@[k] == launch_upgraded(
                    old@[k],
                ),
            forall|i: int|
                0 <= i < it.index() ==> new@.contains_key(*(#[trigger] it.seq()[i]).0),
    {
        new.insert(*id, upgrade_launch(o));
    }
    proof {
        let f = |o: OldLaunch| launch_upgraded(o);
        assert(new@ =~= old@.map_values(f));
    }
    new
}

/// Every curve in its new layout.
fn upgrade_curves(old: &BTreeMap<LaunchId, OldCurveState>, now: BlockNumber) -> (r: BTreeMap<
    LaunchId,
    CurveState,
>)
    ensures
        r@ == old@.map_values(|o: OldCurveState| curve_upgraded(o, now)),
{
    let mut new: BTreeMap<LaunchId, CurveState> = BTreeMap::new();
    for (id, o) in it: old.iter()
        invariant
            it.seq() == old.iter().remaining(),
            forall|k: LaunchId| #[trigger]
                new@.contains_key(k) ==> old@.contains_key(k) && new@[k] == curve_upgraded(
                    old@[k],
                    now,
                ),
            forall|i: int|
                0 <= i < it.index() ==> new@.contains_key(*(#[trigger] it.seq()[i]).0),
    {
        new.insert(*id, upgrade_curve(o, now));
    }
    proof {
        let f = |o: OldCurveState| curve_upgraded(o, now);
        assert(new@ =~= old@.map_values(f));
    }
    new
}

/// Why the last check of the migration fails.
#[derive(Clone, Copy, PartialEq, Eq, Debug)]
pub enum UpgradeError {
    /// The first check's bytes cannot be read.
    State,
    /// A launch carries a treasury share.
    TreasuryShare,
    /// A curve has paid treasury fees.
    TreasuryFees,
    /// A curve was last traded in the future.
    FutureTrade,
    /// A launch or a curve was lost, or one came up.
    Counts,
    /// The next launch id moved.
    NextId,
    /// Parameters were set that were absent, or the other way round.
    ParamsPresence,
    /// Stored parameters carry a treasury share.
    ParamsShare,
    /// The parameters could not be set by governance.
    ParamsBounds,
}

impl UpgradeError {
    /// The error in words.
    pub fn message(&self) -> (r: &'static str)
        ensures
            r@ == match *self {
                UpgradeError::State => "pre_upgrade state"@,
                UpgradeError::TreasuryShare => "every pre-L1 launch carries treasury_share_bps = 0"@,
                UpgradeError::TreasuryFees => "no treasury fee was paid before L1"@,
                UpgradeError::FutureTrade => "last_trade_block is in the past"@,
                UpgradeError::Counts => "every launch and curve decodes after L1"@,
                UpgradeError::NextId => "next id untouched"@,
                UpgradeError::ParamsPresence => "params stay set or stay absent"@,
                UpgradeError::ParamsShare =>
                    "stored governance params carry treasury_share_bps = 0 until set_params"@,
                UpgradeError::ParamsBounds => "governance params still valid"@,
            },
    {
        match self {
            UpgradeError::State => "pre_upgrade state",
            UpgradeError::TreasuryShare => "every pre-L1 launch carries treasury_share_bps = 0",
            UpgradeError::TreasuryFees => "no treasury fee was paid before L1",
            UpgradeError::FutureTrade => "last_trade_block is in the past",
            UpgradeError::Counts => "every launch and curve decodes after L1",
            UpgradeError::NextId => "next id untouched",
            UpgradeError::ParamsPresence => "params stay set or stay absent",
            UpgradeError::ParamsShare =>
                "stored governance params carry treasury_share_bps = 0 until set_params",
            UpgradeError::ParamsBounds => "governance params still valid",
        }
    }
}

/// What is wrong with an upgraded curve, if anything is.
pub open spec fn curve_fault(c: CurveState, now: BlockNumber) -> Option<UpgradeError> {
    if c.treasury_fees_paid != 0 {
        Some(UpgradeError::TreasuryFees)
    } else if c.last_trade_block > now {
        Some(UpgradeError::FutureTrade)
    } else {
        None
    }
}

/// Every launch carries a treasury share of zero.
pub open spec fn shares_zero(s: Store) -> bool {
    forall|id: LaunchId| #[trigger]
        s.launches.contains_key(id) ==> s.launches[id].curve.treasury_share_bps == 0
}

/// Every curve is without fault.
pub open spec fn curves_sound(s: Store, now: BlockNumber) -> bool {
    forall|id: LaunchId| #[trigger]
        s.curves.contains_key(id) ==> curve_fault(s.curves[id], now) is None
}

/// Some curve has this fault.
pub open spec fn curve_faulty(s: Store, now: BlockNumber, e: UpgradeError) -> bool {
    exists|id: LaunchId| #[trigger]
        s.curves.contains_key(id) && curve_fault(s.curves[id], now) == Some(e)
}

/// A count that stops at the largest number.
pub open spec fn capped(n: nat) -> u32 {
    if n > u32::MAX {
        u32::MAX
    } else {
        n as u32
    }
}

/// What the last check finds once launches and curves are in order. Stored
/// parameters that cannot be read are there all the same: the runtime's default
/// is then in force, and is what is looked at.
pub open spec fn rest_fault(
    s: Store,
    counts: (u32, u32, LaunchId, bool),
    params_stored: bool,
) -> Option<UpgradeError> {
    let (launches, curves, next, set) = counts;
    if capped(s.launches.len()) != launches || capped(s.curves.len()) != curves {
        Some(UpgradeError::Counts)
    } else if s.next_launch_id != next {
        Some(UpgradeError::NextId)
    } else if params_stored != set {
        Some(UpgradeError::ParamsPresence)
    } else if set && s.live_params().treasury_share_bps != 0 {
        Some(UpgradeError::ParamsShare)
    } else if !params_in_bounds(s.constants, s.live_params()) {
        Some(UpgradeError::ParamsBounds)
    } else {
        None
    }
}

/// What the last check returns. Of several faulty curves any may be named.
pub open spec fn post_upgrade_done(
    s: Store,
    state: Seq<u8>,
    params_stored: bool,
    now: BlockNumber,
    result: Result<(), UpgradeError>,
) -> bool {
    if counts_of(state) is None {
        result == Err::<(), _>(UpgradeError::State)
    } else if !shares_zero(s) {
        result == Err::<(), _>(UpgradeError::TreasuryShare)
    } else if !curves_sound(s, now) {
        result is Err && curve_faulty(s, now, result->Err_0)
    } else {
        match rest_fault(s, counts_of(state)->0, params_stored) {
            Some(e) => result == Err::<(), _>(e),
            None => result == Ok::<(), UpgradeError>(()),
        }
    }
}

/// The migration itself; to be run on records of version 0 only.
pub struct VersionUncheckedMigrateToV1;

impl VersionUncheckedMigrateToV1 {
    /// Re-lay every stored record. Returns the database reads and writes that
    /// this takes. Absent parameters stay absent: the runtime's default then
    /// applies, treasury share included.
    pub fn on_runtime_upgrade<T: Config>(pallet: &mut Pallet<T>, old_records: &OldRecords) -> (r: (
        u64,
        u64,
    ))
        ensures
            exists|now: BlockNumber|
                {
                    &&& final(pallet).log() == #[trigger] old(pallet).log().push(
                        Call::BlockNumber { reply: now },
                    )
                    &&& final(pallet).store() == upgraded(old(pallet).store(), *old_records, now)
                },
            r.0 == r.1,
            r.0 == if old_records.launches@.len() + old_records.curves@.len() + 1 > u64::MAX {
                u64::MAX as nat
            } else {
                old_records.launches@.len() + old_records.curves@.len() + 1
            },
    {
        let ghost s0 = pallet.store();
        let ghost log0 = pallet.log();
        let now: BlockNumber = pallet.host.block_number();
        pallet.params = match &old_records.params {
            Some(o) => Some(upgrade_params(o)),
            None => None,
        };
        pallet.launches = upgrade_launches(&old_records.launches);
        pallet.curves = upgrade_curves(&old_records.curves, now);
        let launches: u64 = old_records.launches.len() as u64;
        let curves: u64 = old_records.curves.len() as u64;
        let touched: u64 = launches.saturating_add(curves).saturating_add(1);
        assert(pallet.log() == log0.push(Call::BlockNumber { reply: now }));
        assert(pallet.store() == upgraded(s0, *old_records, now));
        (touched, touched)
    }

    /// The first check: what there is, as bytes. It counts the keys that are
    /// stored, whether or not what is under them can be read.
    pub fn pre_upgrade<T: Config>(
        pallet: &Pallet<T>,
        launch_keys: usize,
        curve_keys: usize,
        params_stored: bool,
    ) -> (r: Vec<u8>)
        ensures
            r@ == counts_bytes(
                launch_keys as u32,
                curve_keys as u32,
                pallet.store().next_launch_id,
                params_stored,
            ),
    {
        encode_counts(
            #[verifier::truncate]
            (launch_keys as u32),
            #[verifier::truncate]
            (curve_keys as u32),
            pallet.next_launch_id,
            params_stored,
        )
    }

    /// The last check: nothing was lost, and nothing was added that was not
    /// there. `state` is what the first check returned; the launches and curves
    /// of `pallet` are those that can be read.
    pub fn post_upgrade<T: Config>(
        pallet: &mut Pallet<T>,
        state: Vec<u8>,
        params_stored: bool,
    ) -> (r: Result<(), UpgradeError>)
        ensures
            final(pallet).store() == old(pallet).store(),
            counts_of(state@) is None ==> {
                &&& r == Err::<(), _>(UpgradeError::State)
                &&& final(pallet).log() == old(pallet).log()
            },
            counts_of(state@) is Some ==> exists|now: BlockNumber|
                {
                    &&& final(pallet).log() == #[trigger] old(pallet).log().push(
                        Call::BlockNumber { reply: now },
                    )
                    &&& post_upgrade_done(old(pallet).store(), state@, params_stored, now, r)
                },
    {
        let ghost log0 = pallet.log();
        let counts = match decode_counts(&state) {
            Some(c) => c,
            None => return Err(UpgradeError::State),
        };
        let now: BlockNumber = pallet.host.block_number();
        assert(pallet.log() == log0.push(Call::BlockNumber { reply: now }));
        Self::check_upgraded(pallet, counts, params_stored, now, Ghost(state@))
    }

    /// The last check, with the first one's counts read and the block known.
    fn check_upgraded<T: Config>(
        pallet: &Pallet<T>,
        counts: (u32, u32, LaunchId, bool),
        params_stored: bool,
        now: BlockNumber,
        Ghost(state): Ghost<Seq<u8>>,
    ) -> (r: Result<(), UpgradeError>)
        requires
            counts_of(state) == Some(counts),
        ensures
            post_upgrade_done(pallet.store(), state, params_stored, now, r),
    {
        let ghost s = pallet.store();
        for (id, l) in it: pallet.launches.iter()
            invariant
                s == pallet.store(),
                counts_of(state) == Some(counts),
                it.seq() == pallet.launches.iter().remaining(),
                forall|i: int|
                    0 <= i < it.index() ==> (#[trigger] it.seq()[i]).1.curve.treasury_share_bps == 0,
        {
            if l.curve.treasury_share_bps != 0 {
                assert(s.launches.contains_key(*id));
                assert(!shares_zero(s));
                return Err(UpgradeError::TreasuryShare);
            }
        }
        assert(shares_zero(s));
        for (id, c) in it: pallet.curves.iter()
            invariant
                s == pallet.store(),
                counts_of(state) == Some(counts),
                shares_zero(s),
                it.seq() == pallet.curves.iter().remaining(),
                forall|i: int|
                    0 <= i < it.index() ==> curve_fault(*(#[trigger] it.seq()[i]).1, now) is None,
        {
            if c.treasury_fees_paid != 0 {
                assert(s.curves.contains_key(*id));
                assert(curve_faulty(s, now, UpgradeError::TreasuryFees));
                return Err(UpgradeError::TreasuryFees);
            }
            if c.last_trade_block > now {
                assert(s.curves.contains_key(*id));
                assert(curve_faulty(s, now, UpgradeError::FutureTrade));
                return Err(UpgradeError::FutureTrade);
            }
        }
        assert(curves_sound(s, now));
        let (launches, curves, next, set) = counts;
        if capped_count(pallet.launches.len()) != launches || capped_count(pallet.curves.len())
            != curves {
            return Err(UpgradeError::Counts);
        }
        if pallet.next_launch_id != next {
            return Err(UpgradeError::NextId);
        }
        if params_stored != set {
            return Err(UpgradeError::ParamsPresence);
        }
        let p = pallet.live_params();
        if set && p.treasury_share_bps != 0 {
            return Err(UpgradeError::ParamsShare);
        }
        if pallet.validate_params(&p).is_err() {
            return Err(UpgradeError::ParamsBounds);
        }
        Ok(())
    }
}

/// A count that stops at the largest number.
fn capped_count(n: usize) -> (r: u32)
    ensures
        r == capped(n as nat),
{
    if n > u32::MAX as usize {
        u32::MAX
    } else {
        n as u32
    }
}

} // verus!
