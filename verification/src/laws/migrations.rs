//! Laws of the storage migrations.
use crate::BPS;
use crate::codec::{bool_bytes, counts_of};
use crate::laws::rules::least;
use crate::migrations::{v1, v2};
use crate::pallet::Store;
use crate::pallet::terms::params_in_bounds;
use crate::records::LaunchParams;
use crate::types::{BlockNumber, LaunchId};
use vstd::bytes::{spec_u32_to_le_bytes, spec_u64_from_le_bytes, spec_u64_to_le_bytes};
use vstd::prelude::*;

verus! {

/// The first migration keeps every launch under its id with every field it had;
/// what it adds is zero, and it commits nobody to anything.
pub proof fn law_v1_keeps_every_launch(
    s: Store,
    old_records: v1::OldRecords,
    now: BlockNumber,
    id: LaunchId,
)
    ensures
        ({
            let s1 = v1::upgraded(s, old_records, now);
            &&& s1.launches.contains_key(id) == old_records.launches@.contains_key(id)
            &&& s1.curves.contains_key(id) == old_records.curves@.contains_key(id)
            &&& old_records.launches@.contains_key(id) ==> {
                let o = old_records.launches@[id];
                let l = s1.launches[id];
                &&& l == v1::launch_upgraded(o)
                &&& l.curve.treasury_share_bps == 0
                &&& !l.commitments.committed()
            }
            &&& old_records.curves@.contains_key(id) ==> {
                let o = old_records.curves@[id];
                let c = s1.curves[id];
                &&& c == v1::curve_upgraded(o, now)
                &&& c.treasury_fees_paid == 0
                &&& c.real_quote == o.real_quote
                &&& c.tokens_remaining == o.tokens_remaining
                &&& c.creator_fees_unclaimed == o.creator_fees_unclaimed
            }
            &&& s1.next_launch_id == s.next_launch_id
            &&& s1.asset_to_launch == s.asset_to_launch
        }),
{
}

/// The second migration keeps every launch as it was and commits nobody.
pub proof fn law_v2_keeps_every_launch(
    s: Store,
    old_launches: Map<LaunchId, v2::OldLaunch>,
    id: LaunchId,
)
    ensures
        ({
            let s1 = v2::upgraded(s, old_launches);
            &&& s1.launches.contains_key(id) == old_launches.contains_key(id)
            &&& old_launches.contains_key(id) ==> s1.launches[id] == v2::launch_upgraded(
                old_launches[id],
            ) && !s1.launches[id].commitments.committed()
            &&& s1.curves == s.curves
            &&& s1.locks == s.locks
        }),
{
}

/// What the first migration's first check writes, its last check reads.
pub proof fn law_v1_counts_are_read_back(launches: u32, curves: u32, next: LaunchId, set: bool)
    ensures
        counts_of(v1::counts_bytes(launches, curves, next, set)) == Some(
            (launches, curves, next, set),
        ),
{
    vstd::bytes::lemma_auto_spec_u32_to_from_le_bytes();
    vstd::bytes::lemma_auto_spec_u64_to_from_le_bytes();
    let b = v1::counts_bytes(launches, curves, next, set);
    assert(b.subrange(0, 4) =~= spec_u32_to_le_bytes(launches));
    assert(b.subrange(4, 8) =~= spec_u32_to_le_bytes(curves));
    assert(b.subrange(8, 16) =~= spec_u64_to_le_bytes(next));
    assert(b[16] == bool_bytes(set)[0]);
}

/// What the second migration's first check writes, its last check reads.
pub proof fn law_v2_count_is_read_back(n: u64)
    ensures
        v2::count_of(spec_u64_to_le_bytes(n)) == Some(n),
{
    vstd::bytes::lemma_auto_spec_u64_to_from_le_bytes();
    assert(spec_u64_to_le_bytes(n).subrange(0, 8) =~= spec_u64_to_le_bytes(n));
}

/// A mapped map has as many entries.
proof fn lemma_map_values_len<K, V, W>(m: Map<K, V>, f: spec_fn(V) -> W)
    ensures
        m.map_values(f).len() == m.len(),
{
    assert(m.map_values(f).dom() =~= m.dom());
}

/// The last check of the first migration passes on what the migration left,
/// with what the first check found, wherever every stored record could be read,
/// no curve completed or graduated in the future and the parameters are ones
/// that governance may set.
pub proof fn law_v1_passes_its_own_check(
    s: Store,
    old_records: v1::OldRecords,
    launch_keys: usize,
    curve_keys: usize,
    migrated_at: BlockNumber,
    now: BlockNumber,
    result: Result<(), v1::UpgradeError>,
)
    requires
        launch_keys == old_records.launches@.len(),
        curve_keys == old_records.curves@.len(),
        launch_keys <= u32::MAX,
        curve_keys <= u32::MAX,
        migrated_at <= now,
        forall|id: LaunchId| #[trigger]
            old_records.curves@.contains_key(id) ==> v1::last_event(
                old_records.curves@[id],
                migrated_at,
            ) <= now,
        params_in_bounds(
            s.constants,
            v1::upgraded(s, old_records, migrated_at).live_params(),
        ),
        v1::post_upgrade_done(
            v1::upgraded(s, old_records, migrated_at),
            v1::counts_bytes(
                launch_keys as u32,
                curve_keys as u32,
                s.next_launch_id,
                old_records.params is Some,
            ),
            old_records.params is Some,
            now,
            result,
        ),
    ensures
        result is Ok,
{
    law_v1_counts_are_read_back(
        launch_keys as u32,
        curve_keys as u32,
        s.next_launch_id,
        old_records.params is Some,
    );
    lemma_map_values_len(
        old_records.launches@,
        |o: v1::OldLaunch| v1::launch_upgraded(o),
    );
    lemma_map_values_len(
        old_records.curves@,
        |o: v1::OldCurveState| v1::curve_upgraded(o, migrated_at),
    );
}

/// A launch or a curve whose key is stored but which could not be read fails the
/// last check of the first migration, whatever else is in order.
pub proof fn law_v1_misses_no_lost_record(
    s: Store,
    old_records: v1::OldRecords,
    launch_keys: usize,
    curve_keys: usize,
    params_stored: bool,
    params_stored_after: bool,
    migrated_at: BlockNumber,
    now: BlockNumber,
    result: Result<(), v1::UpgradeError>,
)
    requires
        launch_keys <= u32::MAX,
        curve_keys <= u32::MAX,
        old_records.launches@.len() < launch_keys || old_records.curves@.len() < curve_keys,
        v1::post_upgrade_done(
            v1::upgraded(s, old_records, migrated_at),
            v1::counts_bytes(
                launch_keys as u32,
                curve_keys as u32,
                s.next_launch_id,
                params_stored,
            ),
            params_stored_after,
            now,
            result,
        ),
    ensures
        result is Err,
{
    law_v1_counts_are_read_back(
        launch_keys as u32,
        curve_keys as u32,
        s.next_launch_id,
        params_stored,
    );
    lemma_map_values_len(
        old_records.launches@,
        |o: v1::OldLaunch| v1::launch_upgraded(o),
    );
    lemma_map_values_len(
        old_records.curves@,
        |o: v1::OldCurveState| v1::curve_upgraded(o, migrated_at),
    );
}

/// The last check of the second migration passes on what the migration left,
/// with what the first check found, exactly where every stored launch could be
/// read and no lock is stored.
pub proof fn law_v2_passes_its_own_check(
    s: Store,
    old_launches: Map<LaunchId, v2::OldLaunch>,
    launch_keys: usize,
    lock_stored: bool,
)
    ensures
        v2::post_upgrade_fault(
            v2::upgraded(s, old_launches),
            spec_u64_to_le_bytes(launch_keys as u64),
            lock_stored,
        ) is None <==> launch_keys == old_launches.len() && !lock_stored,
{
    law_v2_count_is_read_back(launch_keys as u64);
    lemma_map_values_len(old_launches, |o: v2::OldLaunch| v2::launch_upgraded(o));
}

/// Migrated records can be worked on, wherever the old shares were shares.
pub proof fn law_v1_leaves_workable_records(
    s: Store,
    old_records: v1::OldRecords,
    now: BlockNumber,
)
    requires
        s.constants.wf(),
        old_records.params is Some ==> old_records.params->0.protocol_share_bps <= BPS,
        forall|id: LaunchId| #[trigger]
            old_records.launches@.contains_key(id)
                ==> old_records.launches@[id].curve.protocol_share_bps <= BPS,
    ensures
        v1::upgraded(s, old_records, now).wf(),
{
}

/// The first migration keeps every field of every record and adds zero for what an
/// earlier version did not have. A curve counts as last traded when it graduated,
/// else when it completed, else now. Nothing else of the records changes.
pub proof fn law_v1_keeps_every_field(
    s: Store,
    old_records: v1::OldRecords,
    now: BlockNumber,
    id: LaunchId,
)
    ensures
        ({
            let s1 = v1::upgraded(s, old_records, now);
            &&& old_records.params matches Some(o) ==> s1.params == Some(
                LaunchParams {
                    graduation_target: o.graduation_target,
                    curve_fee_bps: o.curve_fee_bps,
                    protocol_share_bps: o.protocol_share_bps,
                    treasury_share_bps: 0,
                    pool_fee_tier: o.pool_fee_tier,
                    creation_fee: o.creation_fee,
                },
            )
            &&& old_records.params is None ==> s1.params is None
            &&& s1.launches.contains_key(id) <==> old_records.launches@.contains_key(id)
            &&& s1.curves.contains_key(id) <==> old_records.curves@.contains_key(id)
            &&& old_records.launches@.contains_key(id) ==> {
                let o = old_records.launches@[id];
                let l = s1.launches[id];
                &&& l.asset_id == o.asset_id
                &&& l.creator == o.creator
                &&& l.creator_fee_recipient == o.creator_fee_recipient
                &&& l.escrow == o.escrow
                &&& l.created_at == o.created_at
                &&& l.params_hash == o.params_hash
                &&& l.curve.graduation_target == o.curve.graduation_target
                &&& l.curve.virtual_quote == o.curve.virtual_quote
                &&& l.curve.curve_fee_bps == o.curve.curve_fee_bps
                &&& l.curve.protocol_share_bps == o.curve.protocol_share_bps
                &&& l.curve.treasury_share_bps == 0
                &&& l.curve.pool_fee_tier == o.curve.pool_fee_tier
                &&& l.commitments.fee_disposition is Recipient
                &&& l.commitments.lock is None
            }
            &&& old_records.curves@.contains_key(id) ==> {
                let o = old_records.curves@[id];
                let c = s1.curves[id];
                &&& c.phase == o.phase
                &&& c.real_quote == o.real_quote
                &&& c.tokens_remaining == o.tokens_remaining
                &&& c.creator_fees_unclaimed == o.creator_fees_unclaimed
                &&& c.protocol_fees_paid == o.protocol_fees_paid
                &&& c.treasury_fees_paid == 0
                &&& c.completed_at == o.completed_at
                &&& c.graduated_at == o.graduated_at
                &&& c.lp_shares == o.lp_shares
                &&& c.last_trade_block == if o.graduated_at is Some {
                    o.graduated_at->0
                } else if o.completed_at is Some {
                    o.completed_at->0
                } else {
                    now
                }
            }
            &&& s1 == (Store {
                params: s1.params,
                launches: s1.launches,
                curves: s1.curves,
                ..s
            })
        }),
{
}

/// The second migration keeps every field of every launch, commits nobody, and
/// changes nothing else.
pub proof fn law_v2_keeps_every_field(
    s: Store,
    old_launches: Map<LaunchId, v2::OldLaunch>,
    id: LaunchId,
)
    ensures
        ({
            let s1 = v2::upgraded(s, old_launches);
            &&& s1.launches.contains_key(id) <==> old_launches.contains_key(id)
            &&& old_launches.contains_key(id) ==> {
                let o = old_launches[id];
                let l = s1.launches[id];
                &&& l.asset_id == o.asset_id
                &&& l.creator == o.creator
                &&& l.creator_fee_recipient == o.creator_fee_recipient
                &&& l.escrow == o.escrow
                &&& l.created_at == o.created_at
                &&& l.curve == o.curve
                &&& l.params_hash == o.params_hash
                &&& l.commitments.fee_disposition is Recipient
                &&& l.commitments.lock is None
            }
            &&& s1 == (Store { launches: s1.launches, ..s })
        }),
{
}

/// The last check of the first migration passes exactly where the first check's
/// bytes can be read, no launch and no curve has anything that an earlier version did
/// not have, none was traded in the future, nothing was lost or added, and the
/// parameters are there as before and may be in force. Each failure is named by the
/// first of these that does not hold.
pub proof fn law_v1_last_check(
    s: Store,
    state: Seq<u8>,
    params_stored: bool,
    now: BlockNumber,
    result: Result<(), v1::UpgradeError>,
)
    requires
        v1::post_upgrade_done(s, state, params_stored, now, result),
    ensures
        ({
            let read = counts_of(state);
            let (launches, curves, next, set) = read->0;
            let most = u32::MAX as int;
            let live = s.live_params();
            if read is None {
                result == Err::<(), _>(v1::UpgradeError::State)
            } else if exists|id: LaunchId| #[trigger]
                s.launches.contains_key(id) && s.launches[id].curve.treasury_share_bps != 0 {
                result == Err::<(), _>(v1::UpgradeError::TreasuryShare)
            } else if exists|id: LaunchId| #[trigger]
                s.curves.contains_key(id) && (s.curves[id].treasury_fees_paid != 0
                    || s.curves[id].last_trade_block > now) {
                exists|id: LaunchId| #[trigger]
                    s.curves.contains_key(id) && (if s.curves[id].treasury_fees_paid != 0 {
                        result == Err::<(), _>(v1::UpgradeError::TreasuryFees)
                    } else {
                        s.curves[id].last_trade_block > now && result == Err::<(), _>(
                            v1::UpgradeError::FutureTrade,
                        )
                    })
            } else if least(s.launches.len() as int, most) != launches || least(
                s.curves.len() as int,
                most,
            ) != curves {
                result == Err::<(), _>(v1::UpgradeError::Counts)
            } else if s.next_launch_id != next {
                result == Err::<(), _>(v1::UpgradeError::NextId)
            } else if params_stored != set {
                result == Err::<(), _>(v1::UpgradeError::ParamsPresence)
            } else if set && live.treasury_share_bps != 0 {
                result == Err::<(), _>(v1::UpgradeError::ParamsShare)
            } else if !params_in_bounds(s.constants, live) {
                result == Err::<(), _>(v1::UpgradeError::ParamsBounds)
            } else {
                result is Ok
            }
        }),
{
    if v1::shares_zero(s) {
        assert(forall|id: LaunchId| #[trigger]
            s.launches.contains_key(id) ==> s.launches[id].curve.treasury_share_bps == 0);
        if v1::curves_sound(s, now) {
            assert(forall|id: LaunchId| #[trigger]
                s.curves.contains_key(id) ==> v1::curve_fault(s.curves[id], now) is None);
        } else {
            let bad = choose|id: LaunchId| #[trigger]
                s.curves.contains_key(id) && v1::curve_fault(s.curves[id], now) is Some;
            assert(s.curves.contains_key(bad));
        }
    }
}

/// The last check of the second migration passes exactly where the first check's
/// bytes can be read, no launch is committed, none was lost or added, and no lock is
/// stored. Each failure is named by the first of these that does not hold.
pub proof fn law_v2_last_check(s: Store, state: Seq<u8>, lock_stored: bool)
    ensures
        v2::post_upgrade_fault(s, state, lock_stored) == (if state.len() < 8 {
            Some(v2::UpgradeError::State)
        } else if exists|id: LaunchId| #[trigger]
            s.launches.contains_key(id) && (s.launches[id].commitments.fee_disposition is BuybackBurn
                || s.launches[id].commitments.lock is Some) {
            Some(v2::UpgradeError::Committed)
        } else if s.launches.len() != spec_u64_from_le_bytes(state.subrange(0, 8)) {
            Some(v2::UpgradeError::Counts)
        } else if lock_stored {
            Some(v2::UpgradeError::Locks)
        } else {
            None
        }),
{
}

} // verus!
