//! Version 1 to 2 (L3): a launch gains its creator's commitments.
//!
//! Every stored launch is laid out anew without a commitment. A commitment
//! exists only if it was made at creation; a migration cannot make one. Locks
//! and burn intervals start empty.
use crate::codec::{decode_count, encode_count};
use crate::config::Config;
use crate::pallet::{Pallet, Store};
use crate::records::{CreatorCommitments, CurveParams, FeeDisposition, Launch};
use crate::types::{AccountId, AssetId, Balance, BlockNumber, Hash256, LaunchId};
use std::collections::BTreeMap;
use vstd::bytes::{spec_u64_from_le_bytes, spec_u64_to_le_bytes};
use vstd::prelude::*;
use vstd::std_specs::iter::IteratorSpec;

verus! {

broadcast use vstd::std_specs::btree::group_btree_axioms;

/// `Launch` as stored at version 1.
#[derive(Clone, Copy, PartialEq, Eq, Debug)]
pub struct OldLaunch {
    pub asset_id: AssetId,
    pub creator: AccountId,
    pub creator_fee_recipient: AccountId,
    pub escrow: AccountId,
    pub created_at: BlockNumber,
    pub curve: CurveParams<Balance>,
    pub params_hash: Hash256,
}

/// A launch without a commitment.
pub open spec fn launch_upgraded(o: OldLaunch) -> Launch {
    Launch {
        asset_id: o.asset_id,
        creator: o.creator,
        creator_fee_recipient: o.creator_fee_recipient,
        escrow: o.escrow,
        created_at: o.created_at,
        curve: o.curve,
        params_hash: o.params_hash,
        commitments: CreatorCommitments { fee_disposition: FeeDisposition::Recipient, lock: None },
    }
}

/// What the migration leaves in the records.
pub open spec fn upgraded(s: Store, old_launches: Map<LaunchId, OldLaunch>) -> Store {
    Store { launches: old_launches.map_values(|o: OldLaunch| launch_upgraded(o)), ..s }
}

/// What the first check's bytes read as.
pub open spec fn count_of(state: Seq<u8>) -> Option<u64> {
    if state.len() < 8 {
        None
    } else {
        Some(spec_u64_from_le_bytes(state.subrange(0, 8)))
    }
}

/// No launch has a commitment.
pub open spec fn uncommitted(s: Store) -> bool {
    forall|id: LaunchId| #[trigger]
        s.launches.contains_key(id) ==> !s.launches[id].commitments.committed()
}

/// Why the last check of the migration fails.
#[derive(Clone, Copy, PartialEq, Eq, Debug)]
pub enum UpgradeError {
    /// The first check's bytes cannot be read.
    State,
    /// A launch is committed.
    Committed,
    /// A launch was lost, or one came up.
    Counts,
    /// There is a lock.
    Locks,
}

impl UpgradeError {
    /// The error in words.
    pub fn message(&self) -> (r: &'static str)
        ensures
            r@ == match *self {
                UpgradeError::State => "decode"@,
                UpgradeError::Committed => "no launch is committed by migration"@,
                UpgradeError::Counts => "every launch decodes after L3"@,
                UpgradeError::Locks => "no locks"@,
            },
    {
        match self {
            UpgradeError::State => "decode",
            UpgradeError::Committed => "no launch is committed by migration",
            UpgradeError::Counts => "every launch decodes after L3",
            UpgradeError::Locks => "no locks",
        }
    }
}

/// What the last check finds.
pub open spec fn post_upgrade_fault(
    s: Store,
    state: Seq<u8>,
    lock_stored: bool,
) -> Option<UpgradeError> {
    if count_of(state) is None {
        Some(UpgradeError::State)
    } else if !uncommitted(s) {
        Some(UpgradeError::Committed)
    } else if s.launches.len() != count_of(state)->0 {
        Some(UpgradeError::Counts)
    } else if lock_stored {
        Some(UpgradeError::Locks)
    } else {
        None
    }
}

fn upgrade_launch(o: &OldLaunch) -> (r: Launch)
    ensures
        r == launch_upgraded(*o),
{
    Launch {
        asset_id: o.asset_id,
        creator: o.creator,
        creator_fee_recipient: o.creator_fee_recipient,
        escrow: o.escrow,
        created_at: o.created_at,
        curve: o.curve,
        params_hash: o.params_hash,
        commitments: CreatorCommitments { fee_disposition: FeeDisposition::Recipient, lock: None },
    }
}

/// The migration itself; to be run on records of version 1 only.
pub struct VersionUncheckedMigrateToV2;

impl VersionUncheckedMigrateToV2 {
    /// Re-lay every stored launch. Returns the database reads and writes that
    /// this takes.
    pub fn on_runtime_upgrade<T: Config>(
        pallet: &mut Pallet<T>,
        old_launches: &BTreeMap<LaunchId, OldLaunch>,
    ) -> (r: (u64, u64))
        ensures
            final(pallet).store() == upgraded(old(pallet).store(), old_launches@),
            final(pallet).log() == old(pallet).log(),
            r.0 == old_launches@.len(),
            r.1 == old_launches@.len(),
    {
        let mut new: BTreeMap<LaunchId, Launch> = BTreeMap::new();
        for (id, o) in it: old_launches.iter()
            invariant
                it.seq() == old_launches.iter().remaining(),
                forall|k: LaunchId| #[trigger]
                    new@.contains_key(k) ==> old_launches@.contains_key(k) && new@[k]
                        == launch_upgraded(old_launches@[k]),
                forall|i: int|
                    0 <= i < it.index() ==> new@.contains_key(*(#[trigger] it.seq()[i]).0),
        {
            new.insert(*id, upgrade_launch(o));
        }
        proof {
            let f = |o: OldLaunch| launch_upgraded(o);
            assert(new@ =~= old_launches@.map_values(f));
        }
        pallet.launches = new;
        let n: u64 = old_launches.len() as u64;
        (n, n)
    }

    /// The first check: how many launches there are, as bytes. It counts the
    /// keys that are stored, whether or not what is under them can be read.
    pub fn pre_upgrade(launch_keys: usize) -> (r: Vec<u8>)
        ensures
            r@ == spec_u64_to_le_bytes(launch_keys as u64),
    {
        encode_count(launch_keys as u64)
    }

    /// The last check: no launch was lost, none was committed, nothing is
    /// locked. `state` is what the first check returned; the launches of `pallet`
    /// are those that can be read, and `lock_stored` is whether there is the key
    /// of any lock.
    pub fn post_upgrade<T: Config>(pallet: &Pallet<T>, state: Vec<u8>, lock_stored: bool) -> (r:
        Result<(), UpgradeError>)
        ensures
            r == match post_upgrade_fault(pallet.store(), state@, lock_stored) {
                Some(e) => Err::<(), UpgradeError>(e),
                None => Ok::<(), UpgradeError>(()),
            },
    {
        let ghost s = pallet.store();
        let before: u64 = match decode_count(&state) {
            Some(n) => n,
            None => return Err(UpgradeError::State),
        };
        for (id, l) in it: pallet.launches.iter()
            invariant
                s == pallet.store(),
                count_of(state@) == Some(before),
                it.seq() == pallet.launches.iter().remaining(),
                forall|i: int|
                    0 <= i < it.index() ==> !(#[trigger] it.seq()[i]).1.commitments.committed(),
        {
            if l.commitments.is_committed() {
                assert(s.launches.contains_key(*id));
                assert(!uncommitted(s));
                return Err(UpgradeError::Committed);
            }
        }
        assert(uncommitted(s));
        if pallet.launches.len() as u64 != before {
            return Err(UpgradeError::Counts);
        }
        if lock_stored {
            return Err(UpgradeError::Locks);
        }
        Ok(())
    }
}

} // verus!
