//! The launchpad itself: its records, and the calls that read and write them.
//!
//! Each call is described by the list of what it asks of the runtime, in
//! order, for given answers (a [`Run`](crate::config::Run)), and by what it
//! leaves in the records. A call that returns an error leaves the records as
//! they were: the storage layer around a dispatch takes back what it had
//! written.
pub mod commitments;
pub mod create;
pub mod disburse;
pub mod govern;
pub mod terms;
pub mod trade;
pub mod views;

use crate::config::{shares_fit, Call, Config, Constants, Host};
use crate::records::{CurveState, Launch, LaunchMetadata, LaunchParams, LockState};
use crate::types::{AssetId, Balance, BlockNumber, LaunchId};
use std::collections::BTreeMap;
use vstd::prelude::*;

verus! {

broadcast use vstd::std_specs::btree::group_btree_axioms;

/// The launchpad: the runtime's constants, what is stored, and the runtime.
pub struct Pallet<T: Config> {
    pub constants: Constants,
    /// Live governance parameters, once governance has set some. Read at
    /// `create_launch` and snapshotted.
    pub params: Option<LaunchParams<Balance>>,
    /// Blocks `create_launch` only. Never affects buy, sell or graduate.
    pub creation_paused: bool,
    pub next_launch_id: LaunchId,
    /// Monotone cursor for the next launch asset id to try.
    pub next_asset_id: Option<AssetId>,
    pub launches: BTreeMap<LaunchId, Launch>,
    pub curves: BTreeMap<LaunchId, CurveState>,
    /// Reverse index asset id → launch id.
    pub asset_to_launch: BTreeMap<AssetId, LaunchId>,
    /// Presentation metadata per launch. Absent when the creator gave none.
    pub metadata: BTreeMap<LaunchId, LaunchMetadata>,
    /// The locked tranche of a launch whose commitments carry a lock.
    pub locks: BTreeMap<LaunchId, LockState<Balance, BlockNumber>>,
    /// The block of the last burn slice executed for a launch.
    pub last_disburse_block: BTreeMap<LaunchId, BlockNumber>,
    pub host: Host<T>,
}

/// What the launchpad has stored, and the constants it was built with.
#[verifier::ext_equal]
pub struct Store {
    pub constants: Constants,
    pub params: Option<LaunchParams<Balance>>,
    pub creation_paused: bool,
    pub next_launch_id: LaunchId,
    pub next_asset_id: Option<AssetId>,
    pub launches: Map<LaunchId, Launch>,
    pub curves: Map<LaunchId, CurveState>,
    pub asset_to_launch: Map<AssetId, LaunchId>,
    pub metadata: Map<LaunchId, LaunchMetadata>,
    pub locks: Map<LaunchId, LockState<Balance, BlockNumber>>,
    pub last_disburse_block: Map<LaunchId, BlockNumber>,
}

impl Store {
    /// The parameters that a launch created now would snapshot.
    pub open spec fn live_params(self) -> LaunchParams<Balance> {
        match self.params {
            Some(p) => p,
            None => self.constants.default_launch_params,
        }
    }

    /// A launch has both of its records.
    pub open spec fn has(self, id: LaunchId) -> bool {
        self.launches.contains_key(id) && self.curves.contains_key(id)
    }

    /// The store with another curve state for one launch.
    pub open spec fn with_curve(self, id: LaunchId, state: CurveState) -> Store {
        Store { curves: self.curves.insert(id, state), ..self }
    }

    /// No stored share of a fee exceeds the fee.
    pub open spec fn wf(self) -> bool {
        &&& self.constants.wf()
        &&& self.params matches Some(p) ==> shares_fit(p.protocol_share_bps, p.treasury_share_bps)
        &&& forall|id: LaunchId| #[trigger]
            self.launches.contains_key(id) ==> shares_fit(
                self.launches[id].curve.protocol_share_bps,
                self.launches[id].curve.treasury_share_bps,
            )
    }
}

impl<T: Config> Pallet<T> {
    /// What is stored.
    pub open spec fn store(&self) -> Store {
        Store {
            constants: self.constants,
            params: self.params,
            creation_paused: self.creation_paused,
            next_launch_id: self.next_launch_id,
            next_asset_id: self.next_asset_id,
            launches: self.launches@,
            curves: self.curves@,
            asset_to_launch: self.asset_to_launch@,
            metadata: self.metadata@,
            locks: self.locks@,
            last_disburse_block: self.last_disburse_block@,
        }
    }

    /// Every call made to the runtime so far.
    pub open spec fn log(&self) -> Seq<Call> {
        self.host.log()
    }

    /// The records can be worked on.
    pub open spec fn wf(&self) -> bool {
        self.store().wf()
    }

    /// A launchpad without any launch.
    pub fn new(runtime: T, constants: Constants) -> (r: Self)
        requires
            constants.wf(),
        ensures
            r.wf(),
            r.log() == Seq::<Call>::empty(),
            r.host.held() == runtime,
            r.store() == (Store {
                constants,
                params: None,
                creation_paused: false,
                next_launch_id: 0,
                next_asset_id: None,
                launches: Map::empty(),
                curves: Map::empty(),
                asset_to_launch: Map::empty(),
                metadata: Map::empty(),
                locks: Map::empty(),
                last_disburse_block: Map::empty(),
            }),
    {
        Pallet {
            constants,
            params: None,
            creation_paused: false,
            next_launch_id: 0,
            next_asset_id: None,
            launches: BTreeMap::new(),
            curves: BTreeMap::new(),
            asset_to_launch: BTreeMap::new(),
            metadata: BTreeMap::new(),
            locks: BTreeMap::new(),
            last_disburse_block: BTreeMap::new(),
            host: Host::new(runtime),
        }
    }

    /// The parameters that a launch created now would snapshot.
    pub fn live_params(&self) -> (r: LaunchParams<Balance>)
        ensures
            r == self.store().live_params(),
    {
        match self.params {
            Some(p) => p,
            None => DefaultParams(&self.constants),
        }
    }
}

/// The parameters until governance sets some.
#[allow(non_snake_case)]
pub fn DefaultParams(constants: &Constants) -> (r: LaunchParams<Balance>)
    ensures
        r == constants.default_launch_params,
{
    constants.default_launch_params
}

} // verus!
