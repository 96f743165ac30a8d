//! What the launchpad reports.
use crate::records::LaunchParams;
use crate::types::{AccountId, AssetId, Balance, BlockNumber, DispatchError, Hash256, LaunchId};
use vstd::prelude::*;

verus! {

/// Something that happened to a launch or to the launchpad.
#[derive(Clone, Copy, PartialEq, Eq, Debug)]
pub enum Event {
    LaunchCreated { id: LaunchId, asset_id: AssetId, creator: AccountId, params_hash: Hash256 },
    Bought {
        launch_id: LaunchId,
        who: AccountId,
        quote_used: Balance,
        fee: Balance,
        tokens_out: Balance,
    },
    Sold {
        launch_id: LaunchId,
        who: AccountId,
        tokens_in: Balance,
        fee: Balance,
        quote_out: Balance,
    },
    CurveCompleted { launch_id: LaunchId, raised: Balance },
    /// Seeding failed inside the crossing buy; the buy stands, the launch
    /// stays `Complete`, and `graduate` may be retried by anyone.
    GraduationDeferred { launch_id: LaunchId, error: DispatchError },
    Graduated {
        launch_id: LaunchId,
        quote_seeded: Balance,
        tokens_seeded: Balance,
        shares: Balance,
    },
    CreatorFeesClaimed { launch_id: LaunchId, recipient: AccountId, amount: Balance },
    CreatorFeeRecipientChanged { launch_id: LaunchId, old_recipient: AccountId, new: AccountId },
    /// Metadata was written for a launch (at creation or by `set_launch_metadata`).
    LaunchMetadataSet { launch_id: LaunchId },
    ParamsUpdated { params: LaunchParams<Balance> },
    CreationPausedSet { paused: bool },
    ForceSeeded { launch_id: LaunchId, deviation_bps: u16, shares: Balance },
    /// The initial buy's tokens were moved to the lock account.
    Locked {
        launch_id: LaunchId,
        amount: Balance,
        cliff_end: BlockNumber,
        vest_end: BlockNumber,
    },
    /// Vested tokens released to the creator.
    LockReleased { launch_id: LaunchId, amount: Balance },
    /// One `disburse`. `claimed` is the quote moved into the commitment account
    /// this call (both legs); `vtrs_burned_in` and `tokens_burned` are this
    /// call's slice, zero if none ran.
    Disbursed {
        launch_id: LaunchId,
        claimed: Balance,
        vtrs_burned_in: Balance,
        tokens_burned: Balance,
    },
}

} // verus!
