//! Everything that can be done to a launchpad, in one type: what a law says of
//! every call, it says of every action.
use crate::config::{Call, Run};
use crate::pallet::Store;
use crate::pallet::commitments::{
    claim_done, metadata_run, recipient_run, release_done, ReleaseReplies,
};
use crate::pallet::create::{create_done, CreateArgs, CreateReplies};
use crate::pallet::disburse::{disburse_called, disburse_done, DisburseCallReplies, DisburseReplies};
use crate::pallet::govern::{rescue_done, set_params_done, set_paused_done, RescueReplies};
use crate::pallet::trade::{
    buy_done, seed_done, sell_done, BuyArgs, BuyReplies, SeedReplies, SellReplies,
};
use crate::records::{DisburseOutcome, Launch, LaunchMetadata, LaunchParams};
use crate::types::{AccountId, ActualWeight, Balance, DispatchError, LaunchId, Origin};
use vstd::prelude::*;

verus! {

/// One call of the launchpad, with the runtime's answers to it.
pub enum Action {
    Create { a: CreateArgs, r: CreateReplies },
    /// `buy`, `do_buy` and a venue's `buy_for`.
    Buy { a: BuyArgs, r: BuyReplies },
    Sell { who: AccountId, id: LaunchId, tokens_in: Balance, min_quote_out: Balance, r: SellReplies },
    Graduate { id: LaunchId, r: SeedReplies },
    ClaimCreatorFees { who: AccountId, id: LaunchId, paid: Result<(), DispatchError> },
    SetCreatorFeeRecipient { who: AccountId, id: LaunchId, new: AccountId },
    SetLaunchMetadata { who: AccountId, id: LaunchId, metadata: LaunchMetadata },
    Disburse { id: LaunchId, r: DisburseCallReplies },
    /// `do_disburse`, without the refusal of a call that did nothing.
    DoDisburse { id: LaunchId, r: DisburseReplies },
    ClaimLocked { who: AccountId, id: LaunchId, r: ReleaseReplies },
    SetParams { origin: Origin, new: LaunchParams<Balance>, allowed: Result<(), DispatchError> },
    SetCreationPaused { origin: Origin, paused: bool, allowed: Result<(), DispatchError> },
    ForceSeed { origin: Origin, id: LaunchId, deviation_bps: u16, r: RescueReplies },
}

/// What naming another fee recipient does.
pub open spec fn recipient_done(
    s0: Store,
    log0: Seq<Call>,
    who: AccountId,
    id: LaunchId,
    new: AccountId,
    s1: Store,
    log1: Seq<Call>,
) -> bool {
    let run = recipient_run(Run::from(log0), s0, who, id, new);
    &&& log1 == run.log
    &&& s1 == if run.ok() {
        Store {
            launches: s0.launches.insert(
                id,
                Launch { creator_fee_recipient: new, ..s0.launches[id] },
            ),
            ..s0
        }
    } else {
        s0
    }
}

/// What writing metadata does.
pub open spec fn metadata_done(
    s0: Store,
    log0: Seq<Call>,
    who: AccountId,
    id: LaunchId,
    metadata: LaunchMetadata,
    s1: Store,
    log1: Seq<Call>,
) -> bool {
    let run = metadata_run(Run::from(log0), s0, who, id);
    &&& log1 == run.log
    &&& s1 == if run.ok() {
        Store { metadata: s0.metadata.insert(id, metadata), ..s0 }
    } else {
        s0
    }
}

impl Action {
    /// This action takes the records `s0` and the calls `log0` to `s1` and `log1`.
    pub open spec fn done(self, s0: Store, log0: Seq<Call>, s1: Store, log1: Seq<Call>) -> bool {
        match self {
            Action::Create { a, r } => exists|result: Result<Option<ActualWeight>, DispatchError>|
                create_done(s0, log0, a, r, result, s1, log1),
            Action::Buy { a, r } => exists|result: Result<(bool, Balance), DispatchError>|
                buy_done(s0, log0, a, r, result, s1, log1),
            Action::Sell { who, id, tokens_in, min_quote_out, r } => exists|
                result: Result<(), DispatchError>,
            |
                sell_done(s0, log0, who, id, tokens_in, min_quote_out, r, result, s1, log1),
            Action::Graduate { id, r } => exists|result: Result<(), DispatchError>|
                seed_done(s0, log0, id, false, r, result, s1, log1),
            Action::ClaimCreatorFees { who, id, paid } => exists|
                result: Result<(), DispatchError>,
            |
                claim_done(s0, log0, who, id, paid, result, s1, log1),
            Action::SetCreatorFeeRecipient { who, id, new } => recipient_done(
                s0,
                log0,
                who,
                id,
                new,
                s1,
                log1,
            ),
            Action::SetLaunchMetadata { who, id, metadata } => metadata_done(
                s0,
                log0,
                who,
                id,
                metadata,
                s1,
                log1,
            ),
            Action::Disburse { id, r } => exists|result: Result<(), DispatchError>|
                disburse_called(s0, log0, id, r, result, s1, log1),
            Action::DoDisburse { id, r } => exists|
                result: Result<DisburseOutcome, DispatchError>,
            |
                disburse_done(s0, log0, id, r, result, s1, log1),
            Action::ClaimLocked { who, id, r } => exists|result: Result<(), DispatchError>|
                release_done(s0, log0, who, id, r, result, s1, log1),
            Action::SetParams { origin, new, allowed } => exists|
                result: Result<(), DispatchError>,
            |
                set_params_done(s0, log0, origin, new, allowed, result, s1, log1),
            Action::SetCreationPaused { origin, paused, allowed } => exists|
                result: Result<(), DispatchError>,
            |
                set_paused_done(s0, log0, origin, paused, allowed, result, s1, log1),
            Action::ForceSeed { origin, id, deviation_bps, r } => exists|
                result: Result<(), DispatchError>,
            |
                rescue_done(s0, log0, origin, id, deviation_bps, r, result, s1, log1),
        }
    }

    /// The launch that this action is about, where it is about one.
    pub open spec fn target(self, s0: Store) -> Option<LaunchId> {
        match self {
            Action::Create { .. } => Some(s0.next_launch_id),
            Action::Buy { a, .. } => Some(a.launch_id),
            Action::Sell { id, .. } => Some(id),
            Action::Graduate { id, .. } => Some(id),
            Action::ClaimCreatorFees { id, .. } => Some(id),
            Action::SetCreatorFeeRecipient { id, .. } => Some(id),
            Action::SetLaunchMetadata { id, .. } => Some(id),
            Action::Disburse { id, .. } => Some(id),
            Action::DoDisburse { id, .. } => Some(id),
            Action::ClaimLocked { id, .. } => Some(id),
            Action::SetParams { .. } => None,
            Action::SetCreationPaused { .. } => None,
            Action::ForceSeed { id, .. } => Some(id),
        }
    }

    /// The metadata that this action may write keeps its byte caps.
    pub open spec fn metadata_within(self, s0: Store) -> bool {
        let c = s0.constants;
        match self {
            Action::Create { a, .. } => a.metadata is Some ==> a.metadata->0.within(
                c.uri_limit,
                c.description_limit,
            ),
            Action::SetLaunchMetadata { metadata, .. } => metadata.within(
                c.uri_limit,
                c.description_limit,
            ),
            _ => true,
        }
    }
}

} // verus!
