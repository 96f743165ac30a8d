//! What the launchpad keeps of each launch.
use crate::types::{AccountId, AssetId, Balance, BlockNumber, Hash256};
use vstd::prelude::*;

verus! {

/// Governance parameters. Live; snapshotted into each launch except
/// `creation_fee`, which is charged once at creation.
#[derive(Clone, Copy, PartialEq, Eq, Debug)]
pub struct LaunchParams<Balance> {
    /// Graduation target in quote base units.
    pub graduation_target: Balance,
    /// Curve trading fee on the quote leg, both directions, in bps.
    pub curve_fee_bps: u16,
    /// Share of the curve fee that goes to the protocol; what neither this nor
    /// `treasury_share_bps` takes accrues to the creator.
    pub protocol_share_bps: u16,
    /// Share of the curve fee pushed to the launch's treasury sink, or to the
    /// protocol when the runtime binds none.
    pub treasury_share_bps: u16,
    /// DEX fee tier for the graduated pool (tenths of a percent); `3 | 10`.
    pub pool_fee_tier: u32,
    /// One-off creation fee, paid to treasury after funding escrow deposits.
    pub creation_fee: Balance,
}

/// Everything that determines pricing and fee routing for one launch.
#[derive(Clone, Copy, PartialEq, Eq, Debug)]
pub struct CurveParams<Balance> {
    pub graduation_target: Balance,
    /// A third of the graduation target.
    pub virtual_quote: Balance,
    pub curve_fee_bps: u16,
    pub protocol_share_bps: u16,
    /// Snapshotted like every other term.
    pub treasury_share_bps: u16,
    pub pool_fee_tier: u32,
}

/// Where a launch stands.
#[derive(Clone, Copy, PartialEq, Eq, Debug, Structural)]
pub enum Phase {
    Trading,
    Complete,
    Graduated,
}

/// Where a launch's creator-fee share goes. `Recipient` is the default.
/// `BuybackBurn` sends both legs to a commitment account that buys the token on
/// its own venue and burns it; no person is ever paid.
#[derive(Clone, Copy, PartialEq, Eq, Debug, Structural)]
pub enum FeeDisposition {
    Recipient,
    BuybackBurn,
}

impl Default for FeeDisposition {
    fn default() -> (r: Self)
        ensures
            r == FeeDisposition::Recipient,
    {
        FeeDisposition::Recipient
    }
}

/// The schedule a locked tranche releases on. Applies to the tokens the
/// creator's `initial_buy` receives, and to nothing else.
#[derive(Clone, Copy, PartialEq, Eq, Debug)]
pub struct LockSchedule<BlockNumber> {
    /// Blocks after create during which nothing is released.
    pub cliff: BlockNumber,
    /// Blocks after the cliff over which the tranche releases linearly; 0 = all at the cliff.
    pub vest: BlockNumber,
}

/// What a creator binds themself to. Snapshotted into [`Launch`] at create; no
/// call writes it afterwards. Every field's default is "no commitment" and
/// every other value binds further. Nothing in here names a protocol term.
#[derive(Clone, Copy, PartialEq, Eq, Debug)]
pub struct CreatorCommitments<BlockNumber> {
    pub fee_disposition: FeeDisposition,
    pub lock: Option<LockSchedule<BlockNumber>>,
}

impl<B> Default for CreatorCommitments<B> {
    fn default() -> (r: Self)
        ensures
            r.fee_disposition == FeeDisposition::Recipient,
            r.lock is None,
            !r.committed(),
    {
        CreatorCommitments { fee_disposition: FeeDisposition::Recipient, lock: None }
    }
}

impl<B> CreatorCommitments<B> {
    /// The creator fees are bought back and burned.
    pub open spec fn burns(&self) -> bool {
        self.fee_disposition == FeeDisposition::BuybackBurn
    }

    /// Something is bound.
    pub open spec fn committed(&self) -> bool {
        self.burns() || self.lock is Some
    }

    /// Whether anything is bound.
    pub fn is_committed(&self) -> (r: bool)
        ensures
            r == self.committed(),
    {
        self.fee_disposition != FeeDisposition::Recipient || self.lock.is_some()
    }

    /// Whether the creator fees are bought back and burned.
    pub fn burns_fees(&self) -> (r: bool)
        ensures
            r == self.burns(),
    {
        self.fee_disposition == FeeDisposition::BuybackBurn
    }
}

/// What one `disburse` did: `(claimed, vtrs_burned_in, tokens_burned,
/// interval_ok)`; the last says whether a slice was even allowed.
pub type DisburseOutcome = (Balance, Balance, Balance, bool);

/// The live state of a launch's locked tranche. `total − released` is exactly
/// the lock account's token balance.
#[derive(Clone, Copy, PartialEq, Eq, Debug)]
pub struct LockState<Balance, BlockNumber> {
    pub total: Balance,
    pub released: Balance,
    pub cliff_end: BlockNumber,
    pub vest_end: BlockNumber,
}

/// Cold, write-once launch record. `creator_fee_recipient` is the only mutable
/// field. `commitments` is the creator's, not the protocol's: it is read
/// alongside the terms and never changes them.
#[derive(Clone, Copy, PartialEq, Eq, Debug)]
pub struct Launch {
    pub asset_id: AssetId,
    pub creator: AccountId,
    pub creator_fee_recipient: AccountId,
    pub escrow: AccountId,
    pub created_at: BlockNumber,
    pub curve: CurveParams<Balance>,
    pub params_hash: Hash256,
    pub commitments: CreatorCommitments<BlockNumber>,
}

/// Off-curve presentation data for a launch. Cold: read on a page view, never
/// on a trade, which is why it is stored apart from [`Launch`]. Every field is
/// a bounded byte string stored and returned verbatim; nothing here is
/// validated.
#[derive(Clone, PartialEq, Eq, Debug)]
pub struct LaunchMetadata {
    /// Image URI. Resolved and sandboxed by the frontend.
    pub image: Vec<u8>,
    /// Free text.
    pub description: Vec<u8>,
    pub website: Vec<u8>,
    pub twitter: Vec<u8>,
    pub telegram: Vec<u8>,
}

/// The larger of two lengths.
pub open spec fn longer(a: nat, b: nat) -> nat {
    if a >= b {
        a
    } else {
        b
    }
}

impl LaunchMetadata {
    /// Every field keeps its byte cap.
    pub open spec fn within(&self, uri_limit: u32, description_limit: u32) -> bool {
        &&& self.image@.len() <= uri_limit
        &&& self.website@.len() <= uri_limit
        &&& self.twitter@.len() <= uri_limit
        &&& self.telegram@.len() <= uri_limit
        &&& self.description@.len() <= description_limit
    }

    /// The length of the longest URI.
    pub open spec fn longest_uri(&self) -> nat {
        longer(
            longer(self.image@.len(), self.website@.len()),
            longer(self.twitter@.len(), self.telegram@.len()),
        )
    }

    /// `(description length, longest URI length)`: the two dimensions the
    /// weight of writing this record varies with.
    pub fn dims(&self) -> (r: (u32, u32))
        requires
            self.within(u32::MAX, u32::MAX),
        ensures
            r.0 == self.description@.len(),
            r.1 == self.longest_uri(),
    {
        let mut u: usize = self.image.len();
        if self.website.len() > u {
            u = self.website.len();
        }
        if self.twitter.len() > u {
            u = self.twitter.len();
        }
        if self.telegram.len() > u {
            u = self.telegram.len();
        }
        (self.description.len() as u32, u as u32)
    }
}

/// Hot per-launch curve state.
#[derive(Clone, Copy, PartialEq, Eq, Debug)]
pub struct CurveState {
    pub phase: Phase,
    /// Quote held for the curve, excluding fees. Tracked, never read from balances.
    pub real_quote: Balance,
    /// Sellable tokens still in escrow.
    pub tokens_remaining: Balance,
    pub creator_fees_unclaimed: Balance,
    pub protocol_fees_paid: Balance,
    /// Curve fee pushed to the launch treasury so far.
    pub treasury_fees_paid: Balance,
    /// The last block a buy or sell ran on this curve (`created_at` until the
    /// first), for the treasury's dormancy rule.
    pub last_trade_block: BlockNumber,
    pub completed_at: Option<BlockNumber>,
    pub graduated_at: Option<BlockNumber>,
    pub lp_shares: Balance,
}

} // verus!
