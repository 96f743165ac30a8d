//! The plain values that calls, records and events are made of.
use vstd::prelude::*;

verus! {

/// Identifier of a launch. Monotone, never reused.
pub type LaunchId = u64;

/// Amounts of the quote asset and of launch tokens, in base units.
pub type Balance = u128;

/// Identifier of a fungible asset.
pub type AssetId = u32;

/// A block height.
pub type BlockNumber = u32;

/// An account: twenty bytes.
#[derive(Clone, Copy, Eq, Debug)]
pub struct AccountId {
    pub bytes: [u8; 20],
}

impl PartialEq for AccountId {
    fn eq(&self, other: &Self) -> (r: bool) {
        let mut i: usize = 0;
        while i < 20
            invariant
                i <= 20,
                forall|j: int| 0 <= j < i ==> self.bytes@[j] == other.bytes@[j],
            decreases 20 - i,
        {
            if self.bytes[i] != other.bytes[i] {
                return false;
            }
            i += 1;
        }
        assert(self.bytes@ =~= other.bytes@);
        assert(self.bytes =~= other.bytes);
        true
    }
}

impl vstd::std_specs::cmp::PartialEqSpecImpl for AccountId {
    open spec fn obeys_eq_spec() -> bool {
        true
    }

    open spec fn eq_spec(&self, other: &Self) -> bool {
        *self == *other
    }
}

/// A 256-bit hash.
#[derive(Clone, Copy, Eq, Debug)]
pub struct Hash256 {
    pub bytes: [u8; 32],
}

impl PartialEq for Hash256 {
    fn eq(&self, other: &Self) -> (r: bool) {
        let mut i: usize = 0;
        while i < 32
            invariant
                i <= 32,
                forall|j: int| 0 <= j < i ==> self.bytes@[j] == other.bytes@[j],
            decreases 32 - i,
        {
            if self.bytes[i] != other.bytes[i] {
                return false;
            }
            i += 1;
        }
        assert(self.bytes@ =~= other.bytes@);
        assert(self.bytes =~= other.bytes);
        true
    }
}

impl vstd::std_specs::cmp::PartialEqSpecImpl for Hash256 {
    open spec fn obeys_eq_spec() -> bool {
        true
    }

    open spec fn eq_spec(&self, other: &Self) -> bool {
        *self == *other
    }
}

/// An asset as the DEX names it.
#[derive(Clone, Copy, PartialEq, Eq, Debug)]
pub enum AssetKind {
    /// The quote asset.
    Native,
    WithId(AssetId),
}

/// Who dispatches a call.
#[derive(Clone, Copy, PartialEq, Eq, Debug)]
pub enum Origin {
    Root,
    Signed(AccountId),
    Unsigned,
    /// An origin of another pallet, by a number that the runtime gives it.
    Custom(u64),
}

/// Whether a transfer must keep its source account alive.
#[derive(Clone, Copy, PartialEq, Eq, Debug)]
pub enum Preservation {
    Expendable,
    Preserve,
}

/// The launchpad's own errors.
#[derive(Clone, Copy, PartialEq, Eq, Debug)]
pub enum Error {
    LaunchNotFound,
    WrongPhase,
    ZeroAmount,
    SlippageExceeded,
    ArithmeticOverflow,
    /// The trade would deliver nothing to the trader (or is too small to price).
    Unquotable,
    NotFeeRecipient,
    CreationPaused,
    /// No free asset id within the scan ahead of the cursor.
    AssetIdTaken,
    /// `expected_params_hash` did not match the current terms.
    ParamsMismatch,
    ParamsOutOfBounds,
    /// A DEX pool for this launch already holds liquidity.
    PoolAlreadySeeded,
    /// The launch has not sat in `Complete` for the rescue delay yet.
    RescueNotDue,
    /// Rescue: the existing pool's price is outside the allowed deviation.
    PriceOutOfTolerance,
    InvalidMetadata,
    /// The seed this launch implies would be refused by the DEX.
    Unseedable,
    /// Selling more than the curve has sold; a broken invariant, not a user error.
    SellExceedsSold,
    /// `force_seed_into_existing_pool` needs an existing pool; use `graduate` otherwise.
    PoolNotFound,
    /// `cliff + vest` exceeds the longest lock.
    CommitmentOutOfBounds,
    /// A lock needs an `initial_buy` to bind.
    LockWithoutPosition,
    /// This launch's creator fees are committed; `claim_creator_fees` cannot take them.
    Committed,
    /// This launch has no such commitment; nothing to disburse or release.
    NotCommitted,
    /// Nothing to claim and nothing to burn.
    NothingToDo,
    /// The burn interval has not passed and there was nothing to claim.
    TooSoon,
    /// Nothing has vested since the last release.
    NothingVested,
}

/// Why a dispatch failed.
#[derive(Clone, Copy, PartialEq, Eq, Debug)]
pub enum DispatchError {
    BadOrigin,
    /// One of the launchpad's own errors.
    Module(Error),
    /// The DEX's slippage error, which the rescue reads as a price out of tolerance.
    DexSlippageExceeded,
    /// Any other error of the runtime, by a number that the runtime gives it.
    Other(u64),
}

/// A call's actual weight where it is less than what was charged.
#[derive(Clone, Copy, PartialEq, Eq, Debug)]
pub enum ActualWeight {
    /// A buy that did not exhaust the curve.
    Buy,
    /// A creation whose first buy did not exhaust the curve, by the lengths
    /// that its weight varies with.
    CreateLaunchAndBuy { name: u32, symbol: u32, description: u32, uri: u32 },
}

/// Saturating addition of balances.
pub open spec fn sat_add(a: Balance, b: Balance) -> Balance {
    if a + b > u128::MAX {
        u128::MAX
    } else {
        (a + b) as u128
    }
}

/// Saturating subtraction of balances.
pub open spec fn sat_sub(a: Balance, b: Balance) -> Balance {
    if a < b {
        0
    } else {
        (a - b) as u128
    }
}

/// Saturating addition of block numbers.
pub open spec fn block_add(a: BlockNumber, b: BlockNumber) -> BlockNumber {
    if a + b > u32::MAX {
        u32::MAX
    } else {
        (a + b) as u32
    }
}

/// Saturating subtraction of block numbers.
pub open spec fn block_sub(a: BlockNumber, b: BlockNumber) -> BlockNumber {
    if a < b {
        0
    } else {
        (a - b) as u32
    }
}

} // verus!
