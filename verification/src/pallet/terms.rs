//! Terms: what governance may set, what a launch snapshots of it, and the
//! arithmetic on terms that needs no runtime.
use crate::BPS;
use crate::accounts::{derive_account, derived, sub_account_bytes};
use crate::codec::{blake2_256, hash_of_terms, terms_bytes};
use crate::config::{shares_fit, Config, Constants};
use crate::curve::{MathError, State, Terms};
use crate::pallet::Pallet;
use crate::records::{CreatorCommitments, CurveParams, CurveState, LaunchParams, LockState};
use crate::types::{
    sat_sub, AccountId, AssetId, Balance, BlockNumber, DispatchError, Error, Hash256, LaunchId,
};
use crate::u256::{lemma_div_floor, lemma_div_floor_greatest, mul_div_floor, mul_wide};
use vstd::prelude::*;

verus! {

/// Tokens that the curve does not sell: they seed the pool.
pub open spec fn reserved_tokens(c: Constants) -> Balance {
    sat_sub(c.total_supply, c.sellable)
}

/// The curve terms of a launch in their pure form.
pub open spec fn terms_of(c: Constants, p: CurveParams<Balance>) -> Terms {
    Terms {
        virtual_quote: p.virtual_quote,
        token_floor: c.virtual_token_floor,
        fee_bps: p.curve_fee_bps as u128,
    }
}

/// The part of a curve's state that prices it.
pub open spec fn pricing(s: CurveState) -> State {
    State { real_quote: s.real_quote, tokens_remaining: s.tokens_remaining }
}

/// What a launch keeps of the live parameters.
pub open spec fn snapshot_of(p: LaunchParams<Balance>) -> CurveParams<Balance> {
    CurveParams {
        graduation_target: p.graduation_target,
        virtual_quote: p.graduation_target / 3,
        curve_fee_bps: p.curve_fee_bps,
        protocol_share_bps: p.protocol_share_bps,
        treasury_share_bps: p.treasury_share_bps,
        pool_fee_tier: p.pool_fee_tier,
    }
}

/// The digest of a launch's terms and of the supply constants.
pub open spec fn terms_digest(c: Constants, p: CurveParams<Balance>) -> Seq<u8> {
    blake2_256(
        terms_bytes(p, c.total_supply, c.sellable, reserved_tokens(c), c.virtual_token_floor),
    )
}

/// The hash with a given digest.
pub open spec fn terms_hash(c: Constants, p: CurveParams<Balance>) -> Hash256 {
    choose|h: Hash256| h.bytes@ == terms_digest(c, p)
}

/// Parameters that governance may set.
pub open spec fn params_in_bounds(c: Constants, p: LaunchParams<Balance>) -> bool {
    &&& c.min_graduation_target <= p.graduation_target <= c.max_graduation_target
    &&& p.curve_fee_bps <= c.max_curve_fee_bps
    &&& c.min_protocol_share_bps <= p.protocol_share_bps + p.treasury_share_bps <= BPS
    &&& p.pool_fee_tier == 3 || p.pool_fee_tier == 10
    &&& p.pool_fee_tier >= c.min_launch_fee_tier
    &&& p.creation_fee >= c.min_creation_fee
}

/// A first deposit of `target` and `reserved` mints more shares than the DEX
/// burns: the root of their product exceeds the minimum liquidity.
pub open spec fn seedable(c: Constants, target: Balance, reserved: Balance) -> bool {
    target * reserved >= (c.minimum_liquidity + 1) * (c.minimum_liquidity + 1)
}

/// Why commitments are refused, if they are.
pub open spec fn commitments_error(
    c: Constants,
    commitments: CreatorCommitments<BlockNumber>,
    has_position: bool,
) -> Option<Error> {
    match commitments.lock {
        None => None,
        Some(l) => if !has_position {
            Some(Error::LockWithoutPosition)
        } else if l.cliff + l.vest > c.max_lock_blocks {
            Some(Error::CommitmentOutOfBounds)
        } else {
            None
        },
    }
}

/// How much of a lock has vested at a block: nothing before the cliff, then
/// linearly up to all of it at the end.
pub open spec fn vested_at(lock: LockState<Balance, BlockNumber>, now: BlockNumber) -> Balance {
    if now < lock.cliff_end {
        0
    } else if now >= lock.vest_end {
        lock.total
    } else {
        (lock.total * (now - lock.cliff_end) / (lock.vest_end - lock.cliff_end)) as u128
    }
}

/// The protocol's, the treasury's and the creator's part of a fee. The first
/// two round down.
pub open spec fn fee_parts(
    fee: u128,
    protocol_share_bps: u16,
    treasury_share_bps: u16,
) -> (u128, u128, u128) {
    let protocol = share_of(fee, protocol_share_bps);
    let treasury = share_of(fee, treasury_share_bps);
    (protocol, treasury, (fee - protocol - treasury) as u128)
}

/// A share of an amount, rounded down; the product saturates.
pub open spec fn share_of(amount: u128, bps: u16) -> u128 {
    (if amount * bps > u128::MAX {
        u128::MAX
    } else {
        (amount * bps) as u128
    }) / (BPS as u128)
}

/// The dispatch error of a curve error.
pub open spec fn math_error(e: MathError) -> DispatchError {
    match e {
        MathError::ZeroAmount => DispatchError::Module(Error::ZeroAmount),
        MathError::Overflow => DispatchError::Module(Error::ArithmeticOverflow),
        MathError::Unquotable => DispatchError::Module(Error::Unquotable),
        MathError::BadState => DispatchError::Module(Error::ArithmeticOverflow),
    }
}

/// Where a fee's parts go. The treasury's part joins the protocol's where no
/// treasury account can take it.
pub open spec fn routed(
    protocol: u128,
    treasury: u128,
    vault: Option<AccountId>,
) -> (u128, u128) {
    match vault {
        Some(_) => (protocol, treasury),
        None => ((protocol + treasury) as u128, 0),
    }
}

/// The treasury account that takes its part of a fee: one that is bound, and
/// that the part either creates or finds in place.
pub open spec fn fee_vault(
    treasury: u128,
    sink: Option<AccountId>,
    minimum: Balance,
    sink_exists: bool,
) -> Option<AccountId> {
    if treasury > 0 && sink is Some && (treasury >= minimum || sink_exists) {
        sink
    } else {
        None
    }
}

/// A share of an amount, rounded down; the product saturates.
pub fn share(amount: u128, bps: u16) -> (r: u128)
    ensures
        r == share_of(amount, bps),
{
    let product: u128 = match amount.checked_mul(bps as u128) {
        Some(p) => p,
        None => u128::MAX,
    };
    product / (BPS as u128)
}

/// Two shares that together do not exceed the whole leave no less than nothing.
pub proof fn lemma_shares_fit(fee: u128, a: u16, b: u16)
    requires
        shares_fit(a, b),
    ensures
        share_of(fee, a) + share_of(fee, b) <= fee,
{
    let m: int = BPS as int;
    let fa = fee * a;
    let fb = fee * b;
    let x: int = if fa > u128::MAX {
        u128::MAX as int
    } else {
        fa
    };
    let y: int = if fb > u128::MAX {
        u128::MAX as int
    } else {
        fb
    };
    assert(0 <= fa && 0 <= fb && fa + fb <= fee * m) by (nonlinear_arith)
        requires
            fa == fee * a,
            fb == fee * b,
            0 <= a,
            0 <= b,
            a + b <= m,
            fee >= 0,
    ;
    assert(x / m + y / m <= fee) by (nonlinear_arith)
        requires
            0 <= x <= fa,
            0 <= y <= fb,
            fa + fb <= fee * m,
            m == 10000,
    ;
}

/// Split a fee: protocol and treasury parts floor, creator gets the rest.
/// Returns `(protocol, treasury, creator)`.
pub fn split_fee(fee: u128, protocol_share_bps: u16, treasury_share_bps: u16) -> (r: (
    u128,
    u128,
    u128,
))
    requires
        shares_fit(protocol_share_bps, treasury_share_bps),
    ensures
        r == fee_parts(fee, protocol_share_bps, treasury_share_bps),
        r.0 + r.1 + r.2 == fee,
{
    proof {
        lemma_shares_fit(fee, protocol_share_bps, treasury_share_bps);
    }
    let protocol: u128 = share(fee, protocol_share_bps);
    let treasury: u128 = share(fee, treasury_share_bps);
    (protocol, treasury, fee - protocol - treasury)
}

/// The dispatch error of a curve error.
pub fn map_math(e: MathError) -> (r: DispatchError)
    ensures
        r == math_error(e),
{
    match e {
        MathError::ZeroAmount => DispatchError::Module(Error::ZeroAmount),
        MathError::Overflow => DispatchError::Module(Error::ArithmeticOverflow),
        MathError::Unquotable => DispatchError::Module(Error::Unquotable),
        MathError::BadState => DispatchError::Module(Error::ArithmeticOverflow),
    }
}

/// What a launch keeps of the live parameters.
pub fn snapshot(p: &LaunchParams<Balance>) -> (r: CurveParams<Balance>)
    ensures
        r == snapshot_of(*p),
{
    CurveParams {
        graduation_target: p.graduation_target,
        virtual_quote: p.graduation_target / 3,
        curve_fee_bps: p.curve_fee_bps,
        protocol_share_bps: p.protocol_share_bps,
        treasury_share_bps: p.treasury_share_bps,
        pool_fee_tier: p.pool_fee_tier,
    }
}

impl<T: Config> Pallet<T> {
    /// The account that holds a launch's curve funds. The seed is the bare
    /// launch id, so every launch keeps an escrow of its own.
    pub fn escrow_account(&self, id: LaunchId) -> (r: AccountId)
        ensures
            r == derived(self.constants.pallet_id, id),
            r.bytes@ == sub_account_bytes(self.constants.pallet_id@, id),
    {
        derive_account(self.constants.pallet_id, id)
    }

    /// The account a committed fee stream is claimed into and burned from.
    pub fn commit_account(&self, id: LaunchId) -> (r: AccountId)
        ensures
            r == derived(self.constants.commit_pallet_id, id),
            r.bytes@ == sub_account_bytes(self.constants.commit_pallet_id@, id),
    {
        derive_account(self.constants.commit_pallet_id, id)
    }

    /// The account that holds a launch's locked tranche.
    pub fn lock_account(&self, id: LaunchId) -> (r: AccountId)
        ensures
            r == derived(self.constants.lock_pallet_id, id),
            r.bytes@ == sub_account_bytes(self.constants.lock_pallet_id@, id),
    {
        derive_account(self.constants.lock_pallet_id, id)
    }

    /// The asset id that a launch has where no id ahead of it was taken.
    pub fn asset_id_for(&self, id: LaunchId) -> (r: AssetId)
        ensures
            r == default_asset_id(self.constants.launch_asset_base, id),
    {
        let offset: AssetId = if id > u32::MAX as u64 {
            u32::MAX
        } else {
            id as u32
        };
        self.constants.launch_asset_base.saturating_add(offset)
    }

    /// The tokens that the curve does not sell.
    pub fn reserved(&self) -> (r: Balance)
        ensures
            r == reserved_tokens(self.constants),
    {
        self.constants.total_supply.saturating_sub(self.constants.sellable)
    }

    /// The curve terms of a launch in their pure form.
    pub fn terms(&self, curve: &CurveParams<Balance>) -> (r: Terms)
        ensures
            r == terms_of(self.constants, *curve),
    {
        Terms {
            virtual_quote: curve.virtual_quote,
            token_floor: self.constants.virtual_token_floor,
            fee_bps: curve.curve_fee_bps as u128,
        }
    }

    /// The hash of a launch's terms and of the supply constants.
    pub fn params_hash(&self, curve: &CurveParams<Balance>) -> (r: Hash256)
        ensures
            r == terms_hash(self.constants, *curve),
            r.bytes@ == terms_digest(self.constants, *curve),
    {
        let r = hash_of_terms(
            curve,
            self.constants.total_supply,
            self.constants.sellable,
            self.reserved(),
            self.constants.virtual_token_floor,
        );
        proof {
            let h = terms_hash(self.constants, *curve);
            assert(r.bytes@ == terms_digest(self.constants, *curve));
            assert(h.bytes@ =~= r.bytes@);
            assert(h.bytes =~= r.bytes);
        }
        r
    }

    /// Hash of the current live parameters as a launch would snapshot them:
    /// what a creator passes as `expected_params_hash`.
    pub fn current_params_hash(&self) -> (r: Hash256)
        ensures
            r == terms_hash(self.constants, snapshot_of(self.store().live_params())),
            r.bytes@ == terms_digest(self.constants, snapshot_of(self.store().live_params())),
    {
        self.params_hash(&snapshot(&self.live_params()))
    }

    /// Whether governance may set these parameters.
    pub fn validate_params(&self, p: &LaunchParams<Balance>) -> (r: Result<(), DispatchError>)
        ensures
            r == if params_in_bounds(self.constants, *p) {
                Ok(())
            } else {
                Err(DispatchError::Module(Error::ParamsOutOfBounds))
            },
    {
        let c = &self.constants;
        let out_of_bounds = Err(DispatchError::Module(Error::ParamsOutOfBounds));
        if p.graduation_target < c.min_graduation_target || p.graduation_target
            > c.max_graduation_target {
            return out_of_bounds;
        }
        if p.curve_fee_bps > c.max_curve_fee_bps {
            return out_of_bounds;
        }
        // The non-creator share is what is bounded from below; the creator gets the rest.
        let non_creator: u16 = p.protocol_share_bps.saturating_add(p.treasury_share_bps);
        if non_creator < c.min_protocol_share_bps || non_creator > BPS {
            return out_of_bounds;
        }
        if (p.pool_fee_tier != 3 && p.pool_fee_tier != 10) || p.pool_fee_tier
            < c.min_launch_fee_tier {
            return out_of_bounds;
        }
        if p.creation_fee < c.min_creation_fee {
            return out_of_bounds;
        }
        Ok(())
    }

    /// The first deposit the DEX would mint from `(target, reserved)` must
    /// exceed its permanently burned minimum.
    pub fn ensure_seedable(&self, target: u128, reserved: u128) -> (r: Result<(), DispatchError>)
        ensures
            r == if seedable(self.constants, target, reserved) {
                Ok(())
            } else {
                Err(DispatchError::Module(Error::Unseedable))
            },
    {
        let n = mul_wide(target, reserved);
        let root = n.integer_sqrt();
        let m: u128 = self.constants.minimum_liquidity;
        proof {
            lemma_root_exceeds(n.value() as int, root.value() as int, m as int);
        }
        match root.try_to_u128() {
            Some(shares) if shares <= m => Err(DispatchError::Module(Error::Unseedable)),
            _ => Ok(()),
        }
    }

    /// Reject-only. Takes the commitments and one bit about the creator's
    /// position; it cannot see a protocol term.
    pub fn ensure_commitments_in_bounds(
        &self,
        c: &CreatorCommitments<BlockNumber>,
        has_position: bool,
    ) -> (r: Result<(), DispatchError>)
        ensures
            r == match commitments_error(self.constants, *c, has_position) {
                None => Ok(()),
                Some(e) => Err(DispatchError::Module(e)),
            },
    {
        if let Some(l) = c.lock {
            if !has_position {
                return Err(DispatchError::Module(Error::LockWithoutPosition));
            }
            match l.cliff.checked_add(l.vest) {
                Some(span) if span <= self.constants.max_lock_blocks => {},
                _ => return Err(DispatchError::Module(Error::CommitmentOutOfBounds)),
            }
        }
        Ok(())
    }

    /// How much of a lock has vested at `now`, before subtracting what was
    /// released. Linear between `cliff_end` and `vest_end`; all of it at
    /// `vest_end` (which equals `cliff_end` when nothing vests linearly).
    pub fn vested(lock: &LockState<Balance, BlockNumber>, now: BlockNumber) -> (r: Balance)
        ensures
            r == vested_at(*lock, now),
            lock.cliff_end <= now < lock.vest_end ==> {
                let elapsed = lock.total * (now - lock.cliff_end);
                let span = lock.vest_end - lock.cliff_end;
                r * span <= elapsed < (r + 1) * span
            },
    {
        if now < lock.cliff_end {
            return 0;
        }
        if now >= lock.vest_end {
            return lock.total;
        }
        let elapsed: u128 = (now - lock.cliff_end) as u128;
        let span: u128 = (lock.vest_end - lock.cliff_end) as u128;
        proof {
            lemma_vested_bound(lock.total as int, elapsed as int, span as int);
            lemma_div_floor(lock.total * elapsed, span as int);
        }
        match mul_div_floor(lock.total, elapsed, span) {
            Some(v) => v,
            None => lock.total,
        }
    }
}

/// The asset id of the launch in a range where nothing was taken; saturating.
pub open spec fn default_asset_id(base: AssetId, id: LaunchId) -> AssetId {
    if base + id > u32::MAX {
        u32::MAX
    } else {
        (base + id) as u32
    }
}

/// A part of a tranche is no more than the tranche.
pub proof fn lemma_vested_bound(total: int, elapsed: int, span: int)
    requires
        total >= 0,
        0 <= elapsed <= span,
        span > 0,
    ensures
        0 <= total * elapsed / span <= total,
{
    assert(0 <= total * elapsed <= total * span) by (nonlinear_arith)
        requires
            total >= 0,
            0 <= elapsed <= span,
    ;
    lemma_div_floor(total * elapsed, span);
    lemma_div_floor_greatest(total * elapsed, span, total + 1);
    if total * elapsed / span > total {
        assert((total + 1) * span > total * span) by (nonlinear_arith)
            requires
                span > 0,
        ;
    }
}

/// A root exceeds `m` exactly where the next square after `m` is reached.
proof fn lemma_root_exceeds(n: int, root: int, m: int)
    requires
        root >= 0,
        m >= 0,
        root * root <= n < (root + 1) * (root + 1),
    ensures
        root > m <==> n >= (m + 1) * (m + 1),
{
    if root > m {
        assert((m + 1) * (m + 1) <= root * root) by (nonlinear_arith)
            requires
                0 <= m + 1 <= root,
        ;
    } else {
        assert((root + 1) * (root + 1) <= (m + 1) * (m + 1)) by (nonlinear_arith)
            requires
                0 <= root + 1 <= m + 1,
        ;
    }
}

} // verus!
