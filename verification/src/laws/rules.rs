//! Laws of the rules that need no runtime: shares, vesting, locks, parameters,
//! slices, asset ids, accounts and what is looked up.
use crate::{BPS, MAX_ASSET_ID_SCAN, TOKEN_DECIMALS};
use crate::accounts::{derived, lemma_derived};
use crate::codec::{blake2_256, bool_bytes, counts_of, terms_bytes};
use crate::config::{shares_fit, Config, Constants};
use crate::curve::{
    buy_quote, reserves_fit, sell_quote, BuyQuote, MathError, SellQuote, State, Terms,
};
use crate::laws::pricing::is_floor;
use crate::pallet::{Pallet, Store};
use crate::pallet::commitments::{due_at, fees_taken, lock_of, released_more};
use crate::pallet::create::{asset_after, asset_cursor, asset_free, asset_tried};
use crate::pallet::disburse::{interval_passed, slice_size, venue_quote};
use crate::pallet::govern::kept;
use crate::pallet::terms::{
    commitments_error, default_asset_id, fee_parts, fee_vault, lemma_shares_fit, lemma_vested_bound,
    math_error, params_in_bounds, pricing, reserved_tokens, routed, seedable, share_of, snapshot_of,
    terms_hash, terms_of, vested_at,
};
use crate::pallet::trade::{bought, buy_price, graduated, sell_price, sold};
use crate::pallet::views::{
    fee_recipient_of, lookup, price_of, quote_error, reserves_of, venue_reserves, CurveVenue,
    PRICE_UNIT,
};
use crate::records::{
    CreatorCommitments, CurveParams, CurveState, LaunchMetadata, LaunchParams, LockSchedule,
    LockState, Phase,
};
use crate::types::{
    block_add, block_sub, sat_add, sat_sub, AccountId, AssetId, Balance, BlockNumber, DispatchError,
    Error, Hash256, LaunchId,
};
use crate::u256::{lemma_div_floor, lemma_div_floor_greatest};
use vstd::bytes::{
    spec_u128_to_le_bytes, spec_u16_to_le_bytes, spec_u32_to_le_bytes, spec_u64_to_le_bytes,
};
use vstd::prelude::*;

verus! {

// ---- arithmetic ----------------------------------------------------------

/// The smaller of two numbers.
pub open spec fn least(a: int, b: int) -> int {
    if a <= b {
        a
    } else {
        b
    }
}

/// The larger of two numbers.
pub open spec fn greatest(a: int, b: int) -> int {
    if a >= b {
        a
    } else {
        b
    }
}

/// Sums stop at the largest number and differences at zero.
pub proof fn law_sums_stop_at_the_ends(a: Balance, b: Balance, x: BlockNumber, y: BlockNumber)
    ensures
        sat_add(a, b) == least(a + b, u128::MAX as int),
        sat_sub(a, b) == greatest(a - b, 0),
        block_add(x, y) == least(x + y, u32::MAX as int),
        block_sub(x, y) == greatest(x - y, 0),
{
}

/// Shares are in ten-thousandths, launch tokens have eighteen decimals, so have
/// prices, and a creation tries two hundred and fifty-six asset ids.
pub proof fn law_units()
    ensures
        BPS == 10_000,
        TOKEN_DECIMALS == 18,
        PRICE_UNIT == 1_000_000_000_000_000_000,
        MAX_ASSET_ID_SCAN == 256,
{
}

// ---- fees ----------------------------------------------------------------

/// A share of an amount is that many ten-thousandths of it, rounded down. Where
/// the product does not fit in a balance it is taken to be the largest one.
pub proof fn law_share_rounds_down(amount: u128, bps: u16)
    ensures
        is_floor(share_of(amount, bps) as int, least(amount * bps, u128::MAX as int), 10_000),
        bps <= 10_000 ==> share_of(amount, bps) <= amount,
{
    lemma_div_floor(least(amount * bps, u128::MAX as int), 10_000);
    if bps <= 10_000 {
        lemma_shares_fit(amount, bps, 0);
    }
}

/// The protocol and the treasury get their shares of a fee, each rounded down,
/// and the creator gets the rest: nothing of the fee is lost, and nothing is made.
pub proof fn law_fee_is_split_three_ways(fee: u128, protocol_bps: u16, treasury_bps: u16)
    requires
        protocol_bps + treasury_bps <= 10_000,
    ensures
        ({
            let (protocol, treasury, creator) = fee_parts(fee, protocol_bps, treasury_bps);
            let most = u128::MAX as int;
            &&& is_floor(protocol as int, least(fee * protocol_bps, most), 10_000)
            &&& is_floor(treasury as int, least(fee * treasury_bps, most), 10_000)
            &&& protocol + treasury + creator == fee
        }),
{
    lemma_shares_fit(fee, protocol_bps, treasury_bps);
    law_share_rounds_down(fee, protocol_bps);
    law_share_rounds_down(fee, treasury_bps);
}

/// The treasury's part of a fee goes to the bound account exactly where there is
/// a part, an account is bound, and the part brings it to life or finds it alive;
/// otherwise it joins the protocol's. Either way both parts are paid whole.
pub proof fn law_treasury_part_finds_its_account(
    protocol: u128,
    treasury: u128,
    sink: Option<AccountId>,
    minimum: Balance,
    sink_exists: bool,
)
    requires
        protocol + treasury <= u128::MAX,
    ensures
        ({
            let vault = fee_vault(treasury, sink, minimum, sink_exists);
            let (to_protocol, to_vault) = routed(protocol, treasury, vault);
            &&& vault is Some <==> {
                &&& treasury > 0
                &&& sink is Some
                &&& treasury >= minimum || sink_exists
            }
            &&& vault is Some ==> vault == sink && to_vault == treasury
            &&& vault is None ==> to_vault == 0
            &&& to_protocol + to_vault == protocol + treasury
        }),
{
}

/// A curve error reaches the caller as the launchpad's own.
pub proof fn law_curve_errors_are_told_apart(e: MathError)
    ensures
        math_error(e) == DispatchError::Module(Error::ZeroAmount) <==> e == MathError::ZeroAmount,
        math_error(e) == DispatchError::Module(Error::Unquotable) <==> e == MathError::Unquotable,
        math_error(e) == DispatchError::Module(Error::ArithmeticOverflow) <==> e
            == MathError::Overflow || e == MathError::BadState,
{
}

// ---- locks ---------------------------------------------------------------

/// Between its cliff and its end a lock vests in proportion to the blocks that
/// have passed, rounded down, whatever was released of it before; nothing before
/// the cliff, all of it from the end on.
pub proof fn law_vesting_is_linear(lock: LockState<Balance, BlockNumber>, now: BlockNumber)
    ensures
        now < lock.cliff_end ==> vested_at(lock, now) == 0,
        now >= lock.cliff_end && now >= lock.vest_end ==> vested_at(lock, now) == lock.total,
        lock.cliff_end <= now < lock.vest_end ==> is_floor(
            vested_at(lock, now) as int,
            lock.total * (now - lock.cliff_end),
            lock.vest_end - lock.cliff_end,
        ),
{
    if lock.cliff_end <= now < lock.vest_end {
        let a = lock.total * (now - lock.cliff_end);
        lemma_vested_bound(
            lock.total as int,
            now - lock.cliff_end,
            lock.vest_end - lock.cliff_end,
        );
        lemma_div_floor(a, lock.vest_end - lock.cliff_end);
    }
}

/// What has vested does not depend on what was released.
pub proof fn law_releases_do_not_change_vesting(
    lock: LockState<Balance, BlockNumber>,
    released: Balance,
    now: BlockNumber,
)
    ensures
        vested_at(LockState { released, ..lock }, now) == vested_at(lock, now),
{
}

/// What is due of a lock is what has vested and was not released; once it is
/// released, nothing more is due in the same block, and what is released never
/// passes what has vested.
pub proof fn law_release_settles_what_is_due(
    lock: LockState<Balance, BlockNumber>,
    now: BlockNumber,
)
    ensures
        due_at(lock, now) == greatest(vested_at(lock, now) - lock.released, 0),
        ({
            let after = released_more(lock, due_at(lock, now));
            &&& after.total == lock.total
            &&& after.cliff_end == lock.cliff_end
            &&& after.vest_end == lock.vest_end
            &&& after.released == greatest(vested_at(lock, now) as int, lock.released as int)
            &&& due_at(after, now) == 0
        }),
{
    law_releases_do_not_change_vesting(lock, released_more(lock, due_at(lock, now)).released, now);
}

/// A lock holds the whole tranche, has released nothing, and runs its cliff from
/// the block of the creation and its vesting from the cliff.
pub proof fn law_lock_follows_its_schedule(
    amount: Balance,
    schedule: LockSchedule<BlockNumber>,
    now: BlockNumber,
)
    ensures
        ({
            let lock = lock_of(amount, schedule, now);
            &&& lock.total == amount
            &&& lock.released == 0
            &&& lock.cliff_end == least(now + schedule.cliff, u32::MAX as int)
            &&& lock.vest_end == least(now + schedule.cliff + schedule.vest, u32::MAX as int)
        }),
{
}

/// Commitments are refused exactly where they lock without a first buy or for
/// longer than is allowed; nobody is refused for burning, nor for not locking.
pub proof fn law_commitments_are_refused_for_two_reasons(
    c: Constants,
    commitments: CreatorCommitments<BlockNumber>,
    has_position: bool,
)
    ensures
        commitments_error(c, commitments, has_position) == match commitments.lock {
            Some(l) if !has_position => Some(Error::LockWithoutPosition),
            Some(l) if l.cliff + l.vest > c.max_lock_blocks => Some(Error::CommitmentOutOfBounds),
            _ => None,
        },
{
}

/// Fees are burned where the creator chose so, and a creator is committed where
/// they chose that or a lock.
pub proof fn law_commitments_are_what_was_chosen(c: CreatorCommitments<BlockNumber>)
    ensures
        c.burns() <==> c.fee_disposition is BuybackBurn,
        c.committed() <==> c.fee_disposition is BuybackBurn || c.lock is Some,
{
}

// ---- parameters ----------------------------------------------------------

/// A launch keeps every term of the live parameters, with a virtual quote of a
/// third of the target, rounded down.
pub proof fn law_snapshot_keeps_every_term(p: LaunchParams<Balance>)
    ensures
        ({
            let curve = snapshot_of(p);
            &&& curve.graduation_target == p.graduation_target
            &&& is_floor(curve.virtual_quote as int, p.graduation_target as int, 3)
            &&& curve.curve_fee_bps == p.curve_fee_bps
            &&& curve.protocol_share_bps == p.protocol_share_bps
            &&& curve.treasury_share_bps == p.treasury_share_bps
            &&& curve.pool_fee_tier == p.pool_fee_tier
        }),
{
}

/// Governance may set exactly the parameters within the runtime's bounds: target,
/// fee, what the creator does not get, pool tier and creation fee.
pub proof fn law_bounds_of_the_parameters(c: Constants, p: LaunchParams<Balance>)
    ensures
        params_in_bounds(c, p) <==> {
            &&& c.min_graduation_target <= p.graduation_target
            &&& p.graduation_target <= c.max_graduation_target
            &&& p.curve_fee_bps <= c.max_curve_fee_bps
            &&& p.protocol_share_bps + p.treasury_share_bps >= c.min_protocol_share_bps
            &&& p.protocol_share_bps + p.treasury_share_bps <= 10_000
            &&& p.pool_fee_tier == 3 || p.pool_fee_tier == 10
            &&& p.pool_fee_tier >= c.min_launch_fee_tier
            &&& p.creation_fee >= c.min_creation_fee
        },
{
}

/// Parameters that were set are in force; until then the runtime's own are.
pub proof fn law_parameters_in_force(s: Store)
    ensures
        s.params matches Some(p) ==> s.live_params() == p,
        s.params is None ==> s.live_params() == s.constants.default_launch_params,
{
}

/// The hash of a launch's terms is the digest of them and of the supply's division.
pub proof fn law_terms_hash_is_the_digest(c: Constants, p: CurveParams<Balance>, h: Hash256)
    requires
        h.bytes@ == blake2_256(
            terms_bytes(
                p,
                c.total_supply,
                c.sellable,
                greatest(c.total_supply - c.sellable, 0) as u128,
                c.virtual_token_floor,
            ),
        ),
    ensures
        terms_hash(c, p) == h,
{
    let d = terms_hash(c, p);
    assert(d.bytes@ =~= h.bytes@);
    assert(d.bytes =~= h.bytes);
}

/// Each term stands at a place of its own among the bytes that are hashed: no two
/// sets of terms have the same bytes.
pub proof fn law_hashed_bytes_hold_every_term(
    p: CurveParams<Balance>,
    total_supply: Balance,
    sellable: Balance,
    reserved: Balance,
    token_floor: Balance,
)
    ensures
        ({
            let b = terms_bytes(p, total_supply, sellable, reserved, token_floor);
            &&& b.len() == 106
            &&& b.subrange(0, 16) == spec_u128_to_le_bytes(p.graduation_target)
            &&& b.subrange(16, 32) == spec_u128_to_le_bytes(p.virtual_quote)
            &&& b.subrange(32, 34) == spec_u16_to_le_bytes(p.curve_fee_bps)
            &&& b.subrange(34, 36) == spec_u16_to_le_bytes(p.protocol_share_bps)
            &&& b.subrange(36, 38) == spec_u16_to_le_bytes(p.treasury_share_bps)
            &&& b.subrange(38, 42) == spec_u32_to_le_bytes(p.pool_fee_tier)
            &&& b.subrange(42, 58) == spec_u128_to_le_bytes(total_supply)
            &&& b.subrange(58, 74) == spec_u128_to_le_bytes(sellable)
            &&& b.subrange(74, 90) == spec_u128_to_le_bytes(reserved)
            &&& b.subrange(90, 106) == spec_u128_to_le_bytes(token_floor)
        }),
{
    vstd::bytes::lemma_auto_spec_u128_to_from_le_bytes();
    vstd::bytes::lemma_auto_spec_u32_to_from_le_bytes();
    vstd::bytes::lemma_auto_spec_u16_to_from_le_bytes();
    let b = terms_bytes(p, total_supply, sellable, reserved, token_floor);
    assert(b.subrange(0, 16) =~= spec_u128_to_le_bytes(p.graduation_target));
    assert(b.subrange(16, 32) =~= spec_u128_to_le_bytes(p.virtual_quote));
    assert(b.subrange(32, 34) =~= spec_u16_to_le_bytes(p.curve_fee_bps));
    assert(b.subrange(34, 36) =~= spec_u16_to_le_bytes(p.protocol_share_bps));
    assert(b.subrange(36, 38) =~= spec_u16_to_le_bytes(p.treasury_share_bps));
    assert(b.subrange(38, 42) =~= spec_u32_to_le_bytes(p.pool_fee_tier));
    assert(b.subrange(42, 58) =~= spec_u128_to_le_bytes(total_supply));
    assert(b.subrange(58, 74) =~= spec_u128_to_le_bytes(sellable));
    assert(b.subrange(74, 90) =~= spec_u128_to_le_bytes(reserved));
    assert(b.subrange(90, 106) =~= spec_u128_to_le_bytes(token_floor));
}

/// A launch can be seeded exactly where the root of what a first deposit
/// multiplies to exceeds what the DEX burns of it.
pub proof fn law_seed_must_exceed_the_minimum(
    c: Constants,
    target: Balance,
    reserved: Balance,
    root: int,
)
    requires
        root >= 0,
        root * root <= target * reserved < (root + 1) * (root + 1),
    ensures
        seedable(c, target, reserved) <==> root > c.minimum_liquidity,
{
    let m = c.minimum_liquidity as int;
    let n = target * reserved;
    if root > m {
        assert(n >= (m + 1) * (m + 1)) by (nonlinear_arith)
            requires
                root * root <= n,
                root >= m + 1,
                m >= 0,
        ;
    } else {
        assert(n < (m + 1) * (m + 1)) by (nonlinear_arith)
            requires
                n < (root + 1) * (root + 1),
                0 <= root <= m,
        ;
    }
}

/// What the curve does not sell is kept for the pool.
pub proof fn law_supply_is_sold_or_reserved(c: Constants)
    ensures
        reserved_tokens(c) == greatest(c.total_supply - c.sellable, 0),
{
}

/// A rescue lets the pool take less than the amount only by the deviation that
/// governance named.
pub proof fn law_rescue_keeps_its_tolerance(amount: Balance, deviation_bps: u16)
    requires
        deviation_bps <= 10_000,
    ensures
        is_floor(
            kept(amount, deviation_bps) as int,
            least(amount * (10_000 - deviation_bps), u128::MAX as int),
            10_000,
        ),
{
    law_share_rounds_down(amount, (10_000 - deviation_bps) as u16);
}

// ---- slices --------------------------------------------------------------

/// A slice spends all that is pending where half of the impact's share of the
/// reserve allows it, and otherwise exactly that, rounded down.
pub proof fn law_slice_size(c: Constants, reserve: Balance, pending: Balance)
    ensures
        ({
            let size = slice_size(c, reserve, pending);
            let allowed = reserve * c.max_burn_impact_bps;
            if pending * 20_000 <= allowed {
                size == pending
            } else {
                size < pending && is_floor(size as int, allowed, 20_000)
            }
        }),
{
    let allowed = reserve * c.max_burn_impact_bps;
    assert(0 <= allowed) by (nonlinear_arith)
        requires
            allowed == reserve * c.max_burn_impact_bps,
            reserve >= 0,
            c.max_burn_impact_bps >= 0,
    ;
    lemma_div_floor(allowed, 20_000);
    lemma_div_floor_greatest(allowed, 20_000, pending as int);
}

/// A slice is in time exactly where there was none before, or at least the burn
/// interval has passed since; where the launch stands has no part in it.
pub proof fn law_interval_alone_decides(s: Store, id: LaunchId, now: BlockNumber)
    ensures
        interval_passed(s, id, now) <==> {
            ||| !s.last_disburse_block.contains_key(id)
            ||| s.constants.min_burn_interval == 0
            ||| now >= s.last_disburse_block[id] + s.constants.min_burn_interval
        },
{
}

/// A slice is bought on the curve while it trades and in the pool once the launch
/// has graduated; in between there is no venue.
pub proof fn law_slice_finds_its_venue(s: Store, id: LaunchId, pool: Option<(Balance, Balance)>)
    requires
        s.launches.contains_key(id),
        s.curves.contains_key(id),
    ensures
        ({
            let quote = s.launches[id].curve.virtual_quote + s.curves[id].real_quote;
            let tokens = s.constants.virtual_token_floor + s.curves[id].tokens_remaining;
            match s.curves[id].phase {
                Phase::Trading => venue_quote(s, id, pool) == if quote <= u128::MAX && tokens
                    <= u128::MAX {
                    quote
                } else {
                    0
                },
                Phase::Graduated => venue_quote(s, id, pool) == match pool {
                    Some((native, _)) => native,
                    None => 0,
                },
                Phase::Complete => venue_quote(s, id, pool) == 0,
            }
        }),
{
}

// ---- ids, accounts and records -------------------------------------------

/// The walk for an asset id goes on from the last one taken, or starts at the
/// launch's own place in the range, and tries one id after another; an id is free
/// where no asset and no launch has it.
pub proof fn law_walk_for_an_asset_id(s: Store, n: nat, a: AssetId, exists_already: bool)
    ensures
        asset_tried(s, n) == least(asset_cursor(s) + n, u32::MAX as int),
        s.next_asset_id matches Some(next) ==> asset_cursor(s) == next,
        s.next_asset_id is None ==> asset_cursor(s) == least(
            s.constants.launch_asset_base + s.next_launch_id,
            u32::MAX as int,
        ),
        asset_after(a) == least(a + 1, u32::MAX as int),
        asset_free(s, a, exists_already) <==> !exists_already && !s.asset_to_launch.contains_key(a),
        default_asset_id(s.constants.launch_asset_base, s.next_launch_id) == least(
            s.constants.launch_asset_base + s.next_launch_id,
            u32::MAX as int,
        ),
{
}

/// A derived account is the tag, the pallet id and the launch id, in that order.
pub proof fn law_accounts_are_derived(pallet_id: [u8; 8], id: LaunchId)
    ensures
        ({
            let b = derived(pallet_id, id).bytes@;
            &&& b.len() == 20
            &&& b.subrange(0, 4) == seq![109u8, 111u8, 100u8, 108u8]
            &&& b.subrange(4, 12) == pallet_id@
            &&& b.subrange(12, 20) == spec_u64_to_le_bytes(id)
        }),
{
    vstd::bytes::lemma_auto_spec_u64_to_from_le_bytes();
    lemma_derived(pallet_id, id);
    let b = derived(pallet_id, id).bytes@;
    assert(b.subrange(0, 4) =~= seq![109u8, 111u8, 100u8, 108u8]);
    assert(b.subrange(4, 12) =~= pallet_id@);
    assert(b.subrange(12, 20) =~= spec_u64_to_le_bytes(id));
}

/// Seeding a pool empties the curve of its quote, and changes nothing else but
/// what says so.
pub proof fn law_graduation_changes_four_fields(
    state: CurveState,
    shares: Balance,
    now: BlockNumber,
)
    ensures
        graduated(state, shares, now) == (CurveState {
            phase: Phase::Graduated,
            real_quote: 0,
            tokens_remaining: state.tokens_remaining,
            creator_fees_unclaimed: state.creator_fees_unclaimed,
            protocol_fees_paid: state.protocol_fees_paid,
            treasury_fees_paid: state.treasury_fees_paid,
            last_trade_block: state.last_trade_block,
            completed_at: state.completed_at,
            graduated_at: Some(now),
            lp_shares: shares,
        }),
{
}

/// Taking the creator's fees changes nothing else of a curve.
pub proof fn law_claim_changes_one_field(state: CurveState)
    ensures
        fees_taken(state) == (CurveState {
            phase: state.phase,
            real_quote: state.real_quote,
            tokens_remaining: state.tokens_remaining,
            creator_fees_unclaimed: 0,
            protocol_fees_paid: state.protocol_fees_paid,
            treasury_fees_paid: state.treasury_fees_paid,
            last_trade_block: state.last_trade_block,
            completed_at: state.completed_at,
            graduated_at: state.graduated_at,
            lp_shares: state.lp_shares,
        }),
{
}

/// A settled buy adds what the curve keeps to its quote, takes the tokens off it, and
/// adds each part of the fee to its own sum; it moves the clock where it is a trade,
/// and completes the curve where it took the last token.
pub proof fn law_settled_buy(
    state: CurveState,
    q: BuyQuote,
    parts: (u128, u128, u128),
    now: BlockNumber,
    is_trade: bool,
)
    requires
        q.tokens_out <= state.tokens_remaining,
    ensures
        ({
            let after = bought(state, q, parts, now, is_trade);
            let most = u128::MAX as int;
            let last = q.tokens_out == state.tokens_remaining;
            &&& after.tokens_remaining == state.tokens_remaining - q.tokens_out
            &&& after.real_quote == least(state.real_quote + q.quote_net_used, most)
            &&& after.protocol_fees_paid == least(state.protocol_fees_paid + parts.0, most)
            &&& after.treasury_fees_paid == least(state.treasury_fees_paid + parts.1, most)
            &&& after.creator_fees_unclaimed == least(
                state.creator_fees_unclaimed + parts.2,
                most,
            )
            &&& is_trade ==> after.last_trade_block == now
            &&& !is_trade ==> after.last_trade_block == state.last_trade_block
            &&& last ==> after.phase is Complete && after.completed_at == Some(now)
            &&& !last ==> after.phase == state.phase && after.completed_at == state.completed_at
            &&& after.graduated_at == state.graduated_at
            &&& after.lp_shares == state.lp_shares
        }),
{
}

/// A settled sell takes what leaves the curve off its quote, puts the tokens back on
/// it, adds each part of the fee to its own sum, and moves the clock.
pub proof fn law_settled_sell(
    state: CurveState,
    q: SellQuote,
    tokens_in: Balance,
    parts: (u128, u128, u128),
    now: BlockNumber,
)
    requires
        q.quote_gross <= state.real_quote,
    ensures
        ({
            let after = sold(state, q, tokens_in, parts, now);
            let most = u128::MAX as int;
            &&& after.tokens_remaining == least(state.tokens_remaining + tokens_in, most)
            &&& after.real_quote == state.real_quote - q.quote_gross
            &&& after.protocol_fees_paid == least(state.protocol_fees_paid + parts.0, most)
            &&& after.treasury_fees_paid == least(state.treasury_fees_paid + parts.1, most)
            &&& after.creator_fees_unclaimed == least(
                state.creator_fees_unclaimed + parts.2,
                most,
            )
            &&& after.last_trade_block == now
            &&& after.phase == state.phase
            &&& after.completed_at == state.completed_at
            &&& after.graduated_at == state.graduated_at
            &&& after.lp_shares == state.lp_shares
        }),
{
}

/// A launchpad can be worked on exactly where no fee is given away more than
/// once: by the runtime's parameters, by those that were set, or by any launch.
pub proof fn law_what_can_be_worked_on<T: Config>(p: &Pallet<T>)
    ensures
        p.venue_wf() <==> p.wf(),
        p.wf() <==> {
            let d = p.constants.default_launch_params;
            &&& d.protocol_share_bps + d.treasury_share_bps <= 10_000
            &&& p.params matches Some(set) ==> set.protocol_share_bps + set.treasury_share_bps
                <= 10_000
            &&& forall|id: LaunchId| #[trigger]
                p.launches@.contains_key(id) ==> p.launches@[id].curve.protocol_share_bps
                    + p.launches@[id].curve.treasury_share_bps <= 10_000
        },
{
    if p.wf() {
        assert forall|id: LaunchId| #[trigger] p.launches@.contains_key(id) implies shares_fit(
            p.launches@[id].curve.protocol_share_bps,
            p.launches@[id].curve.treasury_share_bps,
        ) by {
            assert(p.store().launches.contains_key(id));
        }
    }
}

/// What is stored is what the launchpad holds.
pub proof fn law_store_is_what_is_held<T: Config>(p: &Pallet<T>)
    ensures
        p.store().constants == p.constants,
        p.store().params == p.params,
        p.store().creation_paused == p.creation_paused,
        p.store().next_launch_id == p.next_launch_id,
        p.store().next_asset_id == p.next_asset_id,
        p.store().launches == p.launches@,
        p.store().curves == p.curves@,
        p.store().asset_to_launch == p.asset_to_launch@,
        p.store().metadata == p.metadata@,
        p.store().locks == p.locks@,
        p.store().last_disburse_block == p.last_disburse_block@,
        p.log() == p.host.log(),
{
}

// ---- views ---------------------------------------------------------------

/// A launch's reserves are the virtual ones, where both fit; the venue shows them
/// while the launch trades.
pub proof fn law_reserves_are_virtual(s: Store, id: LaunchId)
    ensures
        ({
            let quote = s.launches[id].curve.virtual_quote + s.curves[id].real_quote;
            let tokens = s.constants.virtual_token_floor + s.curves[id].tokens_remaining;
            let there = s.launches.contains_key(id) && s.curves.contains_key(id) && quote
                <= u128::MAX && tokens <= u128::MAX;
            &&& there ==> reserves_of(s, id) == Some((quote as u128, tokens as u128))
            &&& !there ==> reserves_of(s, id) is None
            &&& there && s.curves[id].phase is Trading ==> venue_reserves(s, id) == Some(
                (quote as u128, tokens as u128),
            )
            &&& !there || !(s.curves[id].phase is Trading) ==> venue_reserves(s, id) is None
        }),
{
}

/// A launch is priced by its own terms and its own state, for whoever asks.
pub proof fn law_launch_is_priced_by_its_own_terms(s: Store, id: LaunchId, amount: Balance)
    ensures
        ({
            let p = s.launches[id].curve;
            let state = s.curves[id];
            let t = Terms {
                virtual_quote: p.virtual_quote,
                token_floor: s.constants.virtual_token_floor,
                fee_bps: p.curve_fee_bps as u128,
            };
            let now = State {
                real_quote: state.real_quote,
                tokens_remaining: state.tokens_remaining,
            };
            &&& terms_of(s.constants, p) == t
            &&& pricing(state) == now
            &&& buy_price(s, id, amount) == buy_quote(t, now, amount)
            &&& sell_price(s, id, amount) == sell_quote(t, now, amount)
            &&& reserves_fit(t, now) <==> p.virtual_quote + state.real_quote <= u128::MAX
                && s.constants.virtual_token_floor + state.tokens_remaining <= u128::MAX
        }),
{
}

/// The spot price is the ratio of the reserves with eighteen decimals, rounded
/// down, wherever it fits in a number.
pub proof fn law_spot_price_is_the_ratio(quote: Balance, tokens: Balance)
    requires
        tokens > 0,
    ensures
        price_of((quote, tokens)) matches Some(p) ==> is_floor(
            p as int,
            quote * 1_000_000_000_000_000_000,
            tokens as int,
        ),
        price_of((quote, tokens)) is None <==> quote * 1_000_000_000_000_000_000 >= (u128::MAX + 1)
            * tokens,
{
    let a = quote * 1_000_000_000_000_000_000;
    lemma_div_floor(a, tokens as int);
    lemma_div_floor_greatest(a, tokens as int, u128::MAX + 1);
}

/// A pool's creator fees are the recipient's of the launch that the asset belongs
/// to, or its commitment account's where they are to be burned, and nobody's where
/// there is no such launch.
pub proof fn law_pool_fees_have_one_claimant(s: Store, asset: AssetId)
    ensures
        ({
            let id = s.asset_to_launch[asset];
            let launched = s.asset_to_launch.contains_key(asset) && s.launches.contains_key(id);
            &&& !launched ==> fee_recipient_of(s, asset) is None
            &&& launched && s.launches[id].commitments.fee_disposition is BuybackBurn
                ==> fee_recipient_of(s, asset) == Some(derived(s.constants.commit_pallet_id, id))
            &&& launched && s.launches[id].commitments.fee_disposition is Recipient
                ==> fee_recipient_of(s, asset) == Some(s.launches[id].creator_fee_recipient)
        }),
{
}

/// A trade is quoted exactly on a launch that is there and trades.
pub proof fn law_only_a_trading_launch_is_quoted(s: Store, id: LaunchId)
    ensures
        quote_error(s, id) == if !s.launches.contains_key(id) || !s.curves.contains_key(id) {
            Some(Error::LaunchNotFound)
        } else if !(s.curves[id].phase is Trading) {
            Some(Error::WrongPhase)
        } else {
            None
        },
{
}

/// Looking a key up gives what is under it.
pub proof fn law_lookup<K, V>(m: Map<K, V>, k: K)
    ensures
        m.contains_key(k) ==> lookup(m, k) == Some(m[k]),
        !m.contains_key(k) ==> lookup(m, k) is None,
{
}

/// Metadata keeps its caps exactly where each of its fields does, and its longest
/// address is one of the four and none is longer.
pub proof fn law_metadata_is_measured(m: LaunchMetadata, uri_limit: u32, description_limit: u32)
    ensures
        m.within(uri_limit, description_limit) <==> {
            &&& m.description@.len() <= description_limit
            &&& m.longest_uri() <= uri_limit
        },
        ({
            let n = m.longest_uri();
            &&& n >= m.image@.len() && n >= m.website@.len()
            &&& n >= m.twitter@.len() && n >= m.telegram@.len()
            &&& n == m.image@.len() || n == m.website@.len() || n == m.twitter@.len() || n
                == m.telegram@.len()
        }),
{
}

/// What two counts, an id and a flag read back as are the numbers whose bytes
/// stand at the front; fewer bytes, or a flag that is none, are refused.
pub proof fn law_counts_are_read_from_the_front(
    launches: u32,
    curves: u32,
    next: LaunchId,
    set: bool,
    rest: Seq<u8>,
)
    ensures
        counts_of(
            spec_u32_to_le_bytes(launches) + spec_u32_to_le_bytes(curves) + spec_u64_to_le_bytes(
                next,
            ) + seq![
                if set {
                    1u8
                } else {
                    0u8
                },
            ] + rest,
        ) == Some((launches, curves, next, set)),
        rest.len() < 17 ==> counts_of(rest) is None,
        rest.len() >= 17 && rest[16] > 1 ==> counts_of(rest) is None,
        rest.len() >= 17 && rest[16] <= 1 ==> counts_of(rest) is Some,
        bool_bytes(set) == seq![
            if set {
                1u8
            } else {
                0u8
            },
        ],
{
    vstd::bytes::lemma_auto_spec_u32_to_from_le_bytes();
    vstd::bytes::lemma_auto_spec_u64_to_from_le_bytes();
    let flag = seq![
        if set {
            1u8
        } else {
            0u8
        },
    ];
    let b = spec_u32_to_le_bytes(launches) + spec_u32_to_le_bytes(curves) + spec_u64_to_le_bytes(
        next,
    ) + flag + rest;
    assert(b.subrange(0, 4) =~= spec_u32_to_le_bytes(launches));
    assert(b.subrange(4, 8) =~= spec_u32_to_le_bytes(curves));
    assert(b.subrange(8, 16) =~= spec_u64_to_le_bytes(next));
    assert(b[16] == flag[0]);
    assert(bool_bytes(set) =~= flag);
}

} // verus!
