use launchpad::config::{Config, Constants, OnCurveBuy};
use launchpad::event::Event;
use launchpad::migrations::v1::VersionUncheckedMigrateToV1;
use launchpad::migrations::v2::VersionUncheckedMigrateToV2;
use launchpad::migrations::{v1, v2};
use launchpad::pallet::disburse::size_slice;
use launchpad::pallet::views::CurveVenue;
use launchpad::pallet::Pallet;
use launchpad::records::{
    CreatorCommitments, CurveState, FeeDisposition, Launch, LaunchMetadata, LaunchParams,
    LockSchedule, LockState, Phase,
};
use launchpad::types::{
    AccountId, ActualWeight, AssetKind, DispatchError, Error, Hash256, Origin, Preservation,
};
use launchpad::{BPS, MAX_ASSET_ID_SCAN, TOKEN_DECIMALS};
use std::cell::RefCell;
use std::collections::{BTreeMap, HashMap};
use std::rc::Rc;

const ED: u128 = 10;
const NO_FUNDS: DispatchError = DispatchError::Other(1);
const BELOW_MINIMUM: DispatchError = DispatchError::Other(2);
const POOL_BUSY: DispatchError = DispatchError::Other(3);
const REFUSED: DispatchError = DispatchError::Other(4);

fn account(n: u8) -> AccountId {
    AccountId { bytes: [n; 20] }
}

const CREATOR: u8 = 1;
const BUYER: u8 = 2;
const TREASURY: u8 = 90;
const POOL: u8 = 91;
const VAULT: u8 = 92;

/// A ledger: balances, assets and one pool per asset.
struct World {
    now: u32,
    native: HashMap<[u8; 20], u128>,
    tokens: HashMap<(u32, [u8; 20]), u128>,
    assets: Vec<u32>,
    described: Vec<(u32, Vec<u8>, Vec<u8>, u8)>,
    pools: Vec<u32>,
    seed_refused: Option<DispatchError>,
    seeds: Vec<(bool, u128, u128, u32)>,
    add_liquidity: Result<(u128, u128, u128), DispatchError>,
    asked_minimums: Option<(u128, u128)>,
    locked_until: Option<u32>,
    reserves: Option<(u128, u128)>,
    swap_out: u128,
    pool_fees: u128,
    sink: Option<AccountId>,
    noted: u128,
    events: Vec<Event>,
    /// Records handed over while a call runs, and how the curve stood at the seed.
    launches: HashMap<u64, (Launch, Option<LaunchMetadata>)>,
    curves: HashMap<u64, CurveState>,
    curve_at_seed: Option<CurveState>,
}

#[derive(Clone)]
struct Runtime {
    world: Rc<RefCell<World>>,
}

impl World {
    fn native_of(&self, who: &AccountId) -> u128 {
        *self.native.get(&who.bytes).unwrap_or(&0)
    }

    fn token_of(&self, asset: u32, who: &AccountId) -> u128 {
        *self.tokens.get(&(asset, who.bytes)).unwrap_or(&0)
    }

    fn credit(&mut self, who: &AccountId, amount: u128) {
        *self.native.entry(who.bytes).or_insert(0) += amount;
    }

    fn pay(
        &mut self,
        from: &AccountId,
        to: &AccountId,
        amount: u128,
        keep: Preservation,
    ) -> Result<(), DispatchError> {
        let have = self.native_of(from);
        if have < amount || (keep == Preservation::Preserve && have - amount < ED) {
            return Err(NO_FUNDS);
        }
        if self.native_of(to) + amount < ED {
            return Err(BELOW_MINIMUM);
        }
        self.native.insert(from.bytes, have - amount);
        self.credit(to, amount);
        Ok(())
    }

    fn move_tokens(
        &mut self,
        asset: u32,
        from: &AccountId,
        to: &AccountId,
        amount: u128,
    ) -> Result<(), DispatchError> {
        let have = self.token_of(asset, from);
        if have < amount {
            return Err(NO_FUNDS);
        }
        self.tokens.insert((asset, from.bytes), have - amount);
        *self.tokens.entry((asset, to.bytes)).or_insert(0) += amount;
        Ok(())
    }
}

fn id_of(kind: AssetKind) -> u32 {
    match kind {
        AssetKind::WithId(a) => a,
        AssetKind::Native => panic!("not an asset id"),
    }
}

impl Config for Runtime {
    type BuyHook = ();

    fn block_number(&mut self) -> u32 {
        self.world.borrow().now
    }

    fn account_exists(&mut self, who: &AccountId) -> bool {
        self.world.borrow().native_of(who) >= ED
    }

    fn deposit_event(&mut self, event: Event) {
        self.world.borrow_mut().events.push(event);
    }

    fn ensure_manage_origin(&mut self, origin: &Origin) -> Result<(), DispatchError> {
        match origin {
            Origin::Root => Ok(()),
            _ => Err(DispatchError::BadOrigin),
        }
    }

    fn currency_transfer(
        &mut self,
        from: &AccountId,
        to: &AccountId,
        amount: u128,
        keep: Preservation,
    ) -> Result<(), DispatchError> {
        self.world.borrow_mut().pay(from, to, amount, keep)
    }

    fn currency_reducible_balance(&mut self, who: &AccountId) -> u128 {
        self.world.borrow().native_of(who).saturating_sub(ED)
    }

    fn currency_balance(&mut self, who: &AccountId) -> u128 {
        self.world.borrow().native_of(who)
    }

    fn currency_minimum_balance(&mut self) -> u128 {
        ED
    }

    fn asset_exists(&mut self, asset: u32) -> bool {
        self.world.borrow().assets.contains(&asset)
    }

    fn asset_create(
        &mut self,
        asset: u32,
        _admin: &AccountId,
        is_sufficient: bool,
        min_balance: u128,
    ) -> Result<(), DispatchError> {
        assert!(!is_sufficient);
        assert_eq!(min_balance, 1);
        self.world.borrow_mut().assets.push(asset);
        Ok(())
    }

    fn asset_set_metadata(
        &mut self,
        asset: u32,
        _who: &AccountId,
        name: &Vec<u8>,
        symbol: &Vec<u8>,
        decimals: u8,
    ) -> Result<(), DispatchError> {
        self.world.borrow_mut().described.push((asset, name.clone(), symbol.clone(), decimals));
        Ok(())
    }

    fn asset_mint_into(
        &mut self,
        asset: u32,
        who: &AccountId,
        amount: u128,
    ) -> Result<(), DispatchError> {
        *self.world.borrow_mut().tokens.entry((asset, who.bytes)).or_insert(0) += amount;
        Ok(())
    }

    fn asset_transfer(
        &mut self,
        asset: u32,
        from: &AccountId,
        to: &AccountId,
        amount: u128,
        _keep: Preservation,
    ) -> Result<(), DispatchError> {
        self.world.borrow_mut().move_tokens(asset, from, to, amount)
    }

    fn asset_balance(&mut self, asset: u32, who: &AccountId) -> u128 {
        self.world.borrow().token_of(asset, who)
    }

    fn asset_burn_from(
        &mut self,
        asset: u32,
        who: &AccountId,
        amount: u128,
    ) -> Result<(), DispatchError> {
        let have = self.world.borrow().token_of(asset, who);
        if have < amount {
            return Err(NO_FUNDS);
        }
        self.world.borrow_mut().tokens.insert((asset, who.bytes), have - amount);
        Ok(())
    }

    fn pool_exists(&mut self, a: AssetKind, b: AssetKind) -> bool {
        assert_eq!(a, AssetKind::Native);
        self.world.borrow().pools.contains(&id_of(b))
    }

    fn add_liquidity_for(
        &mut self,
        who: &AccountId,
        a: AssetKind,
        b: AssetKind,
        amount_a: u128,
        amount_b: u128,
        min_a: u128,
        min_b: u128,
    ) -> Result<u128, DispatchError> {
        assert_eq!(b, AssetKind::Native);
        let mut w = self.world.borrow_mut();
        w.asked_minimums = Some((min_a, min_b));
        let (tokens, quote, shares) = w.add_liquidity?;
        assert!(tokens <= amount_a && quote <= amount_b);
        let pool = account(POOL);
        w.move_tokens(id_of(a), who, &pool, tokens)?;
        w.pay(who, &pool, quote, Preservation::Preserve)?;
        Ok(shares)
    }

    fn lock_liquidity_for(
        &mut self,
        _who: &AccountId,
        _a: AssetKind,
        _b: AssetKind,
        until: u32,
    ) -> Result<(), DispatchError> {
        self.world.borrow_mut().locked_until = Some(until);
        Ok(())
    }

    fn seed_reserved_pool_for(
        &mut self,
        nested: bool,
        who: &AccountId,
        asset: AssetKind,
        quote: AssetKind,
        tokens: u128,
        quote_amount: u128,
        fee_tier: u32,
    ) -> Result<u128, DispatchError> {
        assert_eq!(quote, AssetKind::Native);
        let mut w = self.world.borrow_mut();
        w.curve_at_seed = w.curves.get(&0).copied();
        if let Some(e) = w.seed_refused {
            return Err(e);
        }
        w.seeds.push((nested, tokens, quote_amount, fee_tier));
        let pool = account(POOL);
        w.move_tokens(id_of(asset), who, &pool, tokens)?;
        w.pay(who, &pool, quote_amount, Preservation::Preserve)?;
        w.pools.push(id_of(asset));
        w.reserves = Some((quote_amount, tokens));
        Ok(777)
    }

    fn native_reserves(&mut self, _asset: AssetKind) -> Option<(u128, u128)> {
        self.world.borrow().reserves
    }

    fn swap_for(
        &mut self,
        who: &AccountId,
        from: AssetKind,
        to: AssetKind,
        amount: u128,
        min_out: u128,
    ) -> Result<u128, DispatchError> {
        assert_eq!((from, min_out), (AssetKind::Native, 0));
        let mut w = self.world.borrow_mut();
        let pool = account(POOL);
        w.pay(who, &pool, amount, Preservation::Preserve)?;
        let out = w.swap_out;
        w.move_tokens(id_of(to), &pool, who, out)?;
        Ok(out)
    }

    fn pool_creator_fees_unclaimed(&mut self, _asset: AssetKind) -> u128 {
        self.world.borrow().pool_fees
    }

    fn claim_pool_creator_fees(
        &mut self,
        who: &AccountId,
        _asset: AssetKind,
    ) -> Result<(), DispatchError> {
        let mut w = self.world.borrow_mut();
        let fees = w.pool_fees;
        w.pool_fees = 0;
        w.credit(who, fees);
        Ok(())
    }

    fn treasury_account_for(&mut self, _asset: AssetKind) -> Option<AccountId> {
        self.world.borrow().sink
    }

    fn treasury_note_fee(&mut self, _asset: AssetKind, amount: u128) {
        self.world.borrow_mut().noted += amount;
    }

    fn launch_written(
        &mut self,
        launch_id: u64,
        launch: &Launch,
        curve: &CurveState,
        metadata: Option<&LaunchMetadata>,
    ) {
        let mut w = self.world.borrow_mut();
        w.launches.insert(launch_id, (*launch, metadata.cloned()));
        w.curves.insert(launch_id, *curve);
    }

    fn curve_written(&mut self, launch_id: u64, curve: &CurveState) {
        self.world.borrow_mut().curves.insert(launch_id, *curve);
    }
}

fn params() -> LaunchParams<u128> {
    LaunchParams {
        graduation_target: 3000,
        curve_fee_bps: 100,
        protocol_share_bps: 5000,
        treasury_share_bps: 2000,
        pool_fee_tier: 10,
        creation_fee: 50,
    }
}

fn constants() -> Constants {
    Constants {
        treasury: account(TREASURY),
        pallet_id: *b"vtrs/lpd",
        commit_pallet_id: *b"vtrs/lpc",
        lock_pallet_id: *b"vtrs/lpl",
        total_supply: 4000,
        sellable: 3000,
        virtual_token_floor: 1000,
        launch_asset_base: 1000,
        min_graduation_target: 300,
        max_graduation_target: 1_000_000,
        max_curve_fee_bps: 500,
        min_protocol_share_bps: 2000,
        min_creation_fee: 20,
        rescue_delay: 100,
        string_limit: 8,
        uri_limit: 16,
        description_limit: 32,
        default_launch_params: params(),
        max_lock_blocks: 1000,
        max_burn_impact_bps: 200,
        min_burn_interval: 5,
        minimum_liquidity: 1000,
        min_launch_fee_tier: 3,
    }
}

fn setup() -> (Pallet<Runtime>, Rc<RefCell<World>>) {
    let mut native = HashMap::new();
    native.insert(account(CREATOR).bytes, 100_000);
    native.insert(account(BUYER).bytes, 100_000);
    native.insert(account(TREASURY).bytes, 1000);
    native.insert(account(POOL).bytes, 1000);
    let world = Rc::new(RefCell::new(World {
        now: 7,
        native,
        tokens: HashMap::new(),
        assets: Vec::new(),
        described: Vec::new(),
        pools: Vec::new(),
        seed_refused: None,
        seeds: Vec::new(),
        add_liquidity: Err(REFUSED),
        asked_minimums: None,
        locked_until: None,
        reserves: None,
        swap_out: 0,
        pool_fees: 0,
        sink: None,
        noted: 0,
        events: Vec::new(),
        launches: HashMap::new(),
        curves: HashMap::new(),
        curve_at_seed: None,
    }));
    (Pallet::new(Runtime { world: world.clone() }, constants()), world)
}

fn signed(n: u8) -> Origin {
    Origin::Signed(account(n))
}

fn module<V>(e: Error) -> Result<V, DispatchError> {
    Err(DispatchError::Module(e))
}

fn plain() -> CreatorCommitments<u32> {
    CreatorCommitments::default()
}

fn burning() -> CreatorCommitments<u32> {
    CreatorCommitments { fee_disposition: FeeDisposition::BuybackBurn, lock: None }
}

fn locking(cliff: u32, vest: u32) -> CreatorCommitments<u32> {
    CreatorCommitments {
        fee_disposition: FeeDisposition::Recipient,
        lock: Some(LockSchedule { cliff, vest }),
    }
}

fn create_with(
    p: &mut Pallet<Runtime>,
    initial_buy: u128,
    commitments: CreatorCommitments<u32>,
) -> Result<Option<ActualWeight>, DispatchError> {
    p.create_launch(
        signed(CREATOR),
        b"Moon".to_vec(),
        b"MN".to_vec(),
        None,
        initial_buy,
        0,
        None,
        None,
        commitments,
    )
}

fn create(p: &mut Pallet<Runtime>) {
    assert_eq!(create_with(p, 0, plain()), Ok(None));
}

/// Buys the whole curve: 3000 net, which takes 3031 gross at one per cent.
fn sell_out(p: &mut Pallet<Runtime>) {
    assert_eq!(p.buy(signed(BUYER), 0, 50_000, 0), Ok(None));
}

// ---- creation ------------------------------------------------------------

#[test]
fn creation_writes_every_record() {
    let (mut p, w) = setup();
    create(&mut p);
    let escrow = p.escrow_account(0);
    let l = p.launches[&0];
    assert_eq!(l.asset_id, 1000);
    assert_eq!(l.creator, account(CREATOR));
    assert_eq!(l.creator_fee_recipient, account(CREATOR));
    assert_eq!(l.escrow, escrow);
    assert_eq!(l.created_at, 7);
    assert_eq!(l.curve.virtual_quote, 1000);
    assert_eq!(l.params_hash, p.current_params_hash());
    let c = p.curves[&0];
    assert_eq!((c.phase, c.real_quote, c.tokens_remaining), (Phase::Trading, 0, 3000));
    assert_eq!((c.last_trade_block, c.completed_at, c.graduated_at), (7, None, None));
    assert_eq!(p.asset_to_launch[&1000], 0);
    assert_eq!(p.next_launch_id, 1);
    assert_eq!(p.next_asset_id, Some(1001));
    let w = w.borrow();
    // The creation fee less the escrow's own deposit reaches the treasury.
    assert_eq!(w.native_of(&escrow), ED);
    assert_eq!(w.native_of(&account(TREASURY)), 1040);
    assert_eq!(w.native_of(&account(CREATOR)), 99_950);
    assert_eq!(w.token_of(1000, &escrow), 4000);
    assert_eq!(w.described, vec![(1000, b"Moon".to_vec(), b"MN".to_vec(), TOKEN_DECIMALS)]);
    assert_eq!(
        w.events,
        vec![Event::LaunchCreated {
            id: 0,
            asset_id: 1000,
            creator: account(CREATOR),
            params_hash: l.params_hash,
        }]
    );
}

#[test]
fn creation_keeps_a_named_recipient_and_metadata() {
    let (mut p, w) = setup();
    let m = LaunchMetadata {
        image: b"ipfs://a".to_vec(),
        description: b"a coin".to_vec(),
        website: b"https://b.c".to_vec(),
        twitter: Vec::new(),
        telegram: Vec::new(),
    };
    assert_eq!(m.dims(), (6, 11));
    let r = p.create_launch(
        signed(CREATOR),
        b"Moon".to_vec(),
        b"MN".to_vec(),
        Some(account(9)),
        100,
        0,
        None,
        Some(m.clone()),
        plain(),
    );
    assert_eq!(
        r,
        Ok(Some(ActualWeight::CreateLaunchAndBuy { name: 4, symbol: 2, description: 6, uri: 11 }))
    );
    assert_eq!(p.launches[&0].creator_fee_recipient, account(9));
    assert_eq!(p.metadata[&0], m);
    assert!(w.borrow().events.contains(&Event::LaunchMetadataSet { launch_id: 0 }));
}

#[test]
fn paused_creation_is_refused_and_nothing_else_is() {
    let (mut p, _w) = setup();
    create(&mut p);
    assert_eq!(p.set_creation_paused(signed(CREATOR), true), Err(DispatchError::BadOrigin));
    assert_eq!(p.set_creation_paused(Origin::Root, true), Ok(()));
    assert_eq!(create_with(&mut p, 0, plain()), module(Error::CreationPaused));
    assert!(p.buy(signed(BUYER), 0, 100, 0).is_ok());
    assert_eq!(p.set_creation_paused(Origin::Root, false), Ok(()));
    assert_eq!(create_with(&mut p, 0, plain()), Ok(None));
    assert_eq!(p.next_launch_id, 2);
}

#[test]
fn unsigned_calls_are_refused() {
    let (mut p, _w) = setup();
    let bad = DispatchError::BadOrigin;
    for origin in [Origin::Root, Origin::Unsigned, Origin::Custom(3)] {
        let r = p.create_launch(
            origin,
            b"a".to_vec(),
            b"b".to_vec(),
            None,
            0,
            0,
            None,
            None,
            plain(),
        );
        assert_eq!(r, Err(bad));
        assert_eq!(p.buy(origin, 0, 1, 0), Err(bad));
        assert_eq!(p.sell(origin, 0, 1, 0), Err(bad));
        assert_eq!(p.graduate(origin, 0), Err(bad));
        assert_eq!(p.claim_creator_fees(origin, 0), Err(bad));
        assert_eq!(p.set_creator_fee_recipient(origin, 0, account(3)), Err(bad));
        assert_eq!(p.disburse(origin, 0), Err(bad));
        assert_eq!(p.claim_locked(origin, 0), Err(bad));
    }
}

#[test]
fn nameless_token_is_refused() {
    let (mut p, _w) = setup();
    for (name, symbol) in [(b"".to_vec(), b"MN".to_vec()), (b"Moon".to_vec(), b"".to_vec())] {
        let r = p.create_launch(signed(CREATOR), name, symbol, None, 0, 0, None, None, plain());
        assert_eq!(r, module(Error::InvalidMetadata));
    }
}

#[test]
fn wrong_terms_hash_is_refused_and_the_current_one_is_not() {
    let (mut p, _w) = setup();
    let try_hash = |p: &mut Pallet<Runtime>, h: Hash256| {
        p.create_launch(
            signed(CREATOR),
            b"Moon".to_vec(),
            b"MN".to_vec(),
            None,
            0,
            0,
            Some(h),
            None,
            plain(),
        )
    };
    let current = p.current_params_hash();
    assert_eq!(try_hash(&mut p, Hash256 { bytes: [0; 32] }), module(Error::ParamsMismatch));
    assert_eq!(try_hash(&mut p, current), Ok(None));
    let mut other = params();
    other.curve_fee_bps = 200;
    assert_eq!(p.set_params(Origin::Root, other), Ok(()));
    assert_ne!(p.current_params_hash(), current);
    assert_eq!(try_hash(&mut p, current), module(Error::ParamsMismatch));
}

#[test]
fn terms_hash_is_the_digest_of_the_encoded_terms() {
    let (p, _w) = setup();
    assert_eq!(
        p.current_params_hash().bytes,
        [
            0x69, 0xa1, 0x14, 0xc1, 0x9f, 0xef, 0xeb, 0x6c,
            0x9f, 0x39, 0xd7, 0x82, 0x7c, 0x14, 0x24, 0x95,
            0x50, 0xba, 0xc3, 0x22, 0xd9, 0x67, 0xa4, 0x8c,
            0x6a, 0x37, 0x0e, 0xd7, 0xd7, 0xb1, 0x33, 0x06,
        ]
    );
}

#[test]
fn taken_asset_ids_are_walked_past() {
    let (mut p, w) = setup();
    w.borrow_mut().assets.extend([1000, 1001, 1002]);
    create(&mut p);
    assert_eq!(p.launches[&0].asset_id, 1003);
    assert_eq!(p.next_asset_id, Some(1004));
    create(&mut p);
    assert_eq!(p.launches[&1].asset_id, 1004);
    assert_eq!(p.asset_id_for(1), 1001);
    assert_eq!(p.asset_id_for(u64::MAX), u32::MAX);
}

#[test]
fn an_endless_row_of_taken_ids_is_given_up() {
    let (mut p, w) = setup();
    w.borrow_mut().assets.extend(1000..1000 + MAX_ASSET_ID_SCAN);
    assert_eq!(create_with(&mut p, 0, plain()), module(Error::AssetIdTaken));
    assert_eq!((p.next_launch_id, p.next_asset_id), (0, None));
    w.borrow_mut().assets.remove(255);
    create(&mut p);
    assert_eq!(p.launches[&0].asset_id, 1255);
}

#[test]
fn launch_with_a_pool_already_is_refused() {
    let (mut p, w) = setup();
    w.borrow_mut().pools.push(1000);
    assert_eq!(create_with(&mut p, 0, plain()), module(Error::PoolAlreadySeeded));
}

#[test]
fn launch_too_small_to_seed_is_refused() {
    let (mut p, _w) = setup();
    // The root of target times reserved must exceed the minimum of 1000.
    assert_eq!(p.ensure_seedable(1000, 1000), module(Error::Unseedable));
    assert_eq!(p.ensure_seedable(1002, 1000), module(Error::Unseedable));
    assert_eq!(p.ensure_seedable(1003, 1000), Ok(()));
    assert_eq!(p.ensure_seedable(u128::MAX, u128::MAX), Ok(()));
    let mut small = params();
    small.graduation_target = 900;
    assert_eq!(p.set_params(Origin::Root, small), Ok(()));
    assert_eq!(create_with(&mut p, 0, plain()), module(Error::Unseedable));
}

#[test]
fn launch_ids_run_out() {
    let (mut p, _w) = setup();
    p.next_launch_id = u64::MAX;
    p.next_asset_id = Some(5000);
    assert_eq!(create_with(&mut p, 0, plain()), module(Error::ArithmeticOverflow));
    assert!(p.launches.is_empty() && p.curves.is_empty() && p.asset_to_launch.is_empty());
}

#[test]
fn creation_whose_first_buy_fails_leaves_no_record() {
    let (mut p, _w) = setup();
    let r = p.create_launch(
        signed(CREATOR),
        b"Moon".to_vec(),
        b"MN".to_vec(),
        None,
        100,
        5000,
        None,
        Some(LaunchMetadata {
            image: Vec::new(),
            description: Vec::new(),
            website: Vec::new(),
            twitter: Vec::new(),
            telegram: Vec::new(),
        }),
        plain(),
    );
    assert_eq!(r, module(Error::SlippageExceeded));
    assert!(p.launches.is_empty() && p.curves.is_empty() && p.asset_to_launch.is_empty());
    assert!(p.metadata.is_empty() && p.locks.is_empty());
    assert_eq!((p.next_launch_id, p.next_asset_id), (0, None));
}

#[test]
fn first_buy_that_sells_out_is_not_refunded() {
    let (mut p, _w) = setup();
    assert_eq!(create_with(&mut p, 50_000, plain()), Ok(None));
    assert_eq!(p.curves[&0].phase, Phase::Graduated);
}

#[test]
fn first_buy_finds_its_launch_written() {
    let (mut p, w) = setup();
    // Nothing follows the records of a launch without a first buy.
    create(&mut p);
    assert!(w.borrow().launches.is_empty());
    let m = LaunchMetadata {
        image: b"ipfs".to_vec(),
        description: b"to it".to_vec(),
        website: Vec::new(),
        twitter: Vec::new(),
        telegram: Vec::new(),
    };
    let r = p.create_launch(
        signed(CREATOR),
        b"Moon".to_vec(),
        b"MN".to_vec(),
        None,
        1000,
        0,
        None,
        Some(m.clone()),
        plain(),
    );
    assert!(r.is_ok());
    assert_eq!(w.borrow().launches.get(&1), Some(&(p.launches[&1], Some(m))));
    // The curve as it stood before the buy.
    let c = w.borrow().curves[&1];
    assert_eq!((c.phase, c.real_quote, c.tokens_remaining), (Phase::Trading, 0, 3000));
    assert!(p.curves[&1].tokens_remaining < 3000);
}

#[test]
fn seed_finds_the_curve_complete() {
    let (mut p, w) = setup();
    create(&mut p);
    assert!(p.buy(signed(BUYER), 0, 1000, 0).is_ok());
    assert!(w.borrow().curves.is_empty());
    sell_out(&mut p);
    let c = w.borrow().curve_at_seed.unwrap();
    assert_eq!((c.phase, c.tokens_remaining, c.graduated_at), (Phase::Complete, 0, None));
    assert_eq!(c.completed_at, Some(7));
    assert_eq!(p.curves[&0].phase, Phase::Graduated);
}

#[test]
fn supply_is_minted_once_and_only_burns_change_it() {
    let (mut p, w) = setup();
    let supply = |w: &Rc<RefCell<World>>| -> u128 {
        w.borrow().tokens.iter().filter(|((a, _), _)| *a == 1000).map(|(_, n)| *n).sum()
    };
    assert!(create_with(&mut p, 1000, burning()).is_ok());
    assert_eq!(supply(&w), 4000);
    assert!(p.buy(signed(BUYER), 0, 500, 0).is_ok());
    assert!(p.sell(signed(BUYER), 0, 10, 0).is_ok());
    assert_eq!(supply(&w), 4000);
    let commit = p.commit_account(0);
    w.borrow_mut().credit(&commit, 100);
    let (_, _, burned, _) = p.do_disburse(0).unwrap();
    assert!(burned > 0);
    assert_eq!(supply(&w), 4000 - burned);
    sell_out(&mut p);
    assert_eq!(supply(&w), 4000 - burned);
}

#[test]
fn creator_must_afford_the_creation_fee() {
    let (mut p, w) = setup();
    w.borrow_mut().native.insert(account(CREATOR).bytes, 55);
    assert_eq!(create_with(&mut p, 0, plain()), Err(NO_FUNDS));
}

// ---- accounts and terms --------------------------------------------------

#[test]
fn accounts_are_derived_from_tag_pallet_id_and_launch_id() {
    let (p, _w) = setup();
    assert_eq!(&p.escrow_account(0x0102).bytes, b"modlvtrs/lpd\x02\x01\0\0\0\0\0\0");
    assert_eq!(&p.commit_account(3).bytes, b"modlvtrs/lpc\x03\0\0\0\0\0\0\0");
    assert_eq!(&p.lock_account(u64::MAX).bytes, b"modlvtrs/lpl\xff\xff\xff\xff\xff\xff\xff\xff");
    assert_ne!(p.escrow_account(1), p.escrow_account(2));
    assert_ne!(p.escrow_account(1), p.lock_account(1));
}

#[test]
fn reserved_is_what_the_curve_does_not_sell() {
    let (p, _w) = setup();
    assert_eq!(p.reserved(), 1000);
}

#[test]
fn params_out_of_bounds_are_refused() {
    let (mut p, w) = setup();
    let refuse = |p: &mut Pallet<Runtime>, change: &dyn Fn(&mut LaunchParams<u128>)| {
        let mut bad = params();
        change(&mut bad);
        assert_eq!(p.set_params(Origin::Root, bad), module(Error::ParamsOutOfBounds));
        assert_eq!(p.params, None);
    };
    refuse(&mut p, &|x| x.graduation_target = 299);
    refuse(&mut p, &|x| x.graduation_target = 1_000_001);
    refuse(&mut p, &|x| x.curve_fee_bps = 501);
    refuse(&mut p, &|x| {
        x.protocol_share_bps = 1000;
        x.treasury_share_bps = 999;
    });
    refuse(&mut p, &|x| x.protocol_share_bps = 8001);
    refuse(&mut p, &|x| x.protocol_share_bps = u16::MAX);
    refuse(&mut p, &|x| x.pool_fee_tier = 5);
    refuse(&mut p, &|x| x.creation_fee = 19);
    assert_eq!(p.set_params(signed(CREATOR), params()), Err(DispatchError::BadOrigin));
    p.constants.min_launch_fee_tier = 10;
    refuse(&mut p, &|x| x.pool_fee_tier = 3);
    assert!(w.borrow().events.is_empty());
    let mut good = params();
    good.graduation_target = 6000;
    assert_eq!(p.set_params(Origin::Root, good), Ok(()));
    assert_eq!(p.live_params(), good);
    assert_eq!(w.borrow().events, vec![Event::ParamsUpdated { params: good }]);
}

#[test]
fn new_params_leave_existing_launches_alone() {
    let (mut p, _w) = setup();
    create(&mut p);
    let before = p.launches[&0];
    let quote = p.quote_buy(0, 1000).unwrap();
    let mut other = params();
    other.graduation_target = 6000;
    other.curve_fee_bps = 500;
    assert_eq!(p.set_params(Origin::Root, other), Ok(()));
    assert_eq!(p.launches[&0], before);
    assert_eq!(p.quote_buy(0, 1000), Ok(quote));
    create(&mut p);
    assert_eq!(p.launches[&1].curve.virtual_quote, 2000);
}

#[test]
fn commitments_are_bounded() {
    let (mut p, _w) = setup();
    assert_eq!(create_with(&mut p, 0, locking(1, 1)), module(Error::LockWithoutPosition));
    assert_eq!(create_with(&mut p, 100, locking(500, 501)), module(Error::CommitmentOutOfBounds));
    assert_eq!(
        create_with(&mut p, 100, locking(u32::MAX, 1)),
        module(Error::CommitmentOutOfBounds)
    );
    assert!(create_with(&mut p, 100, locking(500, 500)).is_ok());
    assert!(!plain().is_committed() && !plain().burns_fees());
    assert!(burning().is_committed() && burning().burns_fees());
    assert!(locking(0, 0).is_committed() && !locking(0, 0).burns_fees());
}

// ---- trading -------------------------------------------------------------

#[test]
fn buy_moves_quote_in_and_tokens_out() {
    let (mut p, w) = setup();
    create(&mut p);
    w.borrow_mut().events.clear();
    // 1000 in: fee 10, net 990, 4000 * 990 / 1990 = 1989 tokens.
    assert_eq!(p.buy(signed(BUYER), 0, 1000, 1989), Ok(Some(ActualWeight::Buy)));
    let c = p.curves[&0];
    assert_eq!((c.real_quote, c.tokens_remaining), (990, 1011));
    // Half of the fee is the protocol's; without a sink the treasury's fifth joins it.
    assert_eq!((c.protocol_fees_paid, c.treasury_fees_paid), (7, 0));
    assert_eq!(c.creator_fees_unclaimed, 3);
    assert_eq!(c.last_trade_block, 7);
    let w = w.borrow();
    let escrow = p.escrow_account(0);
    assert_eq!(w.native_of(&escrow), ED + 990 + 3);
    assert_eq!(w.token_of(1000, &escrow), 1011 + 1000);
    assert_eq!(w.native_of(&account(BUYER)), 99_000);
    assert_eq!(w.token_of(1000, &account(BUYER)), 1989);
    assert_eq!(
        w.events,
        vec![Event::Bought {
            launch_id: 0,
            who: account(BUYER),
            quote_used: 1000,
            fee: 10,
            tokens_out: 1989,
        }]
    );
}

#[test]
fn buys_are_refused_for_their_reasons() {
    let (mut p, w) = setup();
    assert_eq!(p.buy(signed(BUYER), 0, 100, 0), module(Error::LaunchNotFound));
    create(&mut p);
    assert_eq!(p.buy(signed(BUYER), 0, 0, 0), module(Error::ZeroAmount));
    assert_eq!(p.buy(signed(BUYER), 0, 1000, 1990), module(Error::SlippageExceeded));
    // One unit is all fee.
    assert_eq!(p.buy(signed(BUYER), 0, 1, 0), module(Error::Unquotable));
    w.borrow_mut().native.insert(account(BUYER).bytes, 500);
    let before = p.curves[&0];
    assert_eq!(p.buy(signed(BUYER), 0, 1000, 0), Err(NO_FUNDS));
    assert_eq!(p.curves[&0], before);
    w.borrow_mut().native.insert(account(BUYER).bytes, 100_000);
    sell_out(&mut p);
    assert_eq!(p.buy(signed(BUYER), 0, 100, 0), module(Error::WrongPhase));
}

#[test]
fn treasury_part_goes_to_the_vault_where_it_can() {
    let (mut p, w) = setup();
    create(&mut p);
    w.borrow_mut().sink = Some(account(VAULT));
    // The treasury's part of 2 is below the minimum, and the vault is not there yet.
    assert!(p.buy(signed(BUYER), 0, 1000, 0).is_ok());
    assert_eq!((p.curves[&0].protocol_fees_paid, p.curves[&0].treasury_fees_paid), (7, 0));
    assert_eq!(w.borrow().noted, 0);
    w.borrow_mut().credit(&account(VAULT), ED);
    assert!(p.buy(signed(BUYER), 0, 1000, 0).is_ok());
    assert_eq!((p.curves[&0].protocol_fees_paid, p.curves[&0].treasury_fees_paid), (12, 2));
    assert_eq!(w.borrow().noted, 2);
    assert_eq!(w.borrow().native_of(&account(VAULT)), ED + 2);
}

#[test]
fn sell_moves_tokens_in_and_quote_out() {
    let (mut p, w) = setup();
    create(&mut p);
    assert!(p.buy(signed(BUYER), 0, 1000, 0).is_ok());
    w.borrow_mut().now = 8;
    w.borrow_mut().events.clear();
    // 1990 * 1000 / (2011 + 1000) = 660 gross, fee 7, 653 out.
    assert_eq!(p.quote_sell(0, 1000).unwrap().quote_out, 653);
    assert_eq!(p.sell(signed(BUYER), 0, 1000, 653), Ok(()));
    let c = p.curves[&0];
    assert_eq!((c.real_quote, c.tokens_remaining), (330, 2011));
    assert_eq!(c.last_trade_block, 8);
    // Of 7: 3 + 1 to the protocol, 3 to the creator.
    assert_eq!((c.protocol_fees_paid, c.creator_fees_unclaimed), (11, 6));
    let w = w.borrow();
    assert_eq!(w.native_of(&p.escrow_account(0)), ED + 330 + 6);
    assert_eq!(w.native_of(&account(BUYER)), 99_653);
    assert_eq!(
        w.events,
        vec![Event::Sold {
            launch_id: 0,
            who: account(BUYER),
            tokens_in: 1000,
            fee: 7,
            quote_out: 653,
        }]
    );
}

#[test]
fn sells_are_refused_for_their_reasons() {
    let (mut p, _w) = setup();
    assert_eq!(p.sell(signed(BUYER), 0, 1, 0), module(Error::LaunchNotFound));
    create(&mut p);
    assert_eq!(p.sell(signed(BUYER), 0, 0, 0), module(Error::ZeroAmount));
    assert_eq!(p.sell(signed(BUYER), 0, 1, 0), module(Error::SellExceedsSold));
    assert!(p.buy(signed(BUYER), 0, 1000, 0).is_ok());
    assert_eq!(p.sell(signed(BUYER), 0, 1990, 0), module(Error::SellExceedsSold));
    assert_eq!(p.sell(signed(BUYER), 0, 1, 0), module(Error::Unquotable));
    assert_eq!(p.sell(signed(BUYER), 0, 1000, 654), module(Error::SlippageExceeded));
    assert_eq!(p.sell(signed(CREATOR), 0, 1000, 0), Err(NO_FUNDS));
    let sound = p.curves[&0];
    let mut broken = sound;
    broken.real_quote = 10;
    p.curves.insert(0, broken);
    assert_eq!(p.sell(signed(BUYER), 0, 1000, 0), module(Error::ArithmeticOverflow));
    assert_eq!(p.curves[&0], broken);
    p.curves.insert(0, sound);
    sell_out(&mut p);
    assert_eq!(p.sell(signed(BUYER), 0, 1, 0), module(Error::WrongPhase));
}

#[test]
fn buys_and_sells_can_be_made_from_within_the_runtime() {
    let (mut p, w) = setup();
    create(&mut p);
    w.borrow_mut().now = 9;
    assert_eq!(p.do_buy(&account(BUYER), 0, 1000, 0, false, false), Ok((false, 1989)));
    assert_eq!(p.curves[&0].last_trade_block, 7);
    assert_eq!(p.do_sell(&account(BUYER), 0, 1000, 0), Ok(()));
    assert_eq!(p.curves[&0].last_trade_block, 9);
    let (crossed, tokens) = p.do_buy(&account(BUYER), 0, 50_000, 0, false, true).unwrap();
    assert!(crossed);
    assert_eq!(tokens, 2011);
}

#[test]
fn round_trip_gains_nothing() {
    let (mut p, w) = setup();
    create(&mut p);
    let k = p.invariant_k(0).unwrap();
    assert_eq!(k.limbs, [4_000_000, 0, 0, 0]);
    assert!(p.buy(signed(BUYER), 0, 1000, 0).is_ok());
    assert_eq!(p.invariant_k(0).unwrap().limbs, [1990 * 2011, 0, 0, 0]);
    let tokens = w.borrow().token_of(1000, &account(BUYER));
    assert!(p.sell(signed(BUYER), 0, tokens, 0).is_ok());
    assert!(w.borrow().native_of(&account(BUYER)) < 100_000);
    assert_eq!(p.curves[&0].tokens_remaining, 3000);
}

#[test]
fn gifts_to_the_escrow_change_no_price() {
    let (mut p, w) = setup();
    create(&mut p);
    assert!(p.buy(signed(BUYER), 0, 1000, 0).is_ok());
    let (quote, price) = (p.quote_buy(0, 500), p.spot_price(0));
    let escrow = p.escrow_account(0);
    w.borrow_mut().credit(&escrow, 12_345);
    assert_eq!((p.quote_buy(0, 500), p.spot_price(0)), (quote, price));
    assert_eq!(p.curves[&0].real_quote, 990);
}

#[test]
fn spot_price_has_eighteen_decimals() {
    let (mut p, _w) = setup();
    assert_eq!(p.spot_price(0), None);
    create(&mut p);
    assert_eq!(p.spot_price(0), Some(250_000_000_000_000_000));
    let terms = p.curve_terms(0).unwrap();
    assert_eq!((terms.virtual_quote, terms.token_floor, terms.fee_bps), (1000, 1000, 100));
    assert_eq!(p.curve_terms(1), None);
    assert!(p.invariant_k(1).is_none());
}

#[test]
fn quotes_need_a_trading_launch() {
    let (mut p, _w) = setup();
    assert_eq!(p.quote_buy(0, 1), module(Error::LaunchNotFound));
    assert_eq!(p.quote_sell(0, 1), module(Error::LaunchNotFound));
    create(&mut p);
    assert_eq!(p.quote_buy(0, 0), module(Error::ZeroAmount));
    assert_eq!(p.quote_sell(0, 0), module(Error::ZeroAmount));
    sell_out(&mut p);
    assert_eq!(p.quote_buy(0, 1), module(Error::WrongPhase));
    assert_eq!(p.quote_sell(0, 1), module(Error::WrongPhase));
}

// ---- graduation ----------------------------------------------------------

#[test]
fn crossing_buy_fills_in_part_and_seeds_the_pool() {
    let (mut p, w) = setup();
    create(&mut p);
    w.borrow_mut().events.clear();
    sell_out(&mut p);
    let c = p.curves[&0];
    assert_eq!(c.phase, Phase::Graduated);
    assert_eq!((c.real_quote, c.tokens_remaining, c.lp_shares), (0, 0, 777));
    assert_eq!((c.completed_at, c.graduated_at), (Some(7), Some(7)));
    let w = w.borrow();
    // 3000 net take 3031 gross; exactly the target and the reserve are seeded.
    assert_eq!(w.native_of(&account(BUYER)), 100_000 - 3031);
    assert_eq!(w.token_of(1000, &account(BUYER)), 3000);
    assert_eq!(w.seeds, vec![(true, 1000, 3000, 10)]);
    assert_eq!(w.token_of(1000, &p.escrow_account(0)), 0);
    assert_eq!(w.native_of(&p.escrow_account(0)), ED + c.creator_fees_unclaimed);
    assert_eq!(
        w.events[1..],
        [
            Event::CurveCompleted { launch_id: 0, raised: 3000 },
            Event::Graduated {
                launch_id: 0,
                quote_seeded: 3000,
                tokens_seeded: 1000,
                shares: 777,
            },
        ]
    );
}

#[test]
fn refused_seed_defers_graduation_and_can_be_retried() {
    let (mut p, w) = setup();
    create(&mut p);
    w.borrow_mut().seed_refused = Some(POOL_BUSY);
    sell_out(&mut p);
    assert_eq!((p.curves[&0].phase, p.curves[&0].real_quote), (Phase::Complete, 3000));
    assert_eq!(w.borrow().token_of(1000, &account(BUYER)), 3000);
    assert_eq!(
        w.borrow().events.last(),
        Some(&Event::GraduationDeferred { launch_id: 0, error: POOL_BUSY })
    );
    assert_eq!(p.graduate(signed(9), 0), Err(POOL_BUSY));
    w.borrow_mut().seed_refused = None;
    w.borrow_mut().now = 20;
    assert_eq!(p.graduate(signed(9), 0), Ok(()));
    assert_eq!((p.curves[&0].phase, p.curves[&0].graduated_at), (Phase::Graduated, Some(20)));
    assert_eq!(w.borrow().seeds, vec![(false, 1000, 3000, 10)]);
    assert_eq!(p.graduate(signed(9), 0), module(Error::WrongPhase));
}

#[test]
fn only_a_sold_out_launch_graduates() {
    let (mut p, _w) = setup();
    assert_eq!(p.graduate(signed(9), 0), module(Error::LaunchNotFound));
    create(&mut p);
    assert_eq!(p.graduate(signed(9), 0), module(Error::WrongPhase));
    assert_eq!(p.do_seed(0), module(Error::WrongPhase));
}

// ---- creator fees --------------------------------------------------------

#[test]
fn creator_fees_are_claimed_by_the_recipient_alone() {
    let (mut p, w) = setup();
    assert_eq!(p.claim_creator_fees(signed(CREATOR), 0), module(Error::LaunchNotFound));
    create(&mut p);
    assert_eq!(p.claim_creator_fees(signed(CREATOR), 0), module(Error::ZeroAmount));
    assert!(p.buy(signed(BUYER), 0, 1000, 0).is_ok());
    assert_eq!(p.claim_creator_fees(signed(BUYER), 0), module(Error::NotFeeRecipient));
    let before = w.borrow().native_of(&account(CREATOR));
    assert_eq!(p.claim_creator_fees(signed(CREATOR), 0), Ok(()));
    assert_eq!(w.borrow().native_of(&account(CREATOR)), before + 3);
    assert_eq!(p.curves[&0].creator_fees_unclaimed, 0);
    assert_eq!(
        w.borrow().events.last(),
        Some(&Event::CreatorFeesClaimed { launch_id: 0, recipient: account(CREATOR), amount: 3 })
    );
}

#[test]
fn recipient_is_changed_by_the_recipient_alone() {
    let (mut p, w) = setup();
    assert_eq!(
        p.set_creator_fee_recipient(signed(CREATOR), 0, account(5)),
        module(Error::LaunchNotFound)
    );
    create(&mut p);
    assert_eq!(
        p.set_creator_fee_recipient(signed(BUYER), 0, account(5)),
        module(Error::NotFeeRecipient)
    );
    assert_eq!(p.creator_fee_recipient_for(1000), Some(account(CREATOR)));
    let mut expected = p.launches[&0];
    assert_eq!(p.set_creator_fee_recipient(signed(CREATOR), 0, account(5)), Ok(()));
    expected.creator_fee_recipient = account(5);
    assert_eq!(p.launches[&0], expected);
    assert_eq!(p.creator_fee_recipient_for(1000), Some(account(5)));
    assert_eq!(p.creator_fee_recipient_for(1001), None);
    assert_eq!(
        w.borrow().events.last(),
        Some(&Event::CreatorFeeRecipientChanged {
            launch_id: 0,
            old_recipient: account(CREATOR),
            new: account(5),
        })
    );
    assert_eq!(
        p.set_creator_fee_recipient(signed(CREATOR), 0, account(6)),
        module(Error::NotFeeRecipient)
    );
}

#[test]
fn metadata_is_replaced_by_the_recipient_alone() {
    let (mut p, _w) = setup();
    let m = LaunchMetadata {
        image: b"i".to_vec(),
        description: Vec::new(),
        website: Vec::new(),
        twitter: b"tw".to_vec(),
        telegram: b"tel".to_vec(),
    };
    assert_eq!(m.dims(), (0, 3));
    assert_eq!(
        p.set_launch_metadata(signed(CREATOR), 0, m.clone()),
        module(Error::LaunchNotFound)
    );
    create(&mut p);
    assert_eq!(
        p.set_launch_metadata(signed(BUYER), 0, m.clone()),
        module(Error::NotFeeRecipient)
    );
    assert_eq!(
        p.set_launch_metadata(Origin::Root, 0, m.clone()),
        Err(DispatchError::BadOrigin)
    );
    assert!(p.metadata.is_empty());
    assert_eq!(p.set_launch_metadata(signed(CREATOR), 0, m.clone()), Ok(()));
    assert_eq!(p.metadata[&0], m);
}

// ---- locks ---------------------------------------------------------------

#[test]
fn first_buy_goes_into_the_lock() {
    let (mut p, w) = setup();
    assert!(create_with(&mut p, 1000, locking(100, 200)).is_ok());
    let lock = p.locks[&0];
    assert_eq!((lock.total, lock.released), (1989, 0));
    assert_eq!((lock.cliff_end, lock.vest_end), (107, 307));
    {
        let w = w.borrow();
        assert_eq!(w.token_of(1000, &p.lock_account(0)), 1989);
        assert_eq!(w.token_of(1000, &account(CREATOR)), 0);
        assert_eq!(w.native_of(&p.lock_account(0)), ED);
        assert_eq!(
            w.events.last(),
            Some(&Event::Locked { launch_id: 0, amount: 1989, cliff_end: 107, vest_end: 307 })
        );
    }
    assert_eq!(p.claim_locked(signed(BUYER), 0), module(Error::NotFeeRecipient));
    assert_eq!(p.claim_locked(signed(CREATOR), 0), module(Error::NothingVested));
    w.borrow_mut().now = 157;
    assert_eq!(p.claim_locked(signed(CREATOR), 0), Ok(()));
    assert_eq!(w.borrow().token_of(1000, &account(CREATOR)), 497);
    assert_eq!(p.locks[&0].released, 497);
    assert_eq!(w.borrow().token_of(1000, &p.lock_account(0)), 1989 - 497);
    assert_eq!(p.claim_locked(signed(CREATOR), 0), module(Error::NothingVested));
    w.borrow_mut().now = 400;
    assert_eq!(p.claim_locked(signed(CREATOR), 0), Ok(()));
    assert_eq!(w.borrow().token_of(1000, &account(CREATOR)), 1989);
    assert_eq!(w.borrow().events.last(), Some(&Event::LockReleased { launch_id: 0, amount: 1492 }));
}

#[test]
fn lock_follows_the_token_past_taken_ids() {
    let (mut p, w) = setup();
    w.borrow_mut().assets.push(1000);
    assert!(create_with(&mut p, 1000, locking(10, 0)).is_ok());
    assert_eq!(w.borrow().token_of(1001, &p.lock_account(0)), 1989);
    w.borrow_mut().now = 17;
    assert_eq!(p.claim_locked(signed(CREATOR), 0), Ok(()));
    assert_eq!(w.borrow().token_of(1001, &account(CREATOR)), 1989);
}

#[test]
fn nothing_is_locked_without_a_commitment() {
    let (mut p, _w) = setup();
    assert_eq!(p.claim_locked(signed(CREATOR), 0), module(Error::LaunchNotFound));
    create(&mut p);
    assert_eq!(p.claim_locked(signed(CREATOR), 0), module(Error::NotCommitted));
}

#[test]
fn vesting_is_linear_between_cliff_and_end() {
    let lock = LockState { total: 1000, released: 0, cliff_end: 100, vest_end: 400 };
    let at = |now: u32| Pallet::<Runtime>::vested(&lock, now);
    assert_eq!([at(0), at(99), at(100), at(101), at(250), at(399), at(400), at(u32::MAX)], [
        0, 0, 0, 3, 500, 996, 1000, 1000
    ]);
    let huge = LockState { total: u128::MAX, released: 0, cliff_end: 0, vest_end: u32::MAX };
    assert_eq!(
        Pallet::<Runtime>::vested(&huge, 1),
        u128::MAX / (u32::MAX as u128)
    );
    let at_once = LockState { total: 5, released: 0, cliff_end: 10, vest_end: 10 };
    assert_eq!(Pallet::<Runtime>::vested(&at_once, 9), 0);
    assert_eq!(Pallet::<Runtime>::vested(&at_once, 10), 5);
}

// ---- buy and burn --------------------------------------------------------

#[test]
fn committed_fees_are_never_paid_to_a_person() {
    let (mut p, w) = setup();
    assert_eq!(create_with(&mut p, 0, burning()), Ok(None));
    assert_eq!(w.borrow().native_of(&p.commit_account(0)), ED);
    assert!(p.buy(signed(BUYER), 0, 1000, 0).is_ok());
    assert_eq!(p.claim_creator_fees(signed(CREATOR), 0), module(Error::Committed));
    assert_eq!(p.creator_fee_recipient_for(1000), Some(p.commit_account(0)));
}

#[test]
fn disbursement_claims_and_burns_on_the_curve() {
    let (mut p, w) = setup();
    assert_eq!(create_with(&mut p, 0, burning()), Ok(None));
    assert!(p.buy(signed(BUYER), 0, 2000, 0).is_ok());
    // Creator fees of 6 are below the minimum a slice spends; top them up.
    assert_eq!(p.curves[&0].creator_fees_unclaimed, 6);
    let commit = p.commit_account(0);
    w.borrow_mut().credit(&commit, 100);
    w.borrow_mut().events.clear();
    w.borrow_mut().now = 8;
    // The curve's reserve is 2980: two per cent of it, halved, is 29.
    assert_eq!(p.virtual_reserves(0), Some((2980, 1343)));
    assert_eq!(p.disburse(signed(9), 0), Ok(()));
    // The claimed fees are gone from the curve before the slice is bought.
    assert_eq!(w.borrow().curves[&0].creator_fees_unclaimed, 0);
    assert_eq!(w.borrow().curves[&0].tokens_remaining, 343);
    // 29 in: fee 1, net 28, 1343 * 28 / 3008 = 12 tokens, all burned.
    assert_eq!(w.borrow().token_of(1000, &commit), 0);
    assert_eq!(p.curves[&0].tokens_remaining, 343 - 12);
    assert_eq!(w.borrow().native_of(&commit), ED + 100 + 6 - 29);
    assert_eq!(p.last_disburse_block[&0], 8);
    // The token bought back on its own behalf is not a trade for the clock.
    assert_eq!(p.curves[&0].last_trade_block, 7);
    assert_eq!(
        w.borrow().events.last(),
        Some(&Event::Disbursed {
            launch_id: 0,
            claimed: 6,
            vtrs_burned_in: 29,
            tokens_burned: 12,
        })
    );
    // The slice's own fee left the creator's share, and nothing else is new.
    let left = p.curves[&0].creator_fees_unclaimed;
    assert_eq!(left, 1);
    assert_eq!(p.do_disburse(0), Ok((1, 0, 0, false)));
    assert_eq!(p.disburse(signed(9), 0), module(Error::TooSoon));
    w.borrow_mut().now = 13;
    assert_eq!(p.disburse(signed(9), 0), Ok(()));
    assert_eq!(p.last_disburse_block[&0], 13);
    assert_eq!(p.curves[&0].last_trade_block, 7);
}

#[test]
fn slice_is_capped_by_the_reserve() {
    let mut c = constants();
    assert_eq!(size_slice(&c, 2980, 106), 29);
    assert_eq!(size_slice(&c, 2980, 28), 28);
    assert_eq!(size_slice(&c, 0, 28), 0);
    // Two per cent of the largest reserve, halved.
    assert_eq!(size_slice(&c, u128::MAX, u128::MAX), u128::MAX / 100);
    // A cap beyond any balance caps nothing.
    c.max_burn_impact_bps = u16::MAX;
    assert_eq!(size_slice(&c, u128::MAX, u128::MAX), u128::MAX);
    assert_eq!(size_slice(&c, 1000, u128::MAX), 3276);
    c.max_burn_impact_bps = 0;
    assert_eq!(size_slice(&c, u128::MAX, 5), 0);
}

#[test]
fn a_call_moves_nothing_of_another_launch() {
    let (mut p, w) = setup();
    create(&mut p);
    assert!(create_with(&mut p, 1000, burning()).is_ok());
    let other = p.escrow_account(1);
    let (quote, tokens) =
        (w.borrow().native_of(&other), w.borrow().token_of(1001, &other));
    assert!(p.buy(signed(BUYER), 0, 1000, 0).is_ok());
    assert!(p.sell(signed(BUYER), 0, 10, 0).is_ok());
    sell_out(&mut p);
    assert_eq!(p.curves[&0].phase, Phase::Graduated);
    assert_eq!(w.borrow().native_of(&other), quote);
    assert_eq!(w.borrow().token_of(1001, &other), tokens);
}

#[test]
fn disbursement_burns_in_the_pool_after_graduation() {
    let (mut p, w) = setup();
    assert_eq!(create_with(&mut p, 0, burning()), Ok(None));
    sell_out(&mut p);
    {
        let mut w = w.borrow_mut();
        w.pool_fees = 40;
        w.swap_out = 8;
        w.reserves = Some((6000, 500));
    }
    let fees = p.curves[&0].creator_fees_unclaimed;
    assert_eq!(fees, 10);
    assert_eq!(p.do_disburse(0), Ok((50, 50, 8, true)));
    assert_eq!(w.borrow().native_of(&p.commit_account(0)), ED);
    assert_eq!(w.borrow().token_of(1000, &p.commit_account(0)), 0);
}

#[test]
fn disbursement_waits_for_a_venue_and_for_more_than_dust() {
    let (mut p, w) = setup();
    assert_eq!(p.disburse(signed(9), 0), module(Error::LaunchNotFound));
    create(&mut p);
    assert_eq!(p.disburse(signed(9), 0), module(Error::NotCommitted));
    assert_eq!(create_with(&mut p, 0, burning()), Ok(None));
    assert_eq!(p.disburse(signed(9), 1), module(Error::NothingToDo));
    let commit = p.commit_account(1);
    w.borrow_mut().credit(&commit, 9);
    assert_eq!(p.disburse(signed(9), 1), module(Error::NothingToDo));
    // A complete curve that waits for its seed has no venue.
    w.borrow_mut().seed_refused = Some(POOL_BUSY);
    assert_eq!(p.buy(signed(BUYER), 1, 50_000, 0), Ok(None));
    assert_eq!(p.do_disburse(1), Ok((10, 0, 0, true)));
    assert!(p.last_disburse_block.is_empty());
}

// ---- rescue --------------------------------------------------------------

fn stuck() -> (Pallet<Runtime>, Rc<RefCell<World>>) {
    let (mut p, w) = setup();
    create(&mut p);
    w.borrow_mut().seed_refused = Some(POOL_BUSY);
    sell_out(&mut p);
    (p, w)
}

#[test]
fn rescue_deposits_and_sweeps_the_rest() {
    let (mut p, w) = stuck();
    {
        let mut w = w.borrow_mut();
        w.now = 107;
        w.pools.push(1000);
        w.add_liquidity = Ok((900, 3000, 55));
        w.events.clear();
    }
    let treasury = w.borrow().native_of(&account(TREASURY));
    assert_eq!(p.force_seed_into_existing_pool(Origin::Root, 0, 1000), Ok(()));
    let c = p.curves[&0];
    assert_eq!((c.phase, c.real_quote, c.lp_shares), (Phase::Graduated, 0, 55));
    assert_eq!(c.graduated_at, Some(107));
    let w = w.borrow();
    assert_eq!(w.asked_minimums, Some((900, 2700)));
    assert_eq!(w.locked_until, Some(u32::MAX));
    assert_eq!(w.token_of(1000, &account(TREASURY)), 100);
    assert_eq!(w.native_of(&account(TREASURY)), treasury);
    assert_eq!(w.token_of(1000, &p.escrow_account(0)), 0);
    assert_eq!(
        w.events,
        vec![
            Event::ForceSeeded { launch_id: 0, deviation_bps: 1000, shares: 55 },
            Event::Graduated { launch_id: 0, quote_seeded: 3000, tokens_seeded: 900, shares: 55 },
        ]
    );
}

#[test]
fn rescue_sweeps_quote_too() {
    let (mut p, w) = stuck();
    {
        let mut w = w.borrow_mut();
        w.now = 107;
        w.pools.push(1000);
        w.add_liquidity = Ok((1000, 2500, 55));
    }
    let treasury = w.borrow().native_of(&account(TREASURY));
    assert_eq!(p.force_seed_into_existing_pool(Origin::Root, 0, BPS), Ok(()));
    assert_eq!(w.borrow().asked_minimums, Some((0, 0)));
    assert_eq!(w.borrow().native_of(&account(TREASURY)), treasury + 500);
    assert_eq!(w.borrow().token_of(1000, &account(TREASURY)), 0);
}

#[test]
fn rescue_is_refused_for_its_reasons() {
    let (mut p, w) = stuck();
    let rescue = |p: &mut Pallet<Runtime>, dev: u16| {
        p.force_seed_into_existing_pool(Origin::Root, 0, dev)
    };
    assert_eq!(
        p.force_seed_into_existing_pool(signed(CREATOR), 0, 100),
        Err(DispatchError::BadOrigin)
    );
    assert_eq!(rescue(&mut p, BPS + 1), module(Error::ParamsOutOfBounds));
    assert_eq!(
        p.force_seed_into_existing_pool(Origin::Root, 9, 100),
        module(Error::LaunchNotFound)
    );
    w.borrow_mut().now = 106;
    assert_eq!(rescue(&mut p, 100), module(Error::RescueNotDue));
    w.borrow_mut().now = 107;
    assert_eq!(rescue(&mut p, 100), module(Error::PoolNotFound));
    w.borrow_mut().pools.push(1000);
    w.borrow_mut().add_liquidity = Err(DispatchError::DexSlippageExceeded);
    assert_eq!(rescue(&mut p, 100), module(Error::PriceOutOfTolerance));
    w.borrow_mut().add_liquidity = Err(REFUSED);
    assert_eq!(rescue(&mut p, 100), Err(REFUSED));
    assert_eq!(p.curves[&0].phase, Phase::Complete);
    let (mut q, _w) = setup();
    create(&mut q);
    assert_eq!(rescue(&mut q, 100), module(Error::WrongPhase));
}

// ---- the curve as a venue ------------------------------------------------

#[test]
fn venue_reads_the_records() {
    let (mut p, w) = setup();
    create(&mut p);
    assert_eq!(p.launch_of_asset(1000), Some(0));
    assert_eq!(p.launch_of_asset(1), None);
    assert_eq!((p.asset_of(0), p.asset_of(1)), (Some(1000), None));
    assert_eq!((p.phase(0), p.phase(1)), (Some(Phase::Trading), None));
    assert_eq!((p.fee_bps(0), p.fee_bps(1)), (Some(100), None));
    assert_eq!(p.virtual_reserves(0), Some((1000, 4000)));
    assert_eq!(p.last_trade_block(0), Some(7));
    w.borrow_mut().now = 9;
    // A venue buy delivers like any other, and is not a trade for the clock.
    assert_eq!(p.buy_for(&account(BUYER), 0, 1000, 0), Ok(1989));
    assert_eq!(p.last_trade_block(0), Some(7));
    assert_eq!(p.buy_for(&account(BUYER), 1, 1000, 0), module(Error::LaunchNotFound));
    assert!(p.buy(signed(BUYER), 0, 100, 0).is_ok());
    assert_eq!(p.last_trade_block(0), Some(9));
    sell_out(&mut p);
    assert_eq!(p.virtual_reserves(0), None);
}

#[test]
fn no_call_withdraws() {
    assert_eq!(
        Pallet::<Runtime>::call_names(),
        vec![
            "create_launch",
            "buy",
            "sell",
            "graduate",
            "claim_creator_fees",
            "set_creator_fee_recipient",
            "set_launch_metadata",
            "disburse",
            "claim_locked",
            "set_params",
            "set_creation_paused",
            "force_seed_into_existing_pool",
        ]
    );
}

#[test]
fn default_hook_lets_every_buy_through() {
    let r: Result<(u128, u128), DispatchError> =
        <() as OnCurveBuy<AccountId, u128, u32>>::on_buy(1, 2, 3, &account(4), true, 500);
    assert_eq!(r, Ok((500, 0)));
}

/// A runtime whose hook takes a tenth for the treasury, and refuses one account.
struct Tenth {
    inner: Runtime,
}

struct TakeTenth;

impl OnCurveBuy<AccountId, u128, u32> for TakeTenth {
    fn on_buy(
        _launch_id: u64,
        launch_created_at: u32,
        now: u32,
        who: &AccountId,
        is_creator: bool,
        quote_in: u128,
    ) -> Result<(u128, u128), DispatchError> {
        assert!(launch_created_at <= now);
        assert_eq!(is_creator, *who == account(CREATOR));
        if *who == account(13) {
            return Err(REFUSED);
        }
        Ok((quote_in - quote_in / 10, quote_in / 10))
    }
}

impl Config for Tenth {
    type BuyHook = TakeTenth;

    fn block_number(&mut self) -> u32 {
        self.inner.block_number()
    }

    fn account_exists(&mut self, who: &AccountId) -> bool {
        self.inner.account_exists(who)
    }

    fn deposit_event(&mut self, event: Event) {
        self.inner.deposit_event(event)
    }

    fn ensure_manage_origin(&mut self, origin: &Origin) -> Result<(), DispatchError> {
        self.inner.ensure_manage_origin(origin)
    }

    fn currency_transfer(
        &mut self,
        from: &AccountId,
        to: &AccountId,
        amount: u128,
        keep: Preservation,
    ) -> Result<(), DispatchError> {
        self.inner.currency_transfer(from, to, amount, keep)
    }

    fn currency_reducible_balance(&mut self, who: &AccountId) -> u128 {
        self.inner.currency_reducible_balance(who)
    }

    fn currency_balance(&mut self, who: &AccountId) -> u128 {
        self.inner.currency_balance(who)
    }

    fn currency_minimum_balance(&mut self) -> u128 {
        self.inner.currency_minimum_balance()
    }

    fn asset_exists(&mut self, asset: u32) -> bool {
        self.inner.asset_exists(asset)
    }

    fn asset_create(
        &mut self,
        asset: u32,
        admin: &AccountId,
        is_sufficient: bool,
        min_balance: u128,
    ) -> Result<(), DispatchError> {
        self.inner.asset_create(asset, admin, is_sufficient, min_balance)
    }

    fn asset_set_metadata(
        &mut self,
        asset: u32,
        who: &AccountId,
        name: &Vec<u8>,
        symbol: &Vec<u8>,
        decimals: u8,
    ) -> Result<(), DispatchError> {
        self.inner.asset_set_metadata(asset, who, name, symbol, decimals)
    }

    fn asset_mint_into(
        &mut self,
        asset: u32,
        who: &AccountId,
        amount: u128,
    ) -> Result<(), DispatchError> {
        self.inner.asset_mint_into(asset, who, amount)
    }

    fn asset_transfer(
        &mut self,
        asset: u32,
        from: &AccountId,
        to: &AccountId,
        amount: u128,
        keep: Preservation,
    ) -> Result<(), DispatchError> {
        self.inner.asset_transfer(asset, from, to, amount, keep)
    }

    fn asset_balance(&mut self, asset: u32, who: &AccountId) -> u128 {
        self.inner.asset_balance(asset, who)
    }

    fn asset_burn_from(
        &mut self,
        asset: u32,
        who: &AccountId,
        amount: u128,
    ) -> Result<(), DispatchError> {
        self.inner.asset_burn_from(asset, who, amount)
    }

    fn pool_exists(&mut self, a: AssetKind, b: AssetKind) -> bool {
        self.inner.pool_exists(a, b)
    }

    fn add_liquidity_for(
        &mut self,
        who: &AccountId,
        a: AssetKind,
        b: AssetKind,
        amount_a: u128,
        amount_b: u128,
        min_a: u128,
        min_b: u128,
    ) -> Result<u128, DispatchError> {
        self.inner.add_liquidity_for(who, a, b, amount_a, amount_b, min_a, min_b)
    }

    fn lock_liquidity_for(
        &mut self,
        who: &AccountId,
        a: AssetKind,
        b: AssetKind,
        until: u32,
    ) -> Result<(), DispatchError> {
        self.inner.lock_liquidity_for(who, a, b, until)
    }

    fn seed_reserved_pool_for(
        &mut self,
        nested: bool,
        who: &AccountId,
        asset: AssetKind,
        quote: AssetKind,
        tokens: u128,
        quote_amount: u128,
        fee_tier: u32,
    ) -> Result<u128, DispatchError> {
        self.inner.seed_reserved_pool_for(nested, who, asset, quote, tokens, quote_amount, fee_tier)
    }

    fn native_reserves(&mut self, asset: AssetKind) -> Option<(u128, u128)> {
        self.inner.native_reserves(asset)
    }

    fn swap_for(
        &mut self,
        who: &AccountId,
        from: AssetKind,
        to: AssetKind,
        amount: u128,
        min_out: u128,
    ) -> Result<u128, DispatchError> {
        self.inner.swap_for(who, from, to, amount, min_out)
    }

    fn pool_creator_fees_unclaimed(&mut self, asset: AssetKind) -> u128 {
        self.inner.pool_creator_fees_unclaimed(asset)
    }

    fn claim_pool_creator_fees(
        &mut self,
        who: &AccountId,
        asset: AssetKind,
    ) -> Result<(), DispatchError> {
        self.inner.claim_pool_creator_fees(who, asset)
    }

    fn treasury_account_for(&mut self, asset: AssetKind) -> Option<AccountId> {
        self.inner.treasury_account_for(asset)
    }

    fn treasury_note_fee(&mut self, asset: AssetKind, amount: u128) {
        self.inner.treasury_note_fee(asset, amount)
    }

    fn launch_written(
        &mut self,
        launch_id: u64,
        launch: &Launch,
        curve: &CurveState,
        metadata: Option<&LaunchMetadata>,
    ) {
        self.inner.launch_written(launch_id, launch, curve, metadata)
    }

    fn curve_written(&mut self, launch_id: u64, curve: &CurveState) {
        self.inner.curve_written(launch_id, curve)
    }
}

#[test]
fn every_buy_passes_the_hook() {
    let (p, w) = setup();
    let mut p = Pallet::new(Tenth { inner: p.host.runtime().clone() }, constants());
    let r = p.create_launch(
        signed(CREATOR),
        b"Moon".to_vec(),
        b"MN".to_vec(),
        None,
        1000,
        0,
        None,
        None,
        plain(),
    );
    assert!(r.is_ok());
    // 900 reach the curve: fee 9, net 891, 4000 * 891 / 1891 = 1884 tokens.
    assert_eq!(p.curves[&0].tokens_remaining, 3000 - 1884);
    assert_eq!(w.borrow().native_of(&account(CREATOR)), 100_000 - 50 - 1000);
    let treasury = w.borrow().native_of(&account(TREASURY));
    assert_eq!(p.buy(signed(13), 0, 100, 0), Err(REFUSED));
    assert!(p.buy(signed(BUYER), 0, 100, 0).is_ok());
    // A tenth from the hook, and the protocol's part of a fee of 1, which rounds down.
    assert_eq!(w.borrow().native_of(&account(TREASURY)), treasury + 10);
}

// ---- migrations ----------------------------------------------------------

fn old_launch(asset_id: u32) -> v1::OldLaunch {
    v1::OldLaunch {
        asset_id,
        creator: account(CREATOR),
        creator_fee_recipient: account(3),
        escrow: account(4),
        created_at: 2,
        curve: v1::OldCurveParams {
            graduation_target: 3000,
            virtual_quote: 1000,
            curve_fee_bps: 100,
            protocol_share_bps: 6000,
            pool_fee_tier: 10,
        },
        params_hash: Hash256 { bytes: [8; 32] },
    }
}

fn old_curve(completed_at: Option<u32>, graduated_at: Option<u32>) -> v1::OldCurveState {
    v1::OldCurveState {
        phase: Phase::Trading,
        real_quote: 12,
        tokens_remaining: 34,
        creator_fees_unclaimed: 56,
        protocol_fees_paid: 78,
        completed_at,
        graduated_at,
        lp_shares: 9,
    }
}

fn old_records() -> v1::OldRecords {
    let mut launches = BTreeMap::new();
    let mut curves = BTreeMap::new();
    launches.insert(0, old_launch(1000));
    launches.insert(1, old_launch(1001));
    curves.insert(0, old_curve(None, None));
    curves.insert(1, old_curve(Some(3), None));
    curves.insert(2, old_curve(Some(3), Some(5)));
    v1::OldRecords {
        params: Some(v1::OldLaunchParams {
            graduation_target: 3000,
            curve_fee_bps: 100,
            protocol_share_bps: 5000,
            pool_fee_tier: 10,
            creation_fee: 50,
        }),
        launches,
        curves,
    }
}

#[test]
fn first_migration_adds_zero_treasury_terms() {
    let (mut p, _w) = setup();
    p.next_launch_id = 3;
    let old_state = old_records();
    let state = VersionUncheckedMigrateToV1::pre_upgrade(&p, 2, 3, true);
    assert_eq!(state, vec![2, 0, 0, 0, 3, 0, 0, 0, 3, 0, 0, 0, 0, 0, 0, 0, 1]);
    assert_eq!(VersionUncheckedMigrateToV1::on_runtime_upgrade(&mut p, &old_state), (6, 6));
    let live = p.params.unwrap();
    assert_eq!((live.protocol_share_bps, live.treasury_share_bps), (5000, 0));
    let l = p.launches[&1];
    assert_eq!((l.asset_id, l.creator_fee_recipient), (1001, account(3)));
    assert_eq!((l.curve.protocol_share_bps, l.curve.treasury_share_bps), (6000, 0));
    assert_eq!(l.params_hash, Hash256 { bytes: [8; 32] });
    assert!(!l.commitments.is_committed());
    let last: Vec<u32> = p.curves.values().map(|c| c.last_trade_block).collect();
    assert_eq!(last, vec![7, 3, 5]);
    let c = p.curves[&2];
    assert_eq!((c.real_quote, c.tokens_remaining, c.creator_fees_unclaimed), (12, 34, 56));
    assert_eq!((c.protocol_fees_paid, c.treasury_fees_paid, c.lp_shares), (78, 0, 9));
    assert_eq!(VersionUncheckedMigrateToV1::post_upgrade(&mut p, state, true), Ok(()));
}

#[test]
fn first_migration_leaves_absent_params_absent() {
    let (mut p, _w) = setup();
    let mut old_state = old_records();
    old_state.params = None;
    let state = VersionUncheckedMigrateToV1::pre_upgrade(&p, 2, 3, false);
    VersionUncheckedMigrateToV1::on_runtime_upgrade(&mut p, &old_state);
    assert_eq!(p.params, None);
    assert_eq!(p.live_params(), params());
    assert_eq!(VersionUncheckedMigrateToV1::post_upgrade(&mut p, state, false), Ok(()));
}

#[test]
fn last_check_of_the_first_migration_finds_each_fault() {
    let check = |break_it: &dyn Fn(&mut Pallet<Runtime>), e: v1::UpgradeError, words: &str| {
        let (mut p, _w) = setup();
        let old_state = old_records();
        let state = VersionUncheckedMigrateToV1::pre_upgrade(&p, 2, 3, true);
        VersionUncheckedMigrateToV1::on_runtime_upgrade(&mut p, &old_state);
        break_it(&mut p);
        let stored = p.params.is_some();
        assert_eq!(VersionUncheckedMigrateToV1::post_upgrade(&mut p, state, stored), Err(e));
        assert_eq!(e.message(), words);
    };
    check(
        &|p| p.launches.get_mut(&1).unwrap().curve.treasury_share_bps = 1,
        v1::UpgradeError::TreasuryShare,
        "every pre-L1 launch carries treasury_share_bps = 0",
    );
    check(
        &|p| p.curves.get_mut(&1).unwrap().treasury_fees_paid = 1,
        v1::UpgradeError::TreasuryFees,
        "no treasury fee was paid before L1",
    );
    check(
        &|p| p.curves.get_mut(&1).unwrap().last_trade_block = 8,
        v1::UpgradeError::FutureTrade,
        "last_trade_block is in the past",
    );
    check(
        &|p| {
            p.launches.remove(&0);
        },
        v1::UpgradeError::Counts,
        "every launch and curve decodes after L1",
    );
    check(&|p| p.next_launch_id = 9, v1::UpgradeError::NextId, "next id untouched");
    check(
        &|p| p.params = None,
        v1::UpgradeError::ParamsPresence,
        "params stay set or stay absent",
    );
    check(
        &|p| p.params = Some(params()),
        v1::UpgradeError::ParamsShare,
        "stored governance params carry treasury_share_bps = 0 until set_params",
    );
    check(
        &|p| {
            let mut bad = params();
            bad.treasury_share_bps = 0;
            bad.creation_fee = 0;
            p.params = Some(bad);
        },
        v1::UpgradeError::ParamsBounds,
        "governance params still valid",
    );
    let (mut p, _w) = setup();
    for state in [vec![0; 16], vec![2; 17]] {
        assert_eq!(
            VersionUncheckedMigrateToV1::post_upgrade(&mut p, state, true),
            Err(v1::UpgradeError::State)
        );
    }
    assert_eq!(v1::UpgradeError::State.message(), "pre_upgrade state");
}

#[test]
fn record_that_does_not_decode_fails_the_first_migrations_check() {
    let run = |launch_keys: usize, curve_keys: usize| {
        let (mut p, _w) = setup();
        let state = VersionUncheckedMigrateToV1::pre_upgrade(&p, launch_keys, curve_keys, true);
        VersionUncheckedMigrateToV1::on_runtime_upgrade(&mut p, &old_records());
        VersionUncheckedMigrateToV1::post_upgrade(&mut p, state, true)
    };
    assert_eq!(run(2, 3), Ok(()));
    assert_eq!(run(3, 3), Err(v1::UpgradeError::Counts));
    assert_eq!(run(2, 4), Err(v1::UpgradeError::Counts));
}

#[test]
fn params_that_do_not_decode_are_still_stored() {
    let (mut p, _w) = setup();
    let mut old_state = old_records();
    old_state.params = None;
    let state = VersionUncheckedMigrateToV1::pre_upgrade(&p, 2, 3, true);
    VersionUncheckedMigrateToV1::on_runtime_upgrade(&mut p, &old_state);
    // The default is in force, and it has a treasury share.
    assert_eq!(
        VersionUncheckedMigrateToV1::post_upgrade(&mut p, state.clone(), true),
        Err(v1::UpgradeError::ParamsShare)
    );
    p.constants.default_launch_params.treasury_share_bps = 0;
    assert_eq!(VersionUncheckedMigrateToV1::post_upgrade(&mut p, state, true), Ok(()));
}

#[test]
fn second_migration_commits_nobody() {
    let (mut p, _w) = setup();
    create(&mut p);
    let l = p.launches[&0];
    let mut old_launches = BTreeMap::new();
    old_launches.insert(
        0,
        v2::OldLaunch {
            asset_id: l.asset_id,
            creator: l.creator,
            creator_fee_recipient: l.creator_fee_recipient,
            escrow: l.escrow,
            created_at: l.created_at,
            curve: l.curve,
            params_hash: l.params_hash,
        },
    );
    let state = VersionUncheckedMigrateToV2::pre_upgrade(1);
    assert_eq!(state, vec![1, 0, 0, 0, 0, 0, 0, 0]);
    p.launches.clear();
    assert_eq!(VersionUncheckedMigrateToV2::on_runtime_upgrade(&mut p, &old_launches), (1, 1));
    assert_eq!(p.launches[&0], l);
    assert_eq!(VersionUncheckedMigrateToV2::post_upgrade(&p, state.clone(), false), Ok(()));
    // A second key, under which nothing could be read.
    let more = VersionUncheckedMigrateToV2::pre_upgrade(2);
    assert_eq!(
        VersionUncheckedMigrateToV2::post_upgrade(&p, more, false),
        Err(v2::UpgradeError::Counts)
    );
    assert_eq!(
        VersionUncheckedMigrateToV2::post_upgrade(&p, vec![0; 7], false),
        Err(v2::UpgradeError::State)
    );
    assert_eq!(
        VersionUncheckedMigrateToV2::post_upgrade(&p, vec![2, 0, 0, 0, 0, 0, 0, 0], false),
        Err(v2::UpgradeError::Counts)
    );
    assert_eq!(
        VersionUncheckedMigrateToV2::post_upgrade(&p, state.clone(), true),
        Err(v2::UpgradeError::Locks)
    );
    p.launches.get_mut(&0).unwrap().commitments = burning();
    assert_eq!(
        VersionUncheckedMigrateToV2::post_upgrade(&p, state, true),
        Err(v2::UpgradeError::Committed)
    );
    assert_eq!(v2::UpgradeError::State.message(), "decode");
    assert_eq!(v2::UpgradeError::Committed.message(), "no launch is committed by migration");
    assert_eq!(v2::UpgradeError::Counts.message(), "every launch decodes after L3");
    assert_eq!(v2::UpgradeError::Locks.message(), "no locks");
}
