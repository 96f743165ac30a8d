//! The runtime that the launchpad runs in: its constants, the calls it
//! answers, and the record of every call made to it.
use crate::BPS;
use crate::event::Event;
use crate::records::{CurveState, Launch, LaunchMetadata, LaunchParams};
use crate::types::{
    AccountId, AssetId, AssetKind, Balance, BlockNumber, DispatchError, Error, LaunchId, Origin,
    Preservation,
};
use std::marker::PhantomData;
use vstd::prelude::*;

verus! {

/// What a runtime fixes when it is built.
#[derive(Clone, Copy, PartialEq, Eq, Debug)]
pub struct Constants {
    /// Receives protocol fees and rescue leftovers.
    pub treasury: AccountId,
    /// Derives a launch's escrow account.
    pub pallet_id: [u8; 8],
    /// Derives a launch's commitment account (creator fees to burn).
    pub commit_pallet_id: [u8; 8],
    /// Derives a launch's lock account (the locked tranche).
    pub lock_pallet_id: [u8; 8],
    /// Total supply of every launch token, base units.
    pub total_supply: Balance,
    /// What of it the curve sells.
    pub sellable: Balance,
    /// Virtual token reserve remaining at sell-out.
    pub virtual_token_floor: Balance,
    /// First asset id of the reserved range.
    pub launch_asset_base: AssetId,
    pub min_graduation_target: Balance,
    pub max_graduation_target: Balance,
    pub max_curve_fee_bps: u16,
    pub min_protocol_share_bps: u16,
    pub min_creation_fee: Balance,
    /// Blocks a launch must sit in `Complete` before governance may
    /// `force_seed_into_existing_pool`.
    pub rescue_delay: BlockNumber,
    /// Name / symbol length cap.
    pub string_limit: u32,
    /// Byte cap on each URI field of a launch's metadata.
    pub uri_limit: u32,
    /// Byte cap on the description of a launch's metadata.
    pub description_limit: u32,
    /// Parameters until governance sets some.
    pub default_launch_params: LaunchParams<Balance>,
    /// `cliff + vest` of a lock may not exceed this.
    pub max_lock_blocks: BlockNumber,
    /// A `disburse` slice may move the venue price by at most this.
    pub max_burn_impact_bps: u16,
    /// Blocks between two `disburse` slices of one launch.
    pub min_burn_interval: BlockNumber,
    /// Pool shares that the DEX burns with a first deposit.
    pub minimum_liquidity: Balance,
    /// Lowest fee tier at which the DEX routes a launch pool's fees.
    pub min_launch_fee_tier: u32,
}

/// The protocol's and the treasury's shares leave nothing negative for the creator.
pub open spec fn shares_fit(protocol_share_bps: u16, treasury_share_bps: u16) -> bool {
    protocol_share_bps + treasury_share_bps <= BPS
}

impl Constants {
    /// Constants under which no fee split gives away more than the fee.
    pub open spec fn wf(&self) -> bool {
        shares_fit(
            self.default_launch_params.protocol_share_bps,
            self.default_launch_params.treasury_share_bps,
        )
    }
}

/// Anti-snipe hook. Every buy (the `buy` call, the initial buy inside
/// `create_launch`, a burn slice, a venue buy) reaches it.
pub trait OnCurveBuy<AccountId, Balance, BlockNumber> {
    /// Returns `(amount that reaches the curve, extra amount routed to the treasury)`.
    /// Block numbers only, never timestamps.
    fn on_buy(
        launch_id: LaunchId,
        launch_created_at: BlockNumber,
        now: BlockNumber,
        who: &AccountId,
        is_creator: bool,
        quote_in: Balance,
    ) -> Result<(Balance, Balance), DispatchError>;
}

impl<A, N> OnCurveBuy<A, u128, N> for () {
    fn on_buy(
        _launch_id: LaunchId,
        _launch_created_at: N,
        _now: N,
        _who: &A,
        _is_creator: bool,
        quote_in: u128,
    ) -> (r: Result<(u128, u128), DispatchError>)
        ensures
            r == Ok::<(u128, u128), DispatchError>((quote_in, 0)),
    {
        Ok((quote_in, 0))
    }
}

/// What the launchpad asks of the runtime around it: the system pallet, the
/// quote currency, the asset pallet, the DEX and the launch treasury. A
/// runtime implements this; nothing is assumed of its answers.
pub trait Config {
    /// Anti-snipe hook; `()` lets every buy through.
    type BuyHook: OnCurveBuy<AccountId, Balance, BlockNumber>;

    fn block_number(&mut self) -> BlockNumber;

    fn account_exists(&mut self, who: &AccountId) -> bool;

    fn deposit_event(&mut self, event: Event);

    /// The governance origin of `set_params`, `set_creation_paused` and the rescue.
    fn ensure_manage_origin(&mut self, origin: &Origin) -> Result<(), DispatchError>;

    fn currency_transfer(
        &mut self,
        from: &AccountId,
        to: &AccountId,
        amount: Balance,
        keep: Preservation,
    ) -> Result<(), DispatchError>;

    /// What `who` can spend while staying alive.
    fn currency_reducible_balance(&mut self, who: &AccountId) -> Balance;

    fn currency_balance(&mut self, who: &AccountId) -> Balance;

    /// The existential deposit.
    fn currency_minimum_balance(&mut self) -> Balance;

    fn asset_exists(&mut self, asset: AssetId) -> bool;

    fn asset_create(
        &mut self,
        asset: AssetId,
        admin: &AccountId,
        is_sufficient: bool,
        min_balance: Balance,
    ) -> Result<(), DispatchError>;

    fn asset_set_metadata(
        &mut self,
        asset: AssetId,
        who: &AccountId,
        name: &Vec<u8>,
        symbol: &Vec<u8>,
        decimals: u8,
    ) -> Result<(), DispatchError>;

    fn asset_mint_into(
        &mut self,
        asset: AssetId,
        who: &AccountId,
        amount: Balance,
    ) -> Result<(), DispatchError>;

    fn asset_transfer(
        &mut self,
        asset: AssetId,
        from: &AccountId,
        to: &AccountId,
        amount: Balance,
        keep: Preservation,
    ) -> Result<(), DispatchError>;

    fn asset_balance(&mut self, asset: AssetId, who: &AccountId) -> Balance;

    /// Burn exactly `amount`, by force, down to an empty account.
    fn asset_burn_from(
        &mut self,
        asset: AssetId,
        who: &AccountId,
        amount: Balance,
    ) -> Result<(), DispatchError>;

    fn pool_exists(&mut self, a: AssetKind, b: AssetKind) -> bool;

    fn add_liquidity_for(
        &mut self,
        who: &AccountId,
        a: AssetKind,
        b: AssetKind,
        amount_a: Balance,
        amount_b: Balance,
        min_a: Balance,
        min_b: Balance,
    ) -> Result<Balance, DispatchError>;

    fn lock_liquidity_for(
        &mut self,
        who: &AccountId,
        a: AssetKind,
        b: AssetKind,
        until: BlockNumber,
    ) -> Result<(), DispatchError>;

    /// Create, seed and lock a launch's pool. Where `nested` is set, a refusal
    /// must leave nothing behind: the call stands in a storage layer of its own.
    fn seed_reserved_pool_for(
        &mut self,
        nested: bool,
        who: &AccountId,
        asset: AssetKind,
        quote: AssetKind,
        tokens: Balance,
        quote_amount: Balance,
        fee_tier: u32,
    ) -> Result<Balance, DispatchError>;

    /// The `(quote, token)` reserves of an asset's pool.
    fn native_reserves(&mut self, asset: AssetKind) -> Option<(Balance, Balance)>;

    fn swap_for(
        &mut self,
        who: &AccountId,
        from: AssetKind,
        to: AssetKind,
        amount: Balance,
        min_out: Balance,
    ) -> Result<Balance, DispatchError>;

    /// Creator fees of an asset's pool that nobody has claimed yet.
    fn pool_creator_fees_unclaimed(&mut self, asset: AssetKind) -> Balance;

    fn claim_pool_creator_fees(
        &mut self,
        who: &AccountId,
        asset: AssetKind,
    ) -> Result<(), DispatchError>;

    /// The launch treasury's account for an asset, if it has one.
    fn treasury_account_for(&mut self, asset: AssetKind) -> Option<AccountId>;

    fn treasury_note_fee(&mut self, asset: AssetKind, amount: Balance);

    /// A new launch's records are written, and its first buy follows. For a
    /// runtime whose hook or DEX looks the launch up while that buy runs. Where
    /// the call is refused in the end, the records are as they were before it,
    /// and the runtime drops these with its other writes.
    fn launch_written(
        &mut self,
        launch_id: LaunchId,
        launch: &Launch,
        curve: &CurveState,
        metadata: Option<&LaunchMetadata>,
    );

    /// A launch's curve is written, and calls that may look it up follow. Dropped
    /// with a call that is refused, in the same way.
    fn curve_written(&mut self, launch_id: LaunchId, curve: &CurveState);
}

/// One call made to the runtime, with what came back.
pub enum Call {
    BlockNumber { reply: BlockNumber },
    AccountExists { who: AccountId, reply: bool },
    DepositEvent { event: Event },
    EnsureManageOrigin { origin: Origin, reply: Result<(), DispatchError> },
    OnBuy {
        launch_id: LaunchId,
        created_at: BlockNumber,
        now: BlockNumber,
        who: AccountId,
        is_creator: bool,
        quote_in: Balance,
        reply: Result<(Balance, Balance), DispatchError>,
    },
    Transfer {
        from: AccountId,
        to: AccountId,
        amount: Balance,
        keep: Preservation,
        reply: Result<(), DispatchError>,
    },
    ReducibleBalance { who: AccountId, reply: Balance },
    CurrencyBalance { who: AccountId, reply: Balance },
    MinimumBalance { reply: Balance },
    AssetExists { asset: AssetId, reply: bool },
    AssetCreate {
        asset: AssetId,
        admin: AccountId,
        is_sufficient: bool,
        min_balance: Balance,
        reply: Result<(), DispatchError>,
    },
    AssetSetMetadata {
        asset: AssetId,
        who: AccountId,
        name: Seq<u8>,
        symbol: Seq<u8>,
        decimals: u8,
        reply: Result<(), DispatchError>,
    },
    AssetMint {
        asset: AssetId,
        who: AccountId,
        amount: Balance,
        reply: Result<(), DispatchError>,
    },
    AssetTransfer {
        asset: AssetId,
        from: AccountId,
        to: AccountId,
        amount: Balance,
        keep: Preservation,
        reply: Result<(), DispatchError>,
    },
    AssetBalance { asset: AssetId, who: AccountId, reply: Balance },
    AssetBurn {
        asset: AssetId,
        who: AccountId,
        amount: Balance,
        reply: Result<(), DispatchError>,
    },
    PoolExists { a: AssetKind, b: AssetKind, reply: bool },
    AddLiquidity {
        who: AccountId,
        a: AssetKind,
        b: AssetKind,
        amount_a: Balance,
        amount_b: Balance,
        min_a: Balance,
        min_b: Balance,
        reply: Result<Balance, DispatchError>,
    },
    LockLiquidity {
        who: AccountId,
        a: AssetKind,
        b: AssetKind,
        until: BlockNumber,
        reply: Result<(), DispatchError>,
    },
    SeedPool {
        nested: bool,
        who: AccountId,
        asset: AssetKind,
        quote: AssetKind,
        tokens: Balance,
        quote_amount: Balance,
        fee_tier: u32,
        reply: Result<Balance, DispatchError>,
    },
    NativeReserves { asset: AssetKind, reply: Option<(Balance, Balance)> },
    Swap {
        who: AccountId,
        from: AssetKind,
        to: AssetKind,
        amount: Balance,
        min_out: Balance,
        reply: Result<Balance, DispatchError>,
    },
    PoolCreatorFees { asset: AssetKind, reply: Balance },
    ClaimPoolCreatorFees {
        who: AccountId,
        asset: AssetKind,
        reply: Result<(), DispatchError>,
    },
    TreasuryAccountFor { asset: AssetKind, reply: Option<AccountId> },
    TreasuryNoteFee { asset: AssetKind, amount: Balance },
    LaunchWritten {
        launch_id: LaunchId,
        launch: Launch,
        curve: CurveState,
        metadata: Option<LaunchMetadata>,
    },
    CurveWritten { launch_id: LaunchId, curve: CurveState },
}

/// The error of a refused reply.
pub open spec fn refused<V>(reply: Result<V, DispatchError>) -> Option<DispatchError> {
    match reply {
        Ok(_) => None,
        Err(e) => Some(e),
    }
}

impl Call {
    /// The error with which the runtime refused this call, where that ends the
    /// dispatch. A refused nested seed ends only its own storage layer.
    pub open spec fn refusal(self) -> Option<DispatchError> {
        match self {
            Call::EnsureManageOrigin { reply, .. } => refused(reply),
            Call::OnBuy { reply, .. } => refused(reply),
            Call::Transfer { reply, .. } => refused(reply),
            Call::AssetCreate { reply, .. } => refused(reply),
            Call::AssetSetMetadata { reply, .. } => refused(reply),
            Call::AssetMint { reply, .. } => refused(reply),
            Call::AssetTransfer { reply, .. } => refused(reply),
            Call::AssetBurn { reply, .. } => refused(reply),
            Call::AddLiquidity { reply, .. } => match reply {
                Err(DispatchError::DexSlippageExceeded) => Some(
                    DispatchError::Module(Error::PriceOutOfTolerance),
                ),
                _ => refused(reply),
            },
            Call::LockLiquidity { reply, .. } => refused(reply),
            Call::SeedPool { nested, reply, .. } => if nested {
                None
            } else {
                refused(reply)
            },
            Call::Swap { reply, .. } => refused(reply),
            Call::ClaimPoolCreatorFees { reply, .. } => refused(reply),
            _ => None,
        }
    }
}

/// How far a dispatch has come: the calls made so far, and the error that
/// ended it, if one did. Once an error stands, nothing is called any more.
pub struct Run {
    pub log: Seq<Call>,
    pub error: Option<DispatchError>,
}

impl Run {
    /// A dispatch that starts with `log` already made.
    pub open spec fn from(log: Seq<Call>) -> Run {
        Run { log, error: None }
    }

    /// Make a call.
    pub open spec fn call(self, c: Call) -> Run {
        if self.error is Some {
            self
        } else {
            Run { log: self.log.push(c), error: c.refusal() }
        }
    }

    /// Make a call where it is due.
    pub open spec fn call_if(self, due: bool, c: Call) -> Run {
        if due {
            self.call(c)
        } else {
            self
        }
    }

    /// Report an event.
    pub open spec fn event(self, event: Event) -> Run {
        self.call(Call::DepositEvent { event })
    }

    /// Go on only if a condition holds.
    pub open spec fn ensure(self, condition: bool, e: Error) -> Run {
        if self.error is None && !condition {
            Run { log: self.log, error: Some(DispatchError::Module(e)) }
        } else {
            self
        }
    }

    /// Stop with an error, if there is one.
    pub open spec fn stop(self, e: Option<DispatchError>) -> Run {
        if self.error is None {
            Run { log: self.log, error: e }
        } else {
            self
        }
    }

    /// Nothing has ended this dispatch.
    pub open spec fn ok(self) -> bool {
        self.error is None
    }

    /// What a dispatch that would return `v` returns.
    pub open spec fn result<V>(self, v: V) -> Result<V, DispatchError> {
        match self.error {
            None => Ok(v),
            Some(e) => Err(e),
        }
    }
}

/// Metadata as it is handed over.
pub open spec fn lent<'a>(metadata: Option<LaunchMetadata>) -> Option<&'a LaunchMetadata> {
    match metadata {
        Some(m) => Some(&m),
        None => None,
    }
}

/// The runtime in this state, or its hook, was asked this call: the arguments on
/// record went in and the reply on record came back.
pub open spec fn asked_in<T: Config>(state: T, call: Call) -> bool {
    match call {
        Call::BlockNumber { reply } => exists|m: &mut T|
            #![auto]
            {
                &&& *m == state
                &&& call_ensures(T::block_number, (m,), reply)
            },
        Call::AccountExists { who, reply } => exists|m: &mut T|
            #![auto]
            {
                &&& *m == state
                &&& call_ensures(T::account_exists, (m, &who), reply)
            },
        Call::EnsureManageOrigin { origin, reply } => exists|m: &mut T|
            #![auto]
            {
                &&& *m == state
                &&& call_ensures(T::ensure_manage_origin, (m, &origin), reply)
            },
        Call::Transfer { from, to, amount, keep, reply } => exists|m: &mut T|
            #![auto]
            {
                &&& *m == state
                &&& call_ensures(T::currency_transfer, (m, &from, &to, amount, keep), reply)
            },
        Call::ReducibleBalance { who, reply } => exists|m: &mut T|
            #![auto]
            {
                &&& *m == state
                &&& call_ensures(T::currency_reducible_balance, (m, &who), reply)
            },
        Call::CurrencyBalance { who, reply } => exists|m: &mut T|
            #![auto]
            {
                &&& *m == state
                &&& call_ensures(T::currency_balance, (m, &who), reply)
            },
        Call::MinimumBalance { reply } => exists|m: &mut T|
            #![auto]
            {
                &&& *m == state
                &&& call_ensures(T::currency_minimum_balance, (m,), reply)
            },
        Call::AssetExists { asset, reply } => exists|m: &mut T|
            #![auto]
            {
                &&& *m == state
                &&& call_ensures(T::asset_exists, (m, asset), reply)
            },
        Call::AssetCreate { asset, admin, is_sufficient, min_balance, reply } => exists|m: &mut T|
            #![auto]
            {
                &&& *m == state
                &&& call_ensures(
                    T::asset_create,
                    (m, asset, &admin, is_sufficient, min_balance),
                    reply,
                )
            },
        Call::AssetSetMetadata { asset, who, name, symbol, decimals, reply } => exists|
            n: Vec<u8>,
            s: Vec<u8>,
        |
            #![trigger n@, s@]
            {
                &&& n@ == name
                &&& s@ == symbol
                &&& exists|m: &mut T|
                    #![auto]
                    {
                        &&& *m == state
                        &&& call_ensures(
                            T::asset_set_metadata,
                            (m, asset, &who, &n, &s, decimals),
                            reply,
                        )
                    }
            },
        Call::AssetMint { asset, who, amount, reply } => exists|m: &mut T|
            #![auto]
            {
                &&& *m == state
                &&& call_ensures(T::asset_mint_into, (m, asset, &who, amount), reply)
            },
        Call::AssetTransfer { asset, from, to, amount, keep, reply } => exists|m: &mut T|
            #![auto]
            {
                &&& *m == state
                &&& call_ensures(T::asset_transfer, (m, asset, &from, &to, amount, keep), reply)
            },
        Call::AssetBalance { asset, who, reply } => exists|m: &mut T|
            #![auto]
            {
                &&& *m == state
                &&& call_ensures(T::asset_balance, (m, asset, &who), reply)
            },
        Call::AssetBurn { asset, who, amount, reply } => exists|m: &mut T|
            #![auto]
            {
                &&& *m == state
                &&& call_ensures(T::asset_burn_from, (m, asset, &who, amount), reply)
            },
        Call::PoolExists { a, b, reply } => exists|m: &mut T|
            #![auto]
            {
                &&& *m == state
                &&& call_ensures(T::pool_exists, (m, a, b), reply)
            },
        Call::AddLiquidity {
            who,
            a,
            b,
            amount_a,
            amount_b,
            min_a,
            min_b,
            reply,
        } => exists|m: &mut T|
            #![auto]
            {
                &&& *m == state
                &&& call_ensures(
                    T::add_liquidity_for,
                    (m, &who, a, b, amount_a, amount_b, min_a, min_b),
                    reply,
                )
            },
        Call::LockLiquidity { who, a, b, until, reply } => exists|m: &mut T|
            #![auto]
            {
                &&& *m == state
                &&& call_ensures(T::lock_liquidity_for, (m, &who, a, b, until), reply)
            },
        Call::SeedPool {
            nested,
            who,
            asset,
            quote,
            tokens,
            quote_amount,
            fee_tier,
            reply,
        } => exists|m: &mut T|
            #![auto]
            {
                &&& *m == state
                &&& call_ensures(
                    T::seed_reserved_pool_for,
                    (m, nested, &who, asset, quote, tokens, quote_amount, fee_tier),
                    reply,
                )
            },
        Call::NativeReserves { asset, reply } => exists|m: &mut T|
            #![auto]
            {
                &&& *m == state
                &&& call_ensures(T::native_reserves, (m, asset), reply)
            },
        Call::Swap { who, from, to, amount, min_out, reply } => exists|m: &mut T|
            #![auto]
            {
                &&& *m == state
                &&& call_ensures(T::swap_for, (m, &who, from, to, amount, min_out), reply)
            },
        Call::PoolCreatorFees { asset, reply } => exists|m: &mut T|
            #![auto]
            {
                &&& *m == state
                &&& call_ensures(T::pool_creator_fees_unclaimed, (m, asset), reply)
            },
        Call::ClaimPoolCreatorFees { who, asset, reply } => exists|m: &mut T|
            #![auto]
            {
                &&& *m == state
                &&& call_ensures(T::claim_pool_creator_fees, (m, &who, asset), reply)
            },
        Call::TreasuryAccountFor { asset, reply } => exists|m: &mut T|
            #![auto]
            {
                &&& *m == state
                &&& call_ensures(T::treasury_account_for, (m, asset), reply)
            },
        Call::OnBuy {
            launch_id,
            created_at,
            now,
            who,
            is_creator,
            quote_in,
            reply,
        } => call_ensures(
            T::BuyHook::on_buy,
            (launch_id, created_at, now, &who, is_creator, quote_in),
            reply,
        ),
        Call::TreasuryNoteFee { asset, amount } => exists|m: &mut T|
            #![auto]
            {
                &&& *m == state
                &&& call_ensures(T::treasury_note_fee, (m, asset, amount), ())
            },
        Call::LaunchWritten { launch_id, launch, curve, metadata } => exists|m: &mut T|
            #![auto]
            {
                &&& *m == state
                &&& call_ensures(
                    T::launch_written,
                    (m, launch_id, &launch, &curve, lent(metadata)),
                    (),
                )
            },
        Call::CurveWritten { launch_id, curve } => exists|m: &mut T|
            #![auto]
            {
                &&& *m == state
                &&& call_ensures(T::curve_written, (m, launch_id, &curve), ())
            },
        Call::DepositEvent { event } => exists|m: &mut T|
            #![auto]
            {
                &&& *m == state
                &&& call_ensures(T::deposit_event, (m, event), ())
            },
    }
}

/// The runtime was asked this call in some state.
pub open spec fn asked<T: Config>(call: Call) -> bool {
    exists|state: T| asked_in::<T>(state, call)
}

/// Every call on record was asked, and had the reply on record.
pub open spec fn faithful<T: Config>(log: Seq<Call>) -> bool {
    forall|i: int| 0 <= i < log.len() ==> asked::<T>(#[trigger] log[i])
}

/// The record of what a runtime was asked and answered.
pub struct Record<T: Config> {
    log: Ghost<Seq<Call>>,
    of: PhantomData<T>,
}

impl<T: Config> Record<T> {
    /// Nothing is on record that was not asked.
    #[verifier::type_invariant]
    pub open spec fn holds(self) -> bool {
        faithful::<T>(self.log())
    }

    /// Every call on record, in order.
    pub closed spec fn log(&self) -> Seq<Call> {
        self.log@
    }

    fn new() -> (r: Self)
        ensures
            r.log() == Seq::<Call>::empty(),
    {
        Record { log: Ghost(Seq::empty()), of: PhantomData }
    }

    /// Put a call that was made on record.
    fn note(&mut self, Ghost(state): Ghost<T>, Ghost(call): Ghost<Call>)
        requires
            asked_in::<T>(state, call),
        ensures
            final(self).log() == old(self).log().push(call),
    {
        proof {
            use_type_invariant(&*self);
        }
        assert(asked::<T>(call));
        self.log = Ghost(self.log@.push(call));
    }
}

/// The runtime, and the record of what it was asked and answered. The runtime is
/// private to this type, so each call of it goes through here and is on record.
/// The buy hook is a function of a type and could be called from anywhere; that
/// [`Host::on_buy`] alone does so rests on how the library is written. Each
/// method below makes one call of the runtime that is held, or of its hook, hands
/// it its own arguments, returns what came back, and notes both.
pub struct Host<T: Config> {
    runtime: T,
    record: Record<T>,
}

impl<T: Config> Host<T> {
    /// Every call made so far, in order.
    pub closed spec fn log(&self) -> Seq<Call> {
        self.record.log()
    }

    /// The runtime that answers, in its present state.
    pub closed spec fn held(&self) -> T {
        self.runtime
    }

    pub fn new(runtime: T) -> (r: Self)
        ensures
            r.log() == Seq::<Call>::empty(),
            r.held() == runtime,
    {
        Host { runtime, record: Record::new() }
    }

    /// Vouch for the record. Has no effect: that nothing is on it but what was
    /// asked holds at all times.
    pub fn attest(&self)
        ensures
            faithful::<T>(self.log()),
    {
        proof {
            use_type_invariant(&self.record);
        }
    }

    /// The runtime itself, to look at.
    pub fn runtime(&self) -> (r: &T)
        ensures
            *r == self.held(),
    {
        &self.runtime
    }

    pub fn block_number(&mut self) -> (reply: BlockNumber)
        ensures
            final(self).log() == old(self).log().push(Call::BlockNumber { reply }),
            exists|m: &mut T|
                #![auto]
                {
                    &&& *m == old(self).held()
                    &&& *final(m) == final(self).held()
                    &&& call_ensures(T::block_number, (m,), reply)
                },
    {
        let reply: BlockNumber = self.runtime.block_number();
        self.record.note(Ghost(old(self).held()), Ghost(Call::BlockNumber { reply }));
        reply
    }

    pub fn account_exists(&mut self, who: &AccountId) -> (reply: bool)
        ensures
            final(self).log() == old(self).log().push(Call::AccountExists { who: *who, reply }),
            exists|m: &mut T|
                #![auto]
                {
                    &&& *m == old(self).held()
                    &&& *final(m) == final(self).held()
                    &&& call_ensures(T::account_exists, (m, who), reply)
                },
    {
        let reply = self.runtime.account_exists(who);
        self.record.note(Ghost(old(self).held()), Ghost(Call::AccountExists { who: *who, reply }));
        reply
    }

    pub fn ensure_manage_origin(&mut self, origin: &Origin) -> (reply: Result<(), DispatchError>)
        ensures
            final(self).log() == old(self).log().push(
                Call::EnsureManageOrigin { origin: *origin, reply },
            ),
            exists|m: &mut T|
                #![auto]
                {
                    &&& *m == old(self).held()
                    &&& *final(m) == final(self).held()
                    &&& call_ensures(T::ensure_manage_origin, (m, origin), reply)
                },
    {
        let reply = self.runtime.ensure_manage_origin(origin);
        self.record.note(
            Ghost(old(self).held()),
            Ghost(Call::EnsureManageOrigin { origin: *origin, reply }),
        );
        reply
    }

    pub fn currency_transfer(
        &mut self,
        from: &AccountId,
        to: &AccountId,
        amount: Balance,
        keep: Preservation,
    ) -> (reply: Result<(), DispatchError>)
        ensures
            final(self).log() == old(self).log().push(
                Call::Transfer { from: *from, to: *to, amount, keep, reply },
            ),
            exists|m: &mut T|
                #![auto]
                {
                    &&& *m == old(self).held()
                    &&& *final(m) == final(self).held()
                    &&& call_ensures(T::currency_transfer, (m, from, to, amount, keep), reply)
                },
    {
        let reply = self.runtime.currency_transfer(from, to, amount, keep);
        self.record.note(
            Ghost(old(self).held()),
            Ghost(Call::Transfer { from: *from, to: *to, amount, keep, reply }),
        );
        reply
    }

    pub fn currency_reducible_balance(&mut self, who: &AccountId) -> (reply: Balance)
        ensures
            final(self).log() == old(self).log().push(Call::ReducibleBalance { who: *who, reply }),
            exists|m: &mut T|
                #![auto]
                {
                    &&& *m == old(self).held()
                    &&& *final(m) == final(self).held()
                    &&& call_ensures(T::currency_reducible_balance, (m, who), reply)
                },
    {
        let reply: Balance = self.runtime.currency_reducible_balance(who);
        self.record.note(
            Ghost(old(self).held()),
            Ghost(Call::ReducibleBalance { who: *who, reply }),
        );
        reply
    }

    pub fn currency_balance(&mut self, who: &AccountId) -> (reply: Balance)
        ensures
            final(self).log() == old(self).log().push(Call::CurrencyBalance { who: *who, reply }),
            exists|m: &mut T|
                #![auto]
                {
                    &&& *m == old(self).held()
                    &&& *final(m) == final(self).held()
                    &&& call_ensures(T::currency_balance, (m, who), reply)
                },
    {
        let reply: Balance = self.runtime.currency_balance(who);
        self.record.note(
            Ghost(old(self).held()),
            Ghost(Call::CurrencyBalance { who: *who, reply }),
        );
        reply
    }

    pub fn currency_minimum_balance(&mut self) -> (reply: Balance)
        ensures
            final(self).log() == old(self).log().push(Call::MinimumBalance { reply }),
            exists|m: &mut T|
                #![auto]
                {
                    &&& *m == old(self).held()
                    &&& *final(m) == final(self).held()
                    &&& call_ensures(T::currency_minimum_balance, (m,), reply)
                },
    {
        let reply: Balance = self.runtime.currency_minimum_balance();
        self.record.note(Ghost(old(self).held()), Ghost(Call::MinimumBalance { reply }));
        reply
    }

    pub fn asset_exists(&mut self, asset: AssetId) -> (reply: bool)
        ensures
            final(self).log() == old(self).log().push(Call::AssetExists { asset, reply }),
            exists|m: &mut T|
                #![auto]
                {
                    &&& *m == old(self).held()
                    &&& *final(m) == final(self).held()
                    &&& call_ensures(T::asset_exists, (m, asset), reply)
                },
    {
        let reply = self.runtime.asset_exists(asset);
        self.record.note(Ghost(old(self).held()), Ghost(Call::AssetExists { asset, reply }));
        reply
    }

    pub fn asset_create(
        &mut self,
        asset: AssetId,
        admin: &AccountId,
        is_sufficient: bool,
        min_balance: Balance,
    ) -> (reply: Result<(), DispatchError>)
        ensures
            final(self).log() == old(self).log().push(
                Call::AssetCreate { asset, admin: *admin, is_sufficient, min_balance, reply },
            ),
            exists|m: &mut T|
                #![auto]
                {
                    &&& *m == old(self).held()
                    &&& *final(m) == final(self).held()
                    &&& call_ensures(
                        T::asset_create,
                        (m, asset, admin, is_sufficient, min_balance),
                        reply,
                    )
                },
    {
        let reply = self.runtime.asset_create(asset, admin, is_sufficient, min_balance);
        self.record.note(
            Ghost(old(self).held()),
            Ghost(Call::AssetCreate { asset, admin: *admin, is_sufficient, min_balance, reply }),
        );
        reply
    }

    pub fn asset_set_metadata(
        &mut self,
        asset: AssetId,
        who: &AccountId,
        name: &Vec<u8>,
        symbol: &Vec<u8>,
        decimals: u8,
    ) -> (reply: Result<(), DispatchError>)
        ensures
            final(self).log() == old(self).log().push(
                Call::AssetSetMetadata {
                    asset,
                    who: *who,
                    name: name@,
                    symbol: symbol@,
                    decimals,
                    reply,
                },
            ),
            exists|m: &mut T|
                #![auto]
                {
                    &&& *m == old(self).held()
                    &&& *final(m) == final(self).held()
                    &&& call_ensures(
                        T::asset_set_metadata,
                        (m, asset, who, name, symbol, decimals),
                        reply,
                    )
                },
    {
        let reply = self.runtime.asset_set_metadata(asset, who, name, symbol, decimals);
        self.record.note(
            Ghost(old(self).held()),
            Ghost(
                Call::AssetSetMetadata {
                    asset,
                    who: *who,
                    name: name@,
                    symbol: symbol@,
                    decimals,
                    reply,
                },
            ),
        );
        reply
    }

    pub fn asset_mint_into(
        &mut self,
        asset: AssetId,
        who: &AccountId,
        amount: Balance,
    ) -> (reply: Result<(), DispatchError>)
        ensures
            final(self).log() == old(self).log().push(
                Call::AssetMint { asset, who: *who, amount, reply },
            ),
            exists|m: &mut T|
                #![auto]
                {
                    &&& *m == old(self).held()
                    &&& *final(m) == final(self).held()
                    &&& call_ensures(T::asset_mint_into, (m, asset, who, amount), reply)
                },
    {
        let reply = self.runtime.asset_mint_into(asset, who, amount);
        self.record.note(
            Ghost(old(self).held()),
            Ghost(Call::AssetMint { asset, who: *who, amount, reply }),
        );
        reply
    }

    pub fn asset_transfer(
        &mut self,
        asset: AssetId,
        from: &AccountId,
        to: &AccountId,
        amount: Balance,
        keep: Preservation,
    ) -> (reply: Result<(), DispatchError>)
        ensures
            final(self).log() == old(self).log().push(
                Call::AssetTransfer { asset, from: *from, to: *to, amount, keep, reply },
            ),
            exists|m: &mut T|
                #![auto]
                {
                    &&& *m == old(self).held()
                    &&& *final(m) == final(self).held()
                    &&& call_ensures(T::asset_transfer, (m, asset, from, to, amount, keep), reply)
                },
    {
        let reply = self.runtime.asset_transfer(asset, from, to, amount, keep);
        self.record.note(
            Ghost(old(self).held()),
            Ghost(Call::AssetTransfer { asset, from: *from, to: *to, amount, keep, reply }),
        );
        reply
    }

    pub fn asset_balance(&mut self, asset: AssetId, who: &AccountId) -> (reply: Balance)
        ensures
            final(self).log() == old(self).log().push(
                Call::AssetBalance { asset, who: *who, reply },
            ),
            exists|m: &mut T|
                #![auto]
                {
                    &&& *m == old(self).held()
                    &&& *final(m) == final(self).held()
                    &&& call_ensures(T::asset_balance, (m, asset, who), reply)
                },
    {
        let reply: Balance = self.runtime.asset_balance(asset, who);
        self.record.note(
            Ghost(old(self).held()),
            Ghost(Call::AssetBalance { asset, who: *who, reply }),
        );
        reply
    }

    pub fn asset_burn_from(
        &mut self,
        asset: AssetId,
        who: &AccountId,
        amount: Balance,
    ) -> (reply: Result<(), DispatchError>)
        ensures
            final(self).log() == old(self).log().push(
                Call::AssetBurn { asset, who: *who, amount, reply },
            ),
            exists|m: &mut T|
                #![auto]
                {
                    &&& *m == old(self).held()
                    &&& *final(m) == final(self).held()
                    &&& call_ensures(T::asset_burn_from, (m, asset, who, amount), reply)
                },
    {
        let reply = self.runtime.asset_burn_from(asset, who, amount);
        self.record.note(
            Ghost(old(self).held()),
            Ghost(Call::AssetBurn { asset, who: *who, amount, reply }),
        );
        reply
    }

    pub fn pool_exists(&mut self, a: AssetKind, b: AssetKind) -> (reply: bool)
        ensures
            final(self).log() == old(self).log().push(Call::PoolExists { a, b, reply }),
            exists|m: &mut T|
                #![auto]
                {
                    &&& *m == old(self).held()
                    &&& *final(m) == final(self).held()
                    &&& call_ensures(T::pool_exists, (m, a, b), reply)
                },
    {
        let reply = self.runtime.pool_exists(a, b);
        self.record.note(Ghost(old(self).held()), Ghost(Call::PoolExists { a, b, reply }));
        reply
    }

    pub fn add_liquidity_for(
        &mut self,
        who: &AccountId,
        a: AssetKind,
        b: AssetKind,
        amount_a: Balance,
        amount_b: Balance,
        min_a: Balance,
        min_b: Balance,
    ) -> (reply: Result<Balance, DispatchError>)
        ensures
            final(self).log() == old(self).log().push(
                Call::AddLiquidity { who: *who, a, b, amount_a, amount_b, min_a, min_b, reply },
            ),
            exists|m: &mut T|
                #![auto]
                {
                    &&& *m == old(self).held()
                    &&& *final(m) == final(self).held()
                    &&& call_ensures(
                        T::add_liquidity_for,
                        (m, who, a, b, amount_a, amount_b, min_a, min_b),
                        reply,
                    )
                },
    {
        let reply = self.runtime.add_liquidity_for(who, a, b, amount_a, amount_b, min_a, min_b);
        self.record.note(
            Ghost(old(self).held()),
            Ghost(Call::AddLiquidity { who: *who, a, b, amount_a, amount_b, min_a, min_b, reply }),
        );
        reply
    }

    pub fn lock_liquidity_for(
        &mut self,
        who: &AccountId,
        a: AssetKind,
        b: AssetKind,
        until: BlockNumber,
    ) -> (reply: Result<(), DispatchError>)
        ensures
            final(self).log() == old(self).log().push(
                Call::LockLiquidity { who: *who, a, b, until, reply },
            ),
            exists|m: &mut T|
                #![auto]
                {
                    &&& *m == old(self).held()
                    &&& *final(m) == final(self).held()
                    &&& call_ensures(T::lock_liquidity_for, (m, who, a, b, until), reply)
                },
    {
        let reply = self.runtime.lock_liquidity_for(who, a, b, until);
        self.record.note(
            Ghost(old(self).held()),
            Ghost(Call::LockLiquidity { who: *who, a, b, until, reply }),
        );
        reply
    }

    pub fn seed_reserved_pool_for(
        &mut self,
        nested: bool,
        who: &AccountId,
        asset: AssetKind,
        quote: AssetKind,
        tokens: Balance,
        quote_amount: Balance,
        fee_tier: u32,
    ) -> (reply: Result<Balance, DispatchError>)
        ensures
            final(self).log() == old(self).log().push(
                Call::SeedPool {
                    nested,
                    who: *who,
                    asset,
                    quote,
                    tokens,
                    quote_amount,
                    fee_tier,
                    reply,
                },
            ),
            exists|m: &mut T|
                #![auto]
                {
                    &&& *m == old(self).held()
                    &&& *final(m) == final(self).held()
                    &&& call_ensures(
                        T::seed_reserved_pool_for,
                        (m, nested, who, asset, quote, tokens, quote_amount, fee_tier),
                        reply,
                    )
                },
    {
        let reply = self.runtime.seed_reserved_pool_for(
            nested,
            who,
            asset,
            quote,
            tokens,
            quote_amount,
            fee_tier,
        );
        self.record.note(
            Ghost(old(self).held()),
            Ghost(
                Call::SeedPool {
                    nested,
                    who: *who,
                    asset,
                    quote,
                    tokens,
                    quote_amount,
                    fee_tier,
                    reply,
                },
            ),
        );
        reply
    }

    pub fn native_reserves(&mut self, asset: AssetKind) -> (reply: Option<(Balance, Balance)>)
        ensures
            final(self).log() == old(self).log().push(Call::NativeReserves { asset, reply }),
            exists|m: &mut T|
                #![auto]
                {
                    &&& *m == old(self).held()
                    &&& *final(m) == final(self).held()
                    &&& call_ensures(T::native_reserves, (m, asset), reply)
                },
    {
        let reply = self.runtime.native_reserves(asset);
        self.record.note(Ghost(old(self).held()), Ghost(Call::NativeReserves { asset, reply }));
        reply
    }

    pub fn swap_for(
        &mut self,
        who: &AccountId,
        from: AssetKind,
        to: AssetKind,
        amount: Balance,
        min_out: Balance,
    ) -> (reply: Result<Balance, DispatchError>)
        ensures
            final(self).log() == old(self).log().push(
                Call::Swap { who: *who, from, to, amount, min_out, reply },
            ),
            exists|m: &mut T|
                #![auto]
                {
                    &&& *m == old(self).held()
                    &&& *final(m) == final(self).held()
                    &&& call_ensures(T::swap_for, (m, who, from, to, amount, min_out), reply)
                },
    {
        let reply = self.runtime.swap_for(who, from, to, amount, min_out);
        self.record.note(
            Ghost(old(self).held()),
            Ghost(Call::Swap { who: *who, from, to, amount, min_out, reply }),
        );
        reply
    }

    pub fn pool_creator_fees_unclaimed(&mut self, asset: AssetKind) -> (reply: Balance)
        ensures
            final(self).log() == old(self).log().push(Call::PoolCreatorFees { asset, reply }),
            exists|m: &mut T|
                #![auto]
                {
                    &&& *m == old(self).held()
                    &&& *final(m) == final(self).held()
                    &&& call_ensures(T::pool_creator_fees_unclaimed, (m, asset), reply)
                },
    {
        let reply: Balance = self.runtime.pool_creator_fees_unclaimed(asset);
        self.record.note(Ghost(old(self).held()), Ghost(Call::PoolCreatorFees { asset, reply }));
        reply
    }

    pub fn claim_pool_creator_fees(
        &mut self,
        who: &AccountId,
        asset: AssetKind,
    ) -> (reply: Result<(), DispatchError>)
        ensures
            final(self).log() == old(self).log().push(
                Call::ClaimPoolCreatorFees { who: *who, asset, reply },
            ),
            exists|m: &mut T|
                #![auto]
                {
                    &&& *m == old(self).held()
                    &&& *final(m) == final(self).held()
                    &&& call_ensures(T::claim_pool_creator_fees, (m, who, asset), reply)
                },
    {
        let reply = self.runtime.claim_pool_creator_fees(who, asset);
        self.record.note(
            Ghost(old(self).held()),
            Ghost(Call::ClaimPoolCreatorFees { who: *who, asset, reply }),
        );
        reply
    }

    pub fn treasury_account_for(&mut self, asset: AssetKind) -> (reply: Option<AccountId>)
        ensures
            final(self).log() == old(self).log().push(Call::TreasuryAccountFor { asset, reply }),
            exists|m: &mut T|
                #![auto]
                {
                    &&& *m == old(self).held()
                    &&& *final(m) == final(self).held()
                    &&& call_ensures(T::treasury_account_for, (m, asset), reply)
                },
    {
        let reply = self.runtime.treasury_account_for(asset);
        self.record.note(Ghost(old(self).held()), Ghost(Call::TreasuryAccountFor { asset, reply }));
        reply
    }

    pub fn on_buy(
        &mut self,
        launch_id: LaunchId,
        created_at: BlockNumber,
        now: BlockNumber,
        who: &AccountId,
        is_creator: bool,
        quote_in: Balance,
    ) -> (reply: Result<(Balance, Balance), DispatchError>)
        ensures
            final(self).log() == old(self).log().push(
                Call::OnBuy { launch_id, created_at, now, who: *who, is_creator, quote_in, reply },
            ),
            final(self).held() == old(self).held(),
            call_ensures(
                T::BuyHook::on_buy,
                (launch_id, created_at, now, who, is_creator, quote_in),
                reply,
            ),
    {
        let reply = T::BuyHook::on_buy(launch_id, created_at, now, who, is_creator, quote_in);
        self.record.note(
            Ghost(old(self).held()),
            Ghost(
                Call::OnBuy { launch_id, created_at, now, who: *who, is_creator, quote_in, reply },
            ),
        );
        reply
    }

    pub fn treasury_note_fee(&mut self, asset: AssetKind, amount: Balance)
        ensures
            final(self).log() == old(self).log().push(Call::TreasuryNoteFee { asset, amount }),
            exists|m: &mut T|
                #![auto]
                {
                    &&& *m == old(self).held()
                    &&& *final(m) == final(self).held()
                    &&& call_ensures(T::treasury_note_fee, (m, asset, amount), ())
                },
    {
        self.runtime.treasury_note_fee(asset, amount);
        self.record.note(Ghost(old(self).held()), Ghost(Call::TreasuryNoteFee { asset, amount }));
    }

    pub fn launch_written(
        &mut self,
        launch_id: LaunchId,
        launch: &Launch,
        curve: &CurveState,
        metadata: Option<&LaunchMetadata>,
    )
        ensures
            final(self).log() == old(self).log().push(
                Call::LaunchWritten {
                    launch_id,
                    launch: *launch,
                    curve: *curve,
                    metadata: match metadata {
                        Some(m) => Some(*m),
                        None => None,
                    },
                },
            ),
            exists|m: &mut T|
                #![auto]
                {
                    &&& *m == old(self).held()
                    &&& *final(m) == final(self).held()
                    &&& call_ensures(
                        T::launch_written,
                        (m, launch_id, launch, curve, metadata),
                        (),
                    )
                },
    {
        self.runtime.launch_written(launch_id, launch, curve, metadata);
        let ghost described: Option<LaunchMetadata> = match metadata {
            Some(m) => Some(*m),
            None => None,
        };
        assert(lent(described) == metadata);
        self.record.note(
            Ghost(old(self).held()),
            Ghost(
                Call::LaunchWritten {
                    launch_id,
                    launch: *launch,
                    curve: *curve,
                    metadata: described,
                },
            ),
        );
    }

    pub fn curve_written(&mut self, launch_id: LaunchId, curve: &CurveState)
        ensures
            final(self).log() == old(self).log().push(
                Call::CurveWritten { launch_id, curve: *curve },
            ),
            exists|m: &mut T|
                #![auto]
                {
                    &&& *m == old(self).held()
                    &&& *final(m) == final(self).held()
                    &&& call_ensures(T::curve_written, (m, launch_id, curve), ())
                },
    {
        self.runtime.curve_written(launch_id, curve);
        self.record.note(
            Ghost(old(self).held()),
            Ghost(Call::CurveWritten { launch_id, curve: *curve }),
        );
    }

    pub fn deposit_event(&mut self, event: Event)
        ensures
            final(self).log() == old(self).log().push(Call::DepositEvent { event }),
            exists|m: &mut T|
                #![auto]
                {
                    &&& *m == old(self).held()
                    &&& *final(m) == final(self).held()
                    &&& call_ensures(T::deposit_event, (m, event), ())
                },
    {
        self.runtime.deposit_event(event);
        self.record.note(Ghost(old(self).held()), Ghost(Call::DepositEvent { event }));
    }
}

} // verus!
