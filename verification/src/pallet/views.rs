//! Reading the launchpad: quotes for a frontend, prices, and the curve as a
//! venue for another pallet.
use crate::accounts::derived;
use crate::config::{faithful, Call, Config};
use crate::curve::{
    product, quote_reserve, reserves_fit, token_reserve, BuyQuote, SellQuote, State, Terms,
};
use crate::pallet::{Pallet, Store};
use crate::pallet::terms::{map_math, math_error, pricing, terms_of};
use crate::pallet::trade::{buy_done, buy_price, sell_price, BuyArgs, BuyReplies};
use crate::records::{CurveState, Launch, Phase};
use crate::types::{AccountId, AssetId, Balance, BlockNumber, DispatchError, Error, LaunchId};
use crate::u256::{mul_div_floor, U256};
use vstd::prelude::*;

verus! {

broadcast use vstd::std_specs::btree::group_btree_axioms;

/// One unit of price: quote per token with eighteen decimals.
pub const PRICE_UNIT: u128 = 1_000_000_000_000_000_000;

/// The value of a key, if it is there.
pub open spec fn lookup<K, V>(m: Map<K, V>, k: K) -> Option<V> {
    if m.contains_key(k) {
        Some(m[k])
    } else {
        None
    }
}

/// The virtual reserves `(quote, token)` of a launch, whatever its phase.
pub open spec fn reserves_of(s: Store, id: LaunchId) -> Option<(Balance, Balance)> {
    let t = terms_of(s.constants, s.launches[id].curve);
    let p = pricing(s.curves[id]);
    if s.has(id) && reserves_fit(t, p) {
        Some((quote_reserve(t, p) as u128, token_reserve(t, p) as u128))
    } else {
        None
    }
}

/// The virtual reserves of a launch that trades.
pub open spec fn venue_reserves(s: Store, id: LaunchId) -> Option<(Balance, Balance)> {
    if s.has(id) && s.curves[id].phase == Phase::Trading {
        reserves_of(s, id)
    } else {
        None
    }
}

/// Quote per token, with eighteen decimals, where it fits.
pub open spec fn price_of(reserves: (Balance, Balance)) -> Option<u128> {
    let p = reserves.0 * PRICE_UNIT / (reserves.1 as int);
    if p <= u128::MAX {
        Some(p as u128)
    } else {
        None
    }
}

/// Who may claim the pool creator fees of an asset: the launch's fee recipient,
/// or its commitment account where the fees are committed.
pub open spec fn fee_recipient_of(s: Store, asset: AssetId) -> Option<AccountId> {
    if !s.asset_to_launch.contains_key(asset) {
        None
    } else {
        let id = s.asset_to_launch[asset];
        if !s.launches.contains_key(id) {
            None
        } else if s.launches[id].commitments.burns() {
            Some(derived(s.constants.commit_pallet_id, id))
        } else {
            Some(s.launches[id].creator_fee_recipient)
        }
    }
}

/// Why a trade on a launch cannot be quoted, before its price is asked.
pub open spec fn quote_error(s: Store, id: LaunchId) -> Option<Error> {
    if !s.has(id) {
        Some(Error::LaunchNotFound)
    } else if s.curves[id].phase != Phase::Trading {
        Some(Error::WrongPhase)
    } else {
        None
    }
}

/// The curve as a venue for a pallet that owns the buyer: the launch
/// treasury's buy-and-burn before graduation. Read-only accessors plus
/// `buy_for`, the same path a user's `buy` takes, anti-snipe hook included, so
/// a treasury's buys are ordinary buys and can graduate the launch.
pub trait CurveVenue<AccountId, AssetId, Balance, BlockNumber> {
    /// The venue can be traded on.
    spec fn venue_wf(&self) -> bool;

    fn launch_of_asset(&self, asset: AssetId) -> Option<LaunchId>;

    fn asset_of(&self, launch_id: LaunchId) -> Option<AssetId>;

    fn phase(&self, launch_id: LaunchId) -> Option<Phase>;

    /// `created_at` until the first trade, then the last buy or sell block.
    fn last_trade_block(&self, launch_id: LaunchId) -> Option<BlockNumber>;

    /// The curve's virtual reserves `(quote, token)`, what its price is quoted
    /// on, while it is `Trading`; `None` otherwise.
    fn virtual_reserves(&self, launch_id: LaunchId) -> Option<(Balance, Balance)>;

    /// The curve's trading fee in bps, for a caller sizing a trade against the
    /// round-trip cost of bracketing it; `None` for no launch.
    fn fee_bps(&self, launch_id: LaunchId) -> Option<u16>;

    /// Buy with exactly `quote_in` from `who`, who receives the tokens.
    /// Returns the tokens received.
    fn buy_for(
        &mut self,
        who: &AccountId,
        launch_id: LaunchId,
        quote_in: Balance,
        min_tokens_out: Balance,
    ) -> Result<Balance, DispatchError>
        requires
            old(self).venue_wf(),
    ;
}

/// A buy on behalf of another pallet: not a trade for the dormancy clock.
pub open spec fn venue_buy(
    s: Store,
    who: AccountId,
    launch_id: LaunchId,
    quote_in: Balance,
    min_tokens_out: Balance,
) -> BuyArgs {
    BuyArgs {
        who,
        launch_id,
        quote_in,
        min_tokens_out,
        is_creator: who == s.launches[launch_id].creator,
        is_trade: false,
    }
}

/// What `buy_for` does for given answers: the buy, of which it returns the tokens.
pub open spec fn venue_buy_done(
    s0: Store,
    log0: Seq<Call>,
    a: BuyArgs,
    r: BuyReplies,
    result: Result<Balance, DispatchError>,
    s1: Store,
    log1: Seq<Call>,
) -> bool {
    exists|inner: Result<(bool, Balance), DispatchError>|
        {
            &&& #[trigger] buy_done(s0, log0, a, r, inner, s1, log1)
            &&& result == match inner {
                Ok((_, tokens_out)) => Ok(tokens_out),
                Err(e) => Err(e),
            }
        }
}

impl<T: Config> CurveVenue<AccountId, AssetId, Balance, BlockNumber> for Pallet<T> {
    open spec fn venue_wf(&self) -> bool {
        self.wf()
    }

    fn launch_of_asset(&self, asset: AssetId) -> (r: Option<LaunchId>)
        ensures
            r == lookup(self.store().asset_to_launch, asset),
    {
        match self.asset_to_launch.get(&asset) {
            Some(id) => Some(*id),
            None => None,
        }
    }

    fn asset_of(&self, launch_id: LaunchId) -> (r: Option<AssetId>)
        ensures
            r == match lookup(self.store().launches, launch_id) {
                Some(l) => Some(l.asset_id),
                None => None,
            },
    {
        match self.launches.get(&launch_id) {
            Some(l) => Some(l.asset_id),
            None => None,
        }
    }

    fn phase(&self, launch_id: LaunchId) -> (r: Option<Phase>)
        ensures
            r == match lookup(self.store().curves, launch_id) {
                Some(c) => Some(c.phase),
                None => None,
            },
    {
        match self.curves.get(&launch_id) {
            Some(c) => Some(c.phase),
            None => None,
        }
    }

    fn last_trade_block(&self, launch_id: LaunchId) -> (r: Option<BlockNumber>)
        ensures
            r == match lookup(self.store().curves, launch_id) {
                Some(c) => Some(c.last_trade_block),
                None => None,
            },
    {
        match self.curves.get(&launch_id) {
            Some(c) => Some(c.last_trade_block),
            None => None,
        }
    }

    fn virtual_reserves(&self, launch_id: LaunchId) -> (r: Option<(Balance, Balance)>)
        ensures
            r == venue_reserves(self.store(), launch_id),
    {
        match self.curves.get(&launch_id) {
            Some(c) if c.phase == Phase::Trading => self.reserves(launch_id),
            _ => None,
        }
    }

    fn fee_bps(&self, launch_id: LaunchId) -> (r: Option<u16>)
        ensures
            r == match lookup(self.store().launches, launch_id) {
                Some(l) => Some(l.curve.curve_fee_bps),
                None => None,
            },
    {
        match self.launches.get(&launch_id) {
            Some(l) => Some(l.curve.curve_fee_bps),
            None => None,
        }
    }

    fn buy_for(
        &mut self,
        who: &AccountId,
        launch_id: LaunchId,
        quote_in: Balance,
        min_tokens_out: Balance,
    ) -> (result: Result<Balance, DispatchError>)
        ensures
            final(self).wf(),
            faithful::<T>(final(self).log()),
            exists|r: BuyReplies|
                venue_buy_done(
                    old(self).store(),
                    old(self).log(),
                    venue_buy(old(self).store(), *who, launch_id, quote_in, min_tokens_out),
                    r,
                    result,
                    final(self).store(),
                    final(self).log(),
                ),
    {
        self.host.attest();
        let ghost s0 = self.store();
        let ghost a = venue_buy(s0, *who, launch_id, quote_in, min_tokens_out);
        let is_creator = match self.launches.get(&launch_id) {
            Some(launch) => *who == launch.creator,
            None => {
                proof {
                    let r: BuyReplies = arbitrary();
                    let inner: Result<(bool, Balance), DispatchError> = Err(
                        DispatchError::Module(Error::LaunchNotFound),
                    );
                    assert(buy_done(s0, self.log(), a, r, inner, self.store(), self.log()));
                    assert(venue_buy_done(
                        s0,
                        self.log(),
                        a,
                        r,
                        Err(DispatchError::Module(Error::LaunchNotFound)),
                        self.store(),
                        self.log(),
                    ));
                }
                return Err(DispatchError::Module(Error::LaunchNotFound));
            },
        };
        let (bought, replies) = self.buy_inner(
            who,
            launch_id,
            quote_in,
            min_tokens_out,
            is_creator,
            false,
        );
        let result = match bought {
            Ok((_, tokens_out)) => Ok(tokens_out),
            Err(e) => Err(e),
        };
        proof {
            assert(buy_done(
                s0,
                old(self).log(),
                a,
                replies@,
                bought,
                self.store(),
                self.log(),
            ));
            assert(venue_buy_done(
                s0,
                old(self).log(),
                a,
                replies@,
                result,
                self.store(),
                self.log(),
            ));
        }
        self.host.attest();
        result
    }
}

impl<T: Config> Pallet<T> {
    /// The virtual reserves `(quote, token)` of a launch, whatever its phase.
    pub fn reserves(&self, launch_id: LaunchId) -> (r: Option<(Balance, Balance)>)
        ensures
            r == reserves_of(self.store(), launch_id),
    {
        let launch = match self.launches.get(&launch_id) {
            Some(l) => *l,
            None => return None,
        };
        let state = match self.curves.get(&launch_id) {
            Some(c) => *c,
            None => return None,
        };
        let q: Balance = match launch.curve.virtual_quote.checked_add(state.real_quote) {
            Some(q) => q,
            None => return None,
        };
        match self.constants.virtual_token_floor.checked_add(state.tokens_remaining) {
            Some(tk) => Some((q, tk)),
            None => None,
        }
    }

    /// Both records of a launch that can be quoted.
    fn quotable(&self, launch_id: LaunchId) -> (r: Result<(Launch, CurveState), DispatchError>)
        ensures
            r == match quote_error(self.store(), launch_id) {
                Some(e) => Err(DispatchError::Module(e)),
                None => Ok(
                    (self.store().launches[launch_id], self.store().curves[launch_id]),
                ),
            },
    {
        let launch = match self.launches.get(&launch_id) {
            Some(l) => *l,
            None => return Err(DispatchError::Module(Error::LaunchNotFound)),
        };
        let state = match self.curves.get(&launch_id) {
            Some(c) => *c,
            None => return Err(DispatchError::Module(Error::LaunchNotFound)),
        };
        if state.phase != Phase::Trading {
            return Err(DispatchError::Module(Error::WrongPhase));
        }
        Ok((launch, state))
    }

    /// What a buy of `quote_in` would be quoted now.
    pub fn quote_buy(&self, launch_id: LaunchId, quote_in: Balance) -> (r: Result<
        BuyQuote,
        DispatchError,
    >)
        ensures
            r == match quote_error(self.store(), launch_id) {
                Some(e) => Err(DispatchError::Module(e)),
                None => match buy_price(self.store(), launch_id, quote_in) {
                    Ok(q) => Ok(q),
                    Err(e) => Err(math_error(e)),
                },
            },
    {
        match self.quotable(launch_id) {
            Err(e) => Err(e),
            Ok((launch, s)) => {
                let state = State {
                    real_quote: s.real_quote,
                    tokens_remaining: s.tokens_remaining,
                };
                match crate::curve::quote_buy(&self.terms(&launch.curve), &state, quote_in) {
                    Ok(q) => Ok(q),
                    Err(e) => Err(map_math(e)),
                }
            },
        }
    }

    /// What a sell of `tokens_in` would be quoted now.
    pub fn quote_sell(&self, launch_id: LaunchId, tokens_in: Balance) -> (r: Result<
        SellQuote,
        DispatchError,
    >)
        ensures
            r == match quote_error(self.store(), launch_id) {
                Some(e) => Err(DispatchError::Module(e)),
                None => match sell_price(self.store(), launch_id, tokens_in) {
                    Ok(q) => Ok(q),
                    Err(e) => Err(math_error(e)),
                },
            },
    {
        match self.quotable(launch_id) {
            Err(e) => Err(e),
            Ok((launch, s)) => {
                let state = State {
                    real_quote: s.real_quote,
                    tokens_remaining: s.tokens_remaining,
                };
                match crate::curve::quote_sell(&self.terms(&launch.curve), &state, tokens_in) {
                    Ok(q) => Ok(q),
                    Err(e) => Err(map_math(e)),
                }
            },
        }
    }

    /// Marginal price, quote per token, as an 18-decimal fixed point. A launch
    /// without a token reserve has none to divide by.
    pub fn spot_price(&self, launch_id: LaunchId) -> (r: Option<u128>)
        requires
            reserves_of(self.store(), launch_id) matches Some((_, tk)) ==> tk > 0,
        ensures
            r == match reserves_of(self.store(), launch_id) {
                Some(reserves) => price_of(reserves),
                None => None,
            },
    {
        match self.reserves(launch_id) {
            Some((q, tk)) => mul_div_floor(q, PRICE_UNIT, tk),
            None => None,
        }
    }

    /// Terms of a launch in the pure-math form.
    pub fn curve_terms(&self, launch_id: LaunchId) -> (r: Option<Terms>)
        ensures
            r == match lookup(self.store().launches, launch_id) {
                Some(l) => Some(terms_of(self.constants, l.curve)),
                None => None,
            },
    {
        match self.launches.get(&launch_id) {
            Some(l) => Some(self.terms(&l.curve)),
            None => None,
        }
    }

    /// The constant product of a launch's current state.
    pub fn invariant_k(&self, launch_id: LaunchId) -> (r: Option<U256>)
        ensures
            r is Some <==> reserves_of(self.store(), launch_id) is Some,
            r matches Some(k) ==> k.value() == product(
                terms_of(self.constants, self.store().launches[launch_id].curve),
                pricing(self.store().curves[launch_id]),
            ),
    {
        match (self.curve_terms(launch_id), self.curves.get(&launch_id)) {
            (Some(terms), Some(s)) => crate::curve::invariant_k(
                &terms,
                &State { real_quote: s.real_quote, tokens_remaining: s.tokens_remaining },
            ),
            _ => None,
        }
    }

    /// Who may claim the DEX creator share of `asset`'s graduated pool: the
    /// launch's current `creator_fee_recipient`, so a change of recipient moves
    /// the DEX stream with it. A committed stream resolves to the commitment
    /// account.
    pub fn creator_fee_recipient_for(&self, asset: AssetId) -> (r: Option<AccountId>)
        ensures
            r == fee_recipient_of(self.store(), asset),
    {
        let id: LaunchId = match self.asset_to_launch.get(&asset) {
            Some(id) => *id,
            None => return None,
        };
        match self.launches.get(&id) {
            Some(l) => Some(
                if l.commitments.burns_fees() {
                    self.commit_account(id)
                } else {
                    l.creator_fee_recipient
                },
            ),
            None => None,
        }
    }

    /// The names of every dispatchable: none of them withdraws.
    pub fn call_names() -> (r: Vec<&'static str>)
        ensures
            r@.len() == 12,
            r@[0]@ == "create_launch"@,
            r@[1]@ == "buy"@,
            r@[2]@ == "sell"@,
            r@[3]@ == "graduate"@,
            r@[4]@ == "claim_creator_fees"@,
            r@[5]@ == "set_creator_fee_recipient"@,
            r@[6]@ == "set_launch_metadata"@,
            r@[7]@ == "disburse"@,
            r@[8]@ == "claim_locked"@,
            r@[9]@ == "set_params"@,
            r@[10]@ == "set_creation_paused"@,
            r@[11]@ == "force_seed_into_existing_pool"@,
    {
        vec![
            "create_launch",
            "buy",
            "sell",
            "graduate",
            "claim_creator_fees",
            "set_creator_fee_recipient",
            "set_launch_metadata",
            "disburse",
            "claim_locked",
            "set_params",
            "set_creation_paused",
            "force_seed_into_existing_pool",
        ]
    }
}

} // verus!
