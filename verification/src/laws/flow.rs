//! What the calls to the runtime move into and out of an account.
use crate::config::{Call, Run};
use crate::event::Event;
use crate::types::{AccountId, AssetId, AssetKind, DispatchError, Error};
use vstd::prelude::*;

verus! {

/// The quote that one call moved into an account, less what it moved out: a
/// transfer, or a seed's deposit. What the DEX moves when liquidity is added to
/// a pool, when it swaps and when it pays out a pool's creator fees is its own
/// to say; these count as nothing here.
pub open spec fn quote_moved(c: Call, who: AccountId) -> int {
    match c {
        Call::Transfer { from, to, amount, reply, .. } => if reply is Ok {
            (if to == who {
                amount as int
            } else {
                0
            }) - (if from == who {
                amount as int
            } else {
                0
            })
        } else {
            0
        },
        Call::SeedPool { who: seeder, quote_amount, reply, .. } => if reply is Ok && seeder == who {
            -(quote_amount as int)
        } else {
            0
        },
        _ => 0,
    }
}

/// The tokens that one call moved into an account, less what it moved out: a
/// mint, a transfer, a burn, or a seed's deposit. Adding liquidity and swapping
/// count as nothing here, as with [`quote_moved`].
pub open spec fn tokens_moved(c: Call, asset: AssetId, who: AccountId) -> int {
    match c {
        Call::AssetMint { asset: a, who: to, amount, reply } => if reply is Ok && a == asset && to
            == who {
            amount as int
        } else {
            0
        },
        Call::AssetTransfer { asset: a, from, to, amount, reply, .. } => if reply is Ok && a
            == asset {
            (if to == who {
                amount as int
            } else {
                0
            }) - (if from == who {
                amount as int
            } else {
                0
            })
        } else {
            0
        },
        Call::AssetBurn { asset: a, who: from, amount, reply } => if reply is Ok && a == asset
            && from == who {
            -(amount as int)
        } else {
            0
        },
        Call::SeedPool { who: seeder, asset: a, tokens, reply, .. } => if reply is Ok && a
            == AssetKind::WithId(asset) && seeder == who {
            -(tokens as int)
        } else {
            0
        },
        _ => 0,
    }
}

/// The quote that all calls so far moved into an account, less what they moved
/// out, as far as [`quote_moved`] counts it: without what the DEX moved when
/// liquidity was added, in a swap and for a pool's creator fees.
pub open spec fn quote_flow(log: Seq<Call>, who: AccountId) -> int
    decreases log.len(),
{
    if log.len() == 0 {
        0
    } else {
        quote_flow(log.drop_last(), who) + quote_moved(log.last(), who)
    }
}

/// The tokens that all calls so far moved into an account, less what they moved
/// out, as far as [`tokens_moved`] counts it: without what the DEX moved when
/// liquidity was added and in a swap.
pub open spec fn token_flow(log: Seq<Call>, asset: AssetId, who: AccountId) -> int
    decreases log.len(),
{
    if log.len() == 0 {
        0
    } else {
        token_flow(log.drop_last(), asset, who) + tokens_moved(log.last(), asset, who)
    }
}

pub broadcast proof fn lemma_quote_call(run: Run, c: Call, who: AccountId)
    ensures
        #[trigger] quote_flow(run.call(c).log, who) == quote_flow(run.log, who) + if run.ok() {
            quote_moved(c, who)
        } else {
            0
        },
{
    if run.ok() {
        assert(run.log.push(c).drop_last() =~= run.log);
    }
}

pub broadcast proof fn lemma_quote_call_if(run: Run, due: bool, c: Call, who: AccountId)
    ensures
        #[trigger] quote_flow(run.call_if(due, c).log, who) == quote_flow(run.log, who) + if run.ok()
            && due {
            quote_moved(c, who)
        } else {
            0
        },
{
    lemma_quote_call(run, c, who);
}

pub broadcast proof fn lemma_quote_event(run: Run, e: Event, who: AccountId)
    ensures
        #[trigger] quote_flow(run.event(e).log, who) == quote_flow(run.log, who),
{
    lemma_quote_call(run, Call::DepositEvent { event: e }, who);
}

pub broadcast proof fn lemma_quote_ensure(run: Run, cond: bool, e: Error, who: AccountId)
    ensures
        #[trigger] quote_flow(run.ensure(cond, e).log, who) == quote_flow(run.log, who),
{
}

pub broadcast proof fn lemma_quote_stop(run: Run, e: Option<DispatchError>, who: AccountId)
    ensures
        #[trigger] quote_flow(run.stop(e).log, who) == quote_flow(run.log, who),
{
}

pub broadcast proof fn lemma_tokens_call(run: Run, c: Call, asset: AssetId, who: AccountId)
    ensures
        #[trigger] token_flow(run.call(c).log, asset, who) == token_flow(run.log, asset, who)
            + if run.ok() {
            tokens_moved(c, asset, who)
        } else {
            0
        },
{
    if run.ok() {
        assert(run.log.push(c).drop_last() =~= run.log);
    }
}

pub broadcast proof fn lemma_tokens_call_if(
    run: Run,
    due: bool,
    c: Call,
    asset: AssetId,
    who: AccountId,
)
    ensures
        #[trigger] token_flow(run.call_if(due, c).log, asset, who) == token_flow(
            run.log,
            asset,
            who,
        ) + if run.ok() && due {
            tokens_moved(c, asset, who)
        } else {
            0
        },
{
    lemma_tokens_call(run, c, asset, who);
}

pub broadcast proof fn lemma_tokens_event(run: Run, e: Event, asset: AssetId, who: AccountId)
    ensures
        #[trigger] token_flow(run.event(e).log, asset, who) == token_flow(run.log, asset, who),
{
    lemma_tokens_call(run, Call::DepositEvent { event: e }, asset, who);
}

pub broadcast proof fn lemma_tokens_ensure(
    run: Run,
    cond: bool,
    e: Error,
    asset: AssetId,
    who: AccountId,
)
    ensures
        #[trigger] token_flow(run.ensure(cond, e).log, asset, who) == token_flow(
            run.log,
            asset,
            who,
        ),
{
}

pub broadcast proof fn lemma_tokens_stop(
    run: Run,
    e: Option<DispatchError>,
    asset: AssetId,
    who: AccountId,
)
    ensures
        #[trigger] token_flow(run.stop(e).log, asset, who) == token_flow(run.log, asset, who),
{
}

pub broadcast group group_quote_flow {
    lemma_quote_call,
    lemma_quote_call_if,
    lemma_quote_event,
    lemma_quote_ensure,
    lemma_quote_stop,
}

pub broadcast group group_token_flow {
    lemma_tokens_call,
    lemma_tokens_call_if,
    lemma_tokens_event,
    lemma_tokens_ensure,
    lemma_tokens_stop,
}

} // verus!
