//! A bonding-curve token launchpad that graduates into a DEX.
//!
//! Each launch mints a fixed-supply token into an escrow account of its own,
//! sells part of it along a constant-product curve quoted in the native asset,
//! and on sell-out seeds a permanently locked DEX pool with the raised quote
//! and the remaining tokens. No call, whether the creator's, governance's or
//! the launchpad's own, moves curve or pool funds anywhere else.
//!
//! What the escrow holds is tracked in the records; its balances are never
//! read back for a price, so whatever is sent to it unasked changes nothing.
//!
//! - [`curve`] is the pure arithmetic, [`u256`] the wide products under it.
//! - [`records`], [`types`] and [`event`] are what is stored and reported.
//! - [`config`] is the runtime around the launchpad, and the record of every
//!   call made to it.
//! - [`pallet`] is the launchpad: its calls, each with what it asks of the
//!   runtime and what it leaves in the records.
//! - [`migrations`] brings records of earlier layouts up to date.
//! - [`laws`] is what holds of all of it together.
use vstd::prelude::*;

pub mod accounts;
pub mod codec;
pub mod config;
pub mod curve;
pub mod event;
pub mod laws;
pub mod migrations;
pub mod pallet;
pub mod records;
pub mod types;
pub mod u256;

verus! {

/// Basis-point denominator.
pub const BPS: u16 = 10_000;

/// Decimals every launch token is registered with.
pub const TOKEN_DECIMALS: u8 = 18;

/// How far `create_launch` walks past taken asset ids before it gives up. The
/// cursor walks past them as soon as they stop; the bound only keeps one
/// creation's scan finite.
pub const MAX_ASSET_ID_SCAN: u32 = 256;

} // verus!
