//! Bytes: the hash of a launch's terms, and the counts that a migration hands
//! from its first check to its last.
use crate::records::CurveParams;
use crate::types::{Balance, Hash256, LaunchId};
use parity_scale_codec::{Decode, Encode};
use sp_runtime::traits::Hash as RuntimeHash;
use vstd::bytes::{
    spec_u128_to_le_bytes, spec_u16_to_le_bytes, spec_u32_from_le_bytes, spec_u32_to_le_bytes,
    spec_u64_from_le_bytes, spec_u64_to_le_bytes,
};
use vstd::prelude::*;

verus! {

/// The BLAKE2b-256 digest of some bytes, as `sp_runtime::traits::BlakeTwo256`
/// computes it.
pub uninterp spec fn blake2_256(data: Seq<u8>) -> Seq<u8>;

/// The terms of a launch as bytes: every field in order, little-endian, at its
/// own width.
pub open spec fn terms_bytes(
    curve: CurveParams<Balance>,
    total_supply: Balance,
    sellable: Balance,
    reserved: Balance,
    token_floor: Balance,
) -> Seq<u8> {
    spec_u128_to_le_bytes(curve.graduation_target) + spec_u128_to_le_bytes(curve.virtual_quote)
        + spec_u16_to_le_bytes(curve.curve_fee_bps) + spec_u16_to_le_bytes(
        curve.protocol_share_bps,
    ) + spec_u16_to_le_bytes(curve.treasury_share_bps) + spec_u32_to_le_bytes(
        curve.pool_fee_tier,
    ) + spec_u128_to_le_bytes(total_supply) + spec_u128_to_le_bytes(sellable)
        + spec_u128_to_le_bytes(reserved) + spec_u128_to_le_bytes(token_floor)
}

/// `sp_runtime::traits::BlakeTwo256::hash_of` on the terms and the supply
/// constants: the digest of their SCALE encoding, which writes each integer in
/// little-endian order and nothing between them.
#[verifier::external_body]
pub(crate) fn hash_of_terms(
    curve: &CurveParams<Balance>,
    total_supply: Balance,
    sellable: Balance,
    reserved: Balance,
    token_floor: Balance,
) -> (r: Hash256)
    ensures
        r.bytes@ == blake2_256(terms_bytes(*curve, total_supply, sellable, reserved, token_floor)),
{
    let terms = (
        curve.graduation_target,
        curve.virtual_quote,
        curve.curve_fee_bps,
        curve.protocol_share_bps,
        curve.treasury_share_bps,
        curve.pool_fee_tier,
    );
    let all = (terms, total_supply, sellable, reserved, token_floor);
    Hash256 { bytes: sp_runtime::traits::BlakeTwo256::hash_of(&all).0 }
}

/// The bytes of a truth value.
pub open spec fn bool_bytes(b: bool) -> Seq<u8> {
    if b {
        seq![1u8]
    } else {
        seq![0u8]
    }
}

/// `parity_scale_codec::Encode::encode` on two counts, an id and a flag: the
/// integers little-endian, then one byte for the flag.
#[verifier::external_body]
pub(crate) fn encode_counts(launches: u32, curves: u32, next: LaunchId, set: bool) -> (r: Vec<u8>)
    ensures
        r@ == spec_u32_to_le_bytes(launches) + spec_u32_to_le_bytes(curves)
            + spec_u64_to_le_bytes(next) + bool_bytes(set),
{
    (launches, curves, next, set).encode()
}

/// What two counts, an id and a flag read as: seventeen bytes at the front, the
/// last of them zero or one.
pub open spec fn counts_of(b: Seq<u8>) -> Option<(u32, u32, LaunchId, bool)> {
    if b.len() < 17 || b[16] > 1 {
        None
    } else {
        Some(
            (
                spec_u32_from_le_bytes(b.subrange(0, 4)),
                spec_u32_from_le_bytes(b.subrange(4, 8)),
                spec_u64_from_le_bytes(b.subrange(8, 16)),
                b[16] == 1,
            ),
        )
    }
}

/// `parity_scale_codec::Decode::decode` of two counts, an id and a flag from
/// the front of the bytes; an error (here `None`) where they are too few or the
/// flag's byte is neither zero nor one.
#[verifier::external_body]
pub(crate) fn decode_counts(b: &Vec<u8>) -> (r: Option<(u32, u32, LaunchId, bool)>)
    ensures
        r == counts_of(b@),
{
    <(u32, u32, LaunchId, bool)>::decode(&mut &b[..]).ok()
}

/// `parity_scale_codec::Encode::encode` on a count: its eight bytes, little-endian.
#[verifier::external_body]
pub(crate) fn encode_count(n: u64) -> (r: Vec<u8>)
    ensures
        r@ == spec_u64_to_le_bytes(n),
{
    n.encode()
}

/// `parity_scale_codec::Decode::decode` of a count from the front of the
/// bytes; an error (here `None`) where they are fewer than eight.
#[verifier::external_body]
pub(crate) fn decode_count(b: &Vec<u8>) -> (r: Option<u64>)
    ensures
        r == if b@.len() < 8 {
            None
        } else {
            Some(spec_u64_from_le_bytes(b@.subrange(0, 8)))
        },
{
    u64::decode(&mut &b[..]).ok()
}

} // verus!
