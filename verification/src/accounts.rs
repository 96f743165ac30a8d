//! The accounts that a launch owns. Each is derived from a pallet id and the
//! launch id, and nobody holds a key to it.
use crate::types::{AccountId, LaunchId};
use sp_runtime::traits::AccountIdConversion;
use vstd::bytes::spec_u64_to_le_bytes;
use vstd::prelude::*;

verus! {

/// The twenty bytes of a derived account: the tag `modl`, the pallet id, then
/// the launch id in little-endian order.
pub open spec fn sub_account_bytes(pallet_id: Seq<u8>, id: LaunchId) -> Seq<u8> {
    seq![0x6du8, 0x6fu8, 0x64u8, 0x6cu8] + pallet_id + spec_u64_to_le_bytes(id)
}

/// `frame_support::PalletId::into_sub_account_truncating` with a launch id as
/// the seed, into a twenty-byte account: type tag, pallet id and seed fill it
/// exactly, so nothing is cut off and nothing is padded.
#[verifier::external_body]
pub(crate) fn sub_account(pallet_id: [u8; 8], id: LaunchId) -> (r: AccountId)
    ensures
        r.bytes@ == sub_account_bytes(pallet_id@, id),
{
    AccountId { bytes: frame_support::PalletId(pallet_id).into_sub_account_truncating(id) }
}

/// The account derived from a pallet id and a launch id.
pub open spec fn derived(pallet_id: [u8; 8], id: LaunchId) -> AccountId {
    choose|a: AccountId| a.bytes@ == sub_account_bytes(pallet_id@, id)
}

/// The account derived from `pallet_id` for launch `id`.
pub fn derive_account(pallet_id: [u8; 8], id: LaunchId) -> (r: AccountId)
    ensures
        r == derived(pallet_id, id),
        r.bytes@ == sub_account_bytes(pallet_id@, id),
{
    let r = sub_account(pallet_id, id);
    proof {
        let d = derived(pallet_id, id);
        assert(r.bytes@ == sub_account_bytes(pallet_id@, id));
        assert(d.bytes@ =~= r.bytes@);
        assert(d.bytes =~= r.bytes);
    }
    r
}

/// There is an account with the derived bytes.
pub proof fn lemma_derived(pallet_id: [u8; 8], id: LaunchId)
    ensures
        derived(pallet_id, id).bytes@ == sub_account_bytes(pallet_id@, id),
{
    vstd::bytes::lemma_auto_spec_u64_to_from_le_bytes();
    let b = sub_account_bytes(pallet_id@, id);
    let a = AccountId {
        bytes: [
            b[0],
            b[1],
            b[2],
            b[3],
            b[4],
            b[5],
            b[6],
            b[7],
            b[8],
            b[9],
            b[10],
            b[11],
            b[12],
            b[13],
            b[14],
            b[15],
            b[16],
            b[17],
            b[18],
            b[19],
        ],
    };
    assert(a.bytes@ =~= b);
}

/// Derived accounts differ where the pallet ids or the launch ids differ.
pub proof fn lemma_sub_account_bytes_differ(p: Seq<u8>, i: LaunchId, q: Seq<u8>, j: LaunchId)
    requires
        p.len() == 8,
        q.len() == 8,
        p != q || i != j,
    ensures
        sub_account_bytes(p, i) != sub_account_bytes(q, j),
{
    vstd::bytes::lemma_auto_spec_u64_to_from_le_bytes();
    let a = sub_account_bytes(p, i);
    let b = sub_account_bytes(q, j);
    if a == b {
        assert(a.subrange(4, 12) =~= p);
        assert(b.subrange(4, 12) =~= q);
        assert(a.subrange(12, 20) =~= spec_u64_to_le_bytes(i));
        assert(b.subrange(12, 20) =~= spec_u64_to_le_bytes(j));
        assert(vstd::bytes::spec_u64_from_le_bytes(spec_u64_to_le_bytes(i)) == i);
        assert(vstd::bytes::spec_u64_from_le_bytes(spec_u64_to_le_bytes(j)) == j);
    }
}

} // verus!
