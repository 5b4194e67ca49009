//! Deterministic record addressing.
//!
//! Every record's storage address is derived from a namespace tag and the
//! record's seed bytes: the fingerprint for a device record, the fingerprint
//! and the little-endian day marker for a usage record. The derivation is
//! pure — the same seeds under the same program id always give the same
//! address — and collision resistance comes from the host's cryptographic
//! hashing, which this module leaves to the outside crate.

use vstd::prelude::*;

use vstd::bytes::{spec_u64_to_le_bytes, u64_to_le_bytes};
use vstd::slice::slice_to_vec;

use crate::state::views_of;

verus! {

/// The storage address, if any, that the host derives for the given ordered
/// seed list under the given program id. Named, not stated: the derivation
/// is iterated cryptographic hashing, a pure function of its inputs.
pub uninterp spec fn address_of(seeds: Seq<Seq<u8>>, program_id: Seq<u8>) -> Option<Seq<u8>>;

/// Namespace tag for device records: the bytes of `device`.
pub open spec fn device_namespace() -> Seq<u8> {
    seq![100u8, 101u8, 118u8, 105u8, 99u8, 101u8]
}

/// Namespace tag for usage records: the bytes of `daily_usage`.
pub open spec fn usage_namespace() -> Seq<u8> {
    seq![100u8, 97u8, 105u8, 108u8, 121u8, 95u8, 117u8, 115u8, 97u8, 103u8, 101u8]
}

/// The seed list addressing a device record: the namespace tag and the
/// device fingerprint.
pub open spec fn device_seeds(device_hash: Seq<u8>) -> Seq<Seq<u8>> {
    seq![device_namespace(), device_hash]
}

/// The seed list addressing a usage record: the namespace tag, the device
/// fingerprint, and the day marker as eight little-endian bytes.
pub open spec fn usage_seeds(device_hash: Seq<u8>, timestamp: i64) -> Seq<Seq<u8>> {
    seq![usage_namespace(), device_hash, spec_u64_to_le_bytes(timestamp as u64)]
}

/// Relies on `Pubkey::try_find_program_address` of anchor_lang's prelude:
/// off the chain it derives the program address by iterated hashing of the
/// seeds and the program id alone, and returns `None` (never panicking)
/// when no viable derivation exists for these inputs.
#[verifier::external_body]
fn try_derive_address(seeds: &Vec<Vec<u8>>, program_id: &[u8; 32]) -> (r: Option<[u8; 32]>)
    ensures
        (match r {
            Some(a) => address_of(views_of(seeds@), program_id@) == Some(a@),
            None => address_of(views_of(seeds@), program_id@) is None,
        }),
{
    let seed_refs: Vec<&[u8]> = seeds.iter().map(|s| s.as_slice()).collect();
    let pid = anchor_lang::prelude::Pubkey::new_from_array(*program_id);
    anchor_lang::prelude::Pubkey::try_find_program_address(&seed_refs, &pid)
        .map(|(address, _bump)| address.to_bytes())
}

/// The device namespace tag as bytes.
fn device_namespace_bytes() -> (r: Vec<u8>)
    ensures
        r@ == device_namespace(),
{
    let mut v: Vec<u8> = Vec::new();
    v.push(100);
    v.push(101);
    v.push(118);
    v.push(105);
    v.push(99);
    v.push(101);
    proof {
        assert(v@ =~= device_namespace());
    }
    v
}

/// The usage namespace tag as bytes.
fn usage_namespace_bytes() -> (r: Vec<u8>)
    ensures
        r@ == usage_namespace(),
{
    let mut v: Vec<u8> = Vec::new();
    v.push(100);
    v.push(97);
    v.push(105);
    v.push(108);
    v.push(121);
    v.push(95);
    v.push(117);
    v.push(115);
    v.push(97);
    v.push(103);
    v.push(101);
    proof {
        assert(v@ =~= usage_namespace());
    }
    v
}

/// Derives the storage address of the device record for `device_hash`.
pub fn derive_device_address(program_id: &[u8; 32], device_hash: &[u8; 32]) -> (r: Option<
    [u8; 32],
>)
    ensures
        (match r {
            Some(a) => address_of(device_seeds(device_hash@), program_id@) == Some(a@),
            None => address_of(device_seeds(device_hash@), program_id@) is None,
        }),
{
    let mut seeds: Vec<Vec<u8>> = Vec::new();
    seeds.push(device_namespace_bytes());
    seeds.push(slice_to_vec(device_hash.as_slice()));
    proof {
        assert(views_of(seeds@) =~~= device_seeds(device_hash@));
    }
    try_derive_address(&seeds, program_id)
}

/// Derives the storage address of the usage record for `device_hash` on the
/// day marked `timestamp`.
pub fn derive_usage_address(
    program_id: &[u8; 32],
    device_hash: &[u8; 32],
    timestamp: i64,
) -> (r: Option<[u8; 32]>)
    ensures
        (match r {
            Some(a) => address_of(usage_seeds(device_hash@, timestamp), program_id@) == Some(a@),
            None => address_of(usage_seeds(device_hash@, timestamp), program_id@) is None,
        }),
{
    let mut seeds: Vec<Vec<u8>> = Vec::new();
    seeds.push(usage_namespace_bytes());
    seeds.push(slice_to_vec(device_hash.as_slice()));
    seeds.push(u64_to_le_bytes(timestamp as u64));
    proof {
        assert(views_of(seeds@) =~~= usage_seeds(device_hash@, timestamp));
    }
    try_derive_address(&seeds, program_id)
}

} // verus!
