//! Keccak-256, as the `alloy-primitives` crate computes it.

use vstd::prelude::*;

verus! {

/// The Keccak-256 hash of `data`, 32 bytes.
pub uninterp spec fn keccak256_of(data: Seq<u8>) -> Seq<u8>;

/// Calls `alloy_primitives::keccak256` and copies the 32 bytes of the hash
/// that it returns.
#[verifier::external_body]
fn hash_bytes(data: &[u8]) -> (hash: Vec<u8>)
    ensures
        hash@ == keccak256_of(data@),
        hash@.len() == 32,
{
    alloy_primitives::keccak256(data).to_vec()
}

/// The Keccak-256 hash of `data`.
pub fn keccak256(data: &[u8]) -> (hash: Vec<u8>)
    ensures
        hash@ == keccak256_of(data@),
        hash@.len() == 32,
{
    hash_bytes(data)
}

} // verus!
