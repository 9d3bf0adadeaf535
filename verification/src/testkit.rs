//! Helpers for driving contracts: call data from a selector and arguments,
//! and the storage slot of an entry of a mapping.

use vstd::prelude::*;
use vstd::string::*;
use crate::bytes::append_bytes;
use crate::hash::{keccak256, keccak256_of};
use crate::outcome::selector_of;
use crate::primitives::U256;

verus! {

/// The selector of the signature `sig`: the first four bytes of its hash.
pub fn get_selector_from_sig(sig: &str) -> (selector: [u8; 4])
    ensures
        selector@ == selector_of(sig.spec_bytes()),
{
    let hash = keccak256(sig.as_bytes());
    let selector = [hash[0], hash[1], hash[2], hash[3]];
    assert(selector@ =~= selector_of(sig.spec_bytes()));
    selector
}

/// The call data of a call: the selector and then the encoded arguments.
pub fn get_calldata(selector: [u8; 4], args: Vec<u8>) -> (calldata: Vec<u8>)
    ensures
        calldata@ == selector@ + args@,
{
    let mut calldata: Vec<u8> = Vec::new();
    calldata.push(selector[0]);
    calldata.push(selector[1]);
    calldata.push(selector[2]);
    calldata.push(selector[3]);
    assert(calldata@ =~= selector@);
    append_bytes(&mut calldata, args.as_slice());
    calldata
}

/// The storage slot of the entry of the mapping `id` under the encoded key
/// `key_bytes`: the hash of the key and then the 32 big-endian bytes of
/// `id`, read as a big-endian word.
pub open spec fn mapping_slot_of(key_bytes: Seq<u8>, id: U256) -> U256 {
    U256::spec_from_be_bytes(keccak256_of(key_bytes + id.spec_be_bytes()))
}

/// The storage slot of the entry of the mapping `id` under the encoded key
/// `key_bytes`.
pub fn get_mapping_slot(key_bytes: Vec<u8>, id: U256) -> (slot: U256)
    ensures
        slot == mapping_slot_of(key_bytes@, id),
{
    let mut data = key_bytes;
    let id_bytes = id.to_be_bytes();
    append_bytes(&mut data, id_bytes.as_slice());
    let hash = keccak256(data.as_slice());
    match U256::from_be_bytes(hash.as_slice()) {
        Some(slot) => slot,
        None => U256::from_u64(0),
    }
}

} // verus!
