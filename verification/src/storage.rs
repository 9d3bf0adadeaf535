//! The storage of a contract and the types that lay it out: single slots,
//! and mappings whose entries lie at the hash of the key and the mapping's
//! own slot.

use vstd::prelude::*;
use crate::primitives::U256;
use crate::testkit::{get_mapping_slot, mapping_slot_of};

verus! {

/// The storage of one contract: a value for every slot, zero where nothing
/// was written.
pub struct Storage {
    /// What was written, in the order of the writes.
    pub writes: Vec<(U256, U256)>,
}

/// The word whose limbs are all zero.
pub open spec fn zero_word() -> U256 {
    U256 { l0: 0, l1: 0, l2: 0, l3: 0 }
}

/// The value that a slot holds after a list of writes.
pub open spec fn value_after(writes: Seq<(U256, U256)>, key: U256) -> U256
    decreases writes.len(),
{
    if writes.len() == 0 {
        zero_word()
    } else if writes.last().0 == key {
        writes.last().1
    } else {
        value_after(writes.drop_last(), key)
    }
}

impl Storage {
    /// The value of the slot `key`.
    pub open spec fn spec_load(&self, key: U256) -> U256 {
        value_after(self.writes@, key)
    }

    /// A storage in which nothing was written.
    pub fn new() -> (s: Storage)
        ensures
            forall|key: U256| s.spec_load(key) == zero_word(),
    {
        Storage { writes: Vec::new() }
    }

    /// Reads the slot `key`.
    pub fn load(&self, key: U256) -> (value: U256)
        ensures
            value == self.spec_load(key),
    {
        let mut i: usize = self.writes.len();
        assert(self.writes@.subrange(0, i as int) =~= self.writes@);
        while i > 0
            invariant
                i <= self.writes@.len(),
                self.spec_load(key) == value_after(self.writes@.subrange(0, i as int), key),
            decreases i,
        {
            proof {
                let upto = self.writes@.subrange(0, i as int);
                assert(upto.drop_last() =~= self.writes@.subrange(0, i - 1));
                assert(upto.last() == self.writes@[i - 1]);
            }
            if self.writes[i - 1].0 == key {
                return self.writes[i - 1].1;
            }
            i -= 1;
        }
        U256::from_u64(0)
    }

    /// Writes `value` to the slot `key`; every other slot stays as it is.
    pub fn store(&mut self, key: U256, value: U256)
        ensures
            final(self).spec_load(key) == value,
            forall|other: U256| other != key ==> final(self).spec_load(other) == old(self).spec_load(other),
    {
        let ghost before = self.writes@;
        self.writes.push((key, value));
        assert(self.writes@.drop_last() =~= before);
    }
}

/// A storage type that takes one slot of the layout of a contract.
pub trait StorageLayout: Sized {
    /// The value of the type at the slot with the given limbs, the least
    /// significant first.
    fn allocate(limb0: u64, limb1: u64, limb2: u64, limb3: u64) -> Self;
}

/// A value that takes a single slot.
#[derive(Clone, Copy, Debug, PartialEq, Eq, Structural)]
pub struct Slot {
    /// The slot.
    pub id: U256,
}

/// A mapping: each of its entries lies in a slot of its own.
#[derive(Clone, Copy, Debug, PartialEq, Eq, Structural)]
pub struct Mapping {
    /// The slot of the mapping, which none of its entries takes.
    pub id: U256,
}

impl StorageLayout for Slot {
    fn allocate(limb0: u64, limb1: u64, limb2: u64, limb3: u64) -> (s: Slot)
        ensures
            s.id == (U256 { l0: limb0, l1: limb1, l2: limb2, l3: limb3 }),
    {
        Slot { id: U256::from_limbs(limb0, limb1, limb2, limb3) }
    }
}

impl StorageLayout for Mapping {
    fn allocate(limb0: u64, limb1: u64, limb2: u64, limb3: u64) -> (m: Mapping)
        ensures
            m.id == (U256 { l0: limb0, l1: limb1, l2: limb2, l3: limb3 }),
    {
        Mapping { id: U256::from_limbs(limb0, limb1, limb2, limb3) }
    }
}

impl Slot {
    /// Reads the value.
    pub fn read(&self, storage: &Storage) -> (value: U256)
        ensures
            value == storage.spec_load(self.id),
    {
        storage.load(self.id)
    }

    /// Writes the value.
    pub fn write(&self, storage: &mut Storage, value: U256)
        ensures
            final(storage).spec_load(self.id) == value,
            forall|other: U256|
                other != self.id ==> final(storage).spec_load(other) == old(storage).spec_load(
                    other,
                ),
    {
        storage.store(self.id, value);
    }
}

impl Mapping {
    /// The slot of the entry under the encoded key `key`.
    pub fn encode_key(&self, key: &[u8]) -> (slot: U256)
        ensures
            slot == mapping_slot_of(key@, self.id),
    {
        let key_bytes = crate::bytes::copy_range(key, 0, key.len());
        assert(key@.subrange(0, key@.len() as int) =~= key@);
        get_mapping_slot(key_bytes, self.id)
    }

    /// Reads the entry under the encoded key `key`.
    pub fn read(&self, storage: &Storage, key: &[u8]) -> (value: U256)
        ensures
            value == storage.spec_load(mapping_slot_of(key@, self.id)),
    {
        storage.load(self.encode_key(key))
    }

    /// Writes the entry under the encoded key `key`.
    pub fn write(&self, storage: &mut Storage, key: &[u8], value: U256)
        ensures
            final(storage).spec_load(mapping_slot_of(key@, self.id)) == value,
            forall|other: U256|
                other != mapping_slot_of(key@, self.id) ==> final(storage).spec_load(other) == old(
                    storage,
                ).spec_load(other),
    {
        let slot = self.encode_key(key);
        storage.store(slot, value);
    }
}

} // verus!
