//! The values that cross the boundary between the machine and the host:
//! 256-bit words as four 64-bit limbs, and 20-byte addresses.

use vstd::prelude::*;
use crate::bytes::{
    append_bytes, be_u32, be_u64, from_be_u64, u32_to_be_bytes, u64_from_be_bytes, u64_to_be_bytes,
};

verus! {

/// A 256-bit word as four 64-bit limbs, the least significant first.
#[derive(Clone, Copy, Debug, PartialEq, Eq, Structural, Hash)]
pub struct U256 {
    pub l0: u64,
    pub l1: u64,
    pub l2: u64,
    pub l3: u64,
}

/// A 20-byte address: its first eight bytes, its next eight bytes and its
/// last four bytes, each read as a big-endian number.
#[derive(Clone, Copy, Debug, PartialEq, Eq, Structural, Hash)]
pub struct Address {
    pub hi: u64,
    pub mid: u64,
    pub lo: u32,
}

/// The three registers that carry an address to the contract: the first
/// eight bytes, the next eight bytes, and the last four bytes in the upper
/// half of the third register.
pub open spec fn packed(a: Address) -> (u64, u64, u64) {
    (a.hi, a.mid, (a.lo as u64 * 0x1_0000_0000) as u64)
}

/// The address that three such registers carry.
pub open spec fn unpacked(r0: u64, r1: u64, r2: u64) -> Address {
    Address { hi: r0, mid: r1, lo: (r2 / 0x1_0000_0000) as u32 }
}

/// The three lowest limbs of the 256-bit word that holds an address in its
/// 20 lowest bytes.
pub open spec fn word_limbs(a: Address) -> (u64, u64, u64) {
    (
        ((a.mid % 0x1_0000_0000) * 0x1_0000_0000 + a.lo) as u64,
        ((a.hi % 0x1_0000_0000) * 0x1_0000_0000 + a.mid / 0x1_0000_0000) as u64,
        (a.hi / 0x1_0000_0000) as u64,
    )
}

/// The address in the 20 lowest bytes of the word with these three lowest
/// limbs.
pub open spec fn from_word_limbs(a0: u64, a1: u64, a2: u64) -> Address {
    Address {
        hi: ((a2 % 0x1_0000_0000) * 0x1_0000_0000 + a1 / 0x1_0000_0000) as u64,
        mid: ((a1 % 0x1_0000_0000) * 0x1_0000_0000 + a0 / 0x1_0000_0000) as u64,
        lo: (a0 % 0x1_0000_0000) as u32,
    }
}

impl U256 {
    /// The word with the given limbs, the least significant first.
    pub fn from_limbs(l0: u64, l1: u64, l2: u64, l3: u64) -> (w: U256)
        ensures
            w == (U256 { l0, l1, l2, l3 }),
    {
        U256 { l0, l1, l2, l3 }
    }

    /// The word of a 64-bit number.
    pub fn from_u64(n: u64) -> (w: U256)
        ensures
            w == (U256 { l0: n, l1: 0, l2: 0, l3: 0 }),
    {
        U256 { l0: n, l1: 0, l2: 0, l3: 0 }
    }

    /// The 32 big-endian bytes of the word.
    pub open spec fn spec_be_bytes(self) -> Seq<u8> {
        be_u64(self.l3 as nat) + be_u64(self.l2 as nat) + be_u64(self.l1 as nat) + be_u64(
            self.l0 as nat,
        )
    }

    /// The word that 32 big-endian bytes stand for.
    pub open spec fn spec_from_be_bytes(b: Seq<u8>) -> U256
        recommends
            b.len() == 32,
    {
        U256 {
            l0: from_be_u64(b.subrange(24, 32)) as u64,
            l1: from_be_u64(b.subrange(16, 24)) as u64,
            l2: from_be_u64(b.subrange(8, 16)) as u64,
            l3: from_be_u64(b.subrange(0, 8)) as u64,
        }
    }

    /// The 32 big-endian bytes of the word.
    pub fn to_be_bytes(&self) -> (out: Vec<u8>)
        ensures
            out@ == self.spec_be_bytes(),
            out@.len() == 32,
    {
        let mut out = u64_to_be_bytes(self.l3);
        let b2 = u64_to_be_bytes(self.l2);
        let b1 = u64_to_be_bytes(self.l1);
        let b0 = u64_to_be_bytes(self.l0);
        append_bytes(&mut out, b2.as_slice());
        append_bytes(&mut out, b1.as_slice());
        append_bytes(&mut out, b0.as_slice());
        out
    }

    /// The word that 32 big-endian bytes stand for; `None` for another
    /// number of bytes.
    pub fn from_be_bytes(b: &[u8]) -> (r: Option<U256>)
        ensures
            r.is_some() == (b@.len() == 32),
            r matches Some(w) ==> w == U256::spec_from_be_bytes(b@),
    {
        if b.len() != 32 {
            return None;
        }
        Some(
            U256 {
                l0: u64_from_be_bytes(b, 24),
                l1: u64_from_be_bytes(b, 16),
                l2: u64_from_be_bytes(b, 8),
                l3: u64_from_be_bytes(b, 0),
            },
        )
    }
}

impl Address {
    /// The 20 bytes of the address.
    pub open spec fn spec_bytes(self) -> Seq<u8> {
        be_u64(self.hi as nat) + be_u64(self.mid as nat) + be_u32(self.lo as nat)
    }

    /// The address whose bytes are all zero.
    pub fn zero() -> (a: Address)
        ensures
            a == (Address { hi: 0, mid: 0, lo: 0 }),
    {
        Address { hi: 0, mid: 0, lo: 0 }
    }

    /// The 20 bytes of the address.
    pub fn to_bytes(&self) -> (out: Vec<u8>)
        ensures
            out@ == self.spec_bytes(),
            out@.len() == 20,
    {
        let mut out = u64_to_be_bytes(self.hi);
        let mid = u64_to_be_bytes(self.mid);
        let lo = u32_to_be_bytes(self.lo);
        append_bytes(&mut out, mid.as_slice());
        append_bytes(&mut out, lo.as_slice());
        out
    }

    /// The address that 20 bytes stand for; `None` for another number of
    /// bytes.
    pub fn from_bytes(b: &[u8]) -> (r: Option<Address>)
        ensures
            r.is_some() == (b@.len() == 20),
            r matches Some(a) ==> {
                &&& a.hi == from_be_u64(b@.subrange(0, 8))
                &&& a.mid == from_be_u64(b@.subrange(8, 16))
                &&& a.lo == crate::bytes::from_be_u32(b@.subrange(16, 20))
            },
    {
        if b.len() != 20 {
            return None;
        }
        Some(
            Address {
                hi: u64_from_be_bytes(b, 0),
                mid: u64_from_be_bytes(b, 8),
                lo: crate::bytes::u32_from_be_bytes(b, 16),
            },
        )
    }

    /// The three registers that carry the address to the contract.
    pub fn pack(&self) -> (r: (u64, u64, u64))
        ensures
            r == packed(*self),
            unpacked(r.0, r.1, r.2) == *self,
    {
        (self.hi, self.mid, (self.lo as u64) * 0x1_0000_0000)
    }

    /// The address that three registers carry to the contract.
    pub fn unpack(r0: u64, r1: u64, r2: u64) -> (a: Address)
        ensures
            a == unpacked(r0, r1, r2),
    {
        Address { hi: r0, mid: r1, lo: (r2 / 0x1_0000_0000) as u32 }
    }

    /// The three lowest limbs of the word that holds the address.
    pub fn to_word_limbs(&self) -> (r: (u64, u64, u64))
        ensures
            r == word_limbs(*self),
            from_word_limbs(r.0, r.1, r.2) == *self,
    {
        (
            (self.mid % 0x1_0000_0000) * 0x1_0000_0000 + self.lo as u64,
            (self.hi % 0x1_0000_0000) * 0x1_0000_0000 + self.mid / 0x1_0000_0000,
            self.hi / 0x1_0000_0000,
        )
    }

    /// The address in the 20 lowest bytes of the word with the three lowest
    /// limbs `a0`, `a1` and `a2`; the upper half of `a2` is not part of it.
    pub fn from_word(a0: u64, a1: u64, a2: u64) -> (a: Address)
        ensures
            a == from_word_limbs(a0, a1, a2),
    {
        Address {
            hi: (a2 % 0x1_0000_0000) * 0x1_0000_0000 + a1 / 0x1_0000_0000,
            mid: (a1 % 0x1_0000_0000) * 0x1_0000_0000 + a0 / 0x1_0000_0000,
            lo: (a0 % 0x1_0000_0000) as u32,
        }
    }
}

/// Packing an address into three registers and unpacking them gives the
/// address back, in both conventions: that of the registers that carry an
/// address to the contract, and that of the limbs of a word that carry one to
/// the host.
pub proof fn lemma_address_round_trip(a: Address)
    ensures
        unpacked(packed(a).0, packed(a).1, packed(a).2) == a,
        from_word_limbs(word_limbs(a).0, word_limbs(a).1, word_limbs(a).2) == a,
{
}

} // verus!
