//! Small verified helpers on byte strings and fixed-width numbers.

use vstd::prelude::*;

verus! {

/// The big-endian bytes of a 32-bit number.
pub open spec fn be_u32(n: nat) -> Seq<u8> {
    seq![
        ((n / 0x100_0000) % 0x100) as u8,
        ((n / 0x1_0000) % 0x100) as u8,
        ((n / 0x100) % 0x100) as u8,
        (n % 0x100) as u8,
    ]
}

/// The number that four big-endian bytes stand for.
pub open spec fn from_be_u32(b: Seq<u8>) -> nat
    recommends
        b.len() == 4,
{
    (b[0] as nat) * 0x100_0000 + (b[1] as nat) * 0x1_0000 + (b[2] as nat) * 0x100 + (b[3] as nat)
}

/// The little-endian bytes of a 64-bit number.
pub open spec fn le_u64(n: nat) -> Seq<u8> {
    Seq::new(8, |i: int| ((n / pow256(i as nat)) % 0x100) as u8)
}

/// 256 to the power `e`, for the exponents that a 64-bit number needs.
pub open spec fn pow256(e: nat) -> nat {
    if e == 0 {
        1
    } else if e == 1 {
        0x100
    } else if e == 2 {
        0x1_0000
    } else if e == 3 {
        0x100_0000
    } else if e == 4 {
        0x1_0000_0000
    } else if e == 5 {
        0x100_0000_0000
    } else if e == 6 {
        0x1_0000_0000_0000
    } else {
        0x100_0000_0000_0000
    }
}

/// The number that eight little-endian bytes stand for.
pub open spec fn from_le_u64(b: Seq<u8>) -> nat
    recommends
        b.len() == 8,
{
    (b[0] as nat) + (b[1] as nat) * pow256(1) + (b[2] as nat) * pow256(2) + (b[3] as nat) * pow256(
        3,
    ) + (b[4] as nat) * pow256(4) + (b[5] as nat) * pow256(5) + (b[6] as nat) * pow256(6) + (
    b[7] as nat) * pow256(7)
}

/// The number that eight big-endian bytes stand for.
pub open spec fn from_be_u64(b: Seq<u8>) -> nat
    recommends
        b.len() == 8,
{
    (b[7] as nat) + (b[6] as nat) * pow256(1) + (b[5] as nat) * pow256(2) + (b[4] as nat) * pow256(
        3,
    ) + (b[3] as nat) * pow256(4) + (b[2] as nat) * pow256(5) + (b[1] as nat) * pow256(6) + (
    b[0] as nat) * pow256(7)
}

/// Reading back the big-endian bytes of a 32-bit number gives the number.
pub proof fn lemma_be_u32_round_trip(n: nat)
    requires
        n <= u32::MAX,
    ensures
        be_u32(n).len() == 4,
        from_be_u32(be_u32(n)) == n,
{
}

/// Reading back the little-endian bytes of a 64-bit number gives the number.
#[verifier::rlimit(50)]
pub proof fn lemma_le_u64_round_trip(n: nat)
    requires
        n <= u64::MAX,
    ensures
        le_u64(n).len() == 8,
        from_le_u64(le_u64(n)) == n,
{
    let q1 = n / 0x100;
    let q2 = q1 / 0x100;
    let q3 = q2 / 0x100;
    let q4 = q3 / 0x100;
    let q5 = q4 / 0x100;
    let q6 = q5 / 0x100;
    let q7 = q6 / 0x100;
    assert(n / 0x1_0000 == q2);
    assert(n / 0x100_0000 == q3);
    assert(n / 0x1_0000_0000 == q4);
    assert(n / 0x100_0000_0000 == q5);
    assert(n / 0x1_0000_0000_0000 == q6);
    assert(n / 0x100_0000_0000_0000 == q7);
    assert(q7 < 0x100);
    let b = le_u64(n);
    assert(b[0] as nat == n % 0x100);
    assert(b[1] as nat == q1 % 0x100);
    assert(b[2] as nat == q2 % 0x100);
    assert(b[3] as nat == q3 % 0x100);
    assert(b[4] as nat == q4 % 0x100);
    assert(b[5] as nat == q5 % 0x100);
    assert(b[6] as nat == q6 % 0x100);
    assert(b[7] as nat == q7);
    assert(q6 == q7 * 0x100 + q6 % 0x100);
    assert(q5 == q6 * 0x100 + q5 % 0x100);
    assert(q4 == q5 * 0x100 + q4 % 0x100);
    assert(q3 == q4 * 0x100 + q3 % 0x100);
    assert(q2 == q3 * 0x100 + q2 % 0x100);
    assert(q1 == q2 * 0x100 + q1 % 0x100);
    assert(n == q1 * 0x100 + n % 0x100);
}

/// Writes a 32-bit number as four big-endian bytes.
pub fn u32_to_be_bytes(n: u32) -> (out: Vec<u8>)
    ensures
        out@ == be_u32(n as nat),
{
    let mut out: Vec<u8> = Vec::new();
    out.push(((n / 0x100_0000) % 0x100) as u8);
    out.push(((n / 0x1_0000) % 0x100) as u8);
    out.push(((n / 0x100) % 0x100) as u8);
    out.push((n % 0x100) as u8);
    assert(out@ =~= be_u32(n as nat));
    out
}

/// Reads four big-endian bytes at `at` as a 32-bit number.
pub fn u32_from_be_bytes(b: &[u8], at: usize) -> (n: u32)
    requires
        at + 4 <= b@.len(),
    ensures
        n as nat == from_be_u32(b@.subrange(at as int, at + 4)),
{
    let b0: u32 = b[at] as u32;
    let b1: u32 = b[at + 1] as u32;
    let b2: u32 = b[at + 2] as u32;
    let b3: u32 = b[at + 3] as u32;
    b0 * 0x100_0000 + b1 * 0x1_0000 + b2 * 0x100 + b3
}

/// Writes a 64-bit number as eight little-endian bytes.
pub fn u64_to_le_bytes(n: u64) -> (out: Vec<u8>)
    ensures
        out@ == le_u64(n as nat),
{
    let mut out: Vec<u8> = Vec::new();
    out.push((n % 0x100) as u8);
    out.push(((n / 0x100) % 0x100) as u8);
    out.push(((n / 0x1_0000) % 0x100) as u8);
    out.push(((n / 0x100_0000) % 0x100) as u8);
    out.push(((n / 0x1_0000_0000) % 0x100) as u8);
    out.push(((n / 0x100_0000_0000) % 0x100) as u8);
    out.push(((n / 0x1_0000_0000_0000) % 0x100) as u8);
    out.push(((n / 0x100_0000_0000_0000) % 0x100) as u8);
    assert(out@ =~= le_u64(n as nat));
    out
}

/// Reads eight big-endian bytes at `at` as a 64-bit number.
pub fn u64_from_be_bytes(b: &[u8], at: usize) -> (n: u64)
    requires
        at + 8 <= b@.len(),
    ensures
        n as nat == from_be_u64(b@.subrange(at as int, at + 8)),
{
    let b0: u64 = b[at] as u64;
    let b1: u64 = b[at + 1] as u64;
    let b2: u64 = b[at + 2] as u64;
    let b3: u64 = b[at + 3] as u64;
    let b4: u64 = b[at + 4] as u64;
    let b5: u64 = b[at + 5] as u64;
    let b6: u64 = b[at + 6] as u64;
    let b7: u64 = b[at + 7] as u64;
    b7 + b6 * 0x100 + b5 * 0x1_0000 + b4 * 0x100_0000 + b3 * 0x1_0000_0000 + b2 * 0x100_0000_0000
        + b1 * 0x1_0000_0000_0000 + b0 * 0x100_0000_0000_0000
}

/// The big-endian bytes of a 64-bit number.
pub open spec fn be_u64(n: nat) -> Seq<u8> {
    Seq::new(8, |i: int| ((n / pow256((7 - i) as nat)) % 0x100) as u8)
}

/// Writes a 64-bit number as eight big-endian bytes.
pub fn u64_to_be_bytes(n: u64) -> (out: Vec<u8>)
    ensures
        out@ == be_u64(n as nat),
{
    let mut out: Vec<u8> = Vec::new();
    out.push(((n / 0x100_0000_0000_0000) % 0x100) as u8);
    out.push(((n / 0x1_0000_0000_0000) % 0x100) as u8);
    out.push(((n / 0x100_0000_0000) % 0x100) as u8);
    out.push(((n / 0x1_0000_0000) % 0x100) as u8);
    out.push(((n / 0x100_0000) % 0x100) as u8);
    out.push(((n / 0x1_0000) % 0x100) as u8);
    out.push(((n / 0x100) % 0x100) as u8);
    out.push((n % 0x100) as u8);
    assert(out@ =~= be_u64(n as nat));
    out
}

/// Reading back the big-endian bytes of a 64-bit number gives the number.
#[verifier::rlimit(50)]
pub proof fn lemma_be_u64_round_trip(n: nat)
    requires
        n <= u64::MAX,
    ensures
        be_u64(n).len() == 8,
        from_be_u64(be_u64(n)) == n,
{
    let q1 = n / 0x100;
    let q2 = q1 / 0x100;
    let q3 = q2 / 0x100;
    let q4 = q3 / 0x100;
    let q5 = q4 / 0x100;
    let q6 = q5 / 0x100;
    let q7 = q6 / 0x100;
    assert(n / 0x1_0000 == q2);
    assert(n / 0x100_0000 == q3);
    assert(n / 0x1_0000_0000 == q4);
    assert(n / 0x100_0000_0000 == q5);
    assert(n / 0x1_0000_0000_0000 == q6);
    assert(n / 0x100_0000_0000_0000 == q7);
    assert(q7 < 0x100);
    let b = be_u64(n);
    assert(b[7] as nat == n % 0x100);
    assert(b[6] as nat == q1 % 0x100);
    assert(b[5] as nat == q2 % 0x100);
    assert(b[4] as nat == q3 % 0x100);
    assert(b[3] as nat == q4 % 0x100);
    assert(b[2] as nat == q5 % 0x100);
    assert(b[1] as nat == q6 % 0x100);
    assert(b[0] as nat == q7);
    assert(q6 == q7 * 0x100 + q6 % 0x100);
    assert(q5 == q6 * 0x100 + q5 % 0x100);
    assert(q4 == q5 * 0x100 + q4 % 0x100);
    assert(q3 == q4 * 0x100 + q3 % 0x100);
    assert(q2 == q3 * 0x100 + q2 % 0x100);
    assert(q1 == q2 * 0x100 + q1 % 0x100);
    assert(n == q1 * 0x100 + n % 0x100);
}

/// Copies the bytes of `src` from `from` up to `to` into a new vector.
pub fn copy_range(src: &[u8], from: usize, to: usize) -> (out: Vec<u8>)
    requires
        from <= to <= src@.len(),
    ensures
        out@ == src@.subrange(from as int, to as int),
{
    let mut out: Vec<u8> = Vec::new();
    let mut i: usize = from;
    while i < to
        invariant
            from <= i <= to <= src@.len(),
            out@ == src@.subrange(from as int, i as int),
        decreases to - i,
    {
        out.push(src[i]);
        i += 1;
        assert(out@ =~= src@.subrange(from as int, i as int));
    }
    out
}

/// Appends every byte of `src` to `dst`.
pub fn append_bytes(dst: &mut Vec<u8>, src: &[u8])
    ensures
        final(dst)@ == old(dst)@ + src@,
{
    let mut i: usize = 0;
    while i < src.len()
        invariant
            i <= src@.len(),
            dst@ == old(dst)@ + src@.subrange(0, i as int),
        decreases src@.len() - i,
    {
        dst.push(src[i]);
        i += 1;
        assert(dst@ =~= old(dst)@ + src@.subrange(0, i as int));
    }
    assert(src@.subrange(0, src@.len() as int) =~= src@);
}

} // verus!
