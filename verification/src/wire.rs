//! Big-endian integers as bytes.
use vstd::prelude::*;

verus! {

/// The 16-bit integer whose big-endian bytes are `hi`, `lo`.
pub open spec fn be16(hi: u8, lo: u8) -> u16 {
    (hi as int * 256 + lo as int) as u16
}

/// The two big-endian bytes of `x`.
pub open spec fn be16_seq(x: u16) -> Seq<u8> {
    seq![(x / 256) as u8, (x % 256) as u8]
}

/// The 32-bit integer whose big-endian bytes are `b0` to `b3`.
pub open spec fn be32(b0: u8, b1: u8, b2: u8, b3: u8) -> u32 {
    (be16(b0, b1) as int * 0x1_0000 + be16(b2, b3) as int) as u32
}

/// The four big-endian bytes of `x`.
pub open spec fn be32_seq(x: u32) -> Seq<u8> {
    be16_seq((x / 0x1_0000) as u16) + be16_seq((x % 0x1_0000) as u16)
}

/// The 64-bit integer whose big-endian bytes are the eight bytes of `s`.
pub open spec fn be64(s: Seq<u8>) -> u64 {
    (be32(s[0], s[1], s[2], s[3]) as int * 0x1_0000_0000 + be32(s[4], s[5], s[6], s[7]) as int) as u64
}

/// The eight big-endian bytes of `x`.
pub open spec fn be64_seq(x: u64) -> Seq<u8> {
    be32_seq((x / 0x1_0000_0000) as u32) + be32_seq((x % 0x1_0000_0000) as u32)
}

/// `n` zero bytes.
pub open spec fn zeros(n: nat) -> Seq<u8> {
    Seq::new(n, |i: int| 0u8)
}

pub fn u16_from_be(hi: u8, lo: u8) -> (x: u16)
    ensures
        x == be16(hi, lo),
        be16_seq(x) == seq![hi, lo],
{
    let x: u16 = hi as u16 * 256 + lo as u16;
    assert(be16_seq(x) =~= seq![hi, lo]);
    x
}

pub fn u16_be_bytes(x: u16) -> (b: [u8; 2])
    ensures
        b@ == be16_seq(x),
        be16(b@[0], b@[1]) == x,
{
    let b: [u8; 2] = [(x / 256) as u8, (x % 256) as u8];
    assert(b@ =~= be16_seq(x));
    b
}

pub fn u32_from_be(b0: u8, b1: u8, b2: u8, b3: u8) -> (x: u32)
    ensures
        x == be32(b0, b1, b2, b3),
        be32_seq(x) == seq![b0, b1, b2, b3],
{
    let hi = u16_from_be(b0, b1);
    let lo = u16_from_be(b2, b3);
    let x: u32 = hi as u32 * 0x1_0000 + lo as u32;
    assert((x / 0x1_0000) as u16 == hi && (x % 0x1_0000) as u16 == lo);
    assert(be32_seq(x) =~= seq![b0, b1, b2, b3]);
    x
}

pub fn u32_be_bytes(x: u32) -> (b: [u8; 4])
    ensures
        b@ == be32_seq(x),
        be32(b@[0], b@[1], b@[2], b@[3]) == x,
{
    let hi = u16_be_bytes((x / 0x1_0000) as u16);
    let lo = u16_be_bytes((x % 0x1_0000) as u16);
    let b: [u8; 4] = [hi[0], hi[1], lo[0], lo[1]];
    assert(b@ =~= be32_seq(x));
    b
}

pub fn u64_from_be(b: &[u8; 8]) -> (x: u64)
    ensures
        x == be64(b@),
        be64_seq(x) == b@,
{
    let hi = u32_from_be(b[0], b[1], b[2], b[3]);
    let lo = u32_from_be(b[4], b[5], b[6], b[7]);
    let x: u64 = hi as u64 * 0x1_0000_0000 + lo as u64;
    assert((x / 0x1_0000_0000) as u32 == hi && (x % 0x1_0000_0000) as u32 == lo);
    assert(be64_seq(x) =~= b@);
    x
}

pub fn u64_be_bytes(x: u64) -> (b: [u8; 8])
    ensures
        b@ == be64_seq(x),
        be64(b@) == x,
{
    let hi = u32_be_bytes((x / 0x1_0000_0000) as u32);
    let lo = u32_be_bytes((x % 0x1_0000_0000) as u32);
    let b: [u8; 8] = [hi[0], hi[1], hi[2], hi[3], lo[0], lo[1], lo[2], lo[3]];
    assert(b@ =~= be64_seq(x));
    b
}

/// Copies `src` over `dst`.
pub fn copy_into(dst: &mut [u8], src: &[u8])
    requires
        old(dst)@.len() == src@.len(),
    ensures
        final(dst)@ == src@,
{
    let mut i: usize = 0;
    while i < src.len()
        invariant
            i <= src@.len(),
            dst@.len() == src@.len(),
            dst@.subrange(0, i as int) == src@.subrange(0, i as int),
        decreases src@.len() - i,
    {
        dst[i] = src[i];
        assert(dst@.subrange(0, i as int + 1) =~= src@.subrange(0, i as int + 1));
        i += 1;
    }
    assert(dst@.subrange(0, src@.len() as int) =~= dst@);
    assert(src@.subrange(0, src@.len() as int) =~= src@);
}

/// Copies `src` into `dst` from `at` on.
pub fn copy_at(dst: &mut [u8], at: usize, src: &[u8])
    requires
        at + src@.len() <= old(dst)@.len(),
    ensures
        final(dst)@ == old(dst)@.take(at as int) + src@ + old(dst)@.skip(at + src@.len()),
{
    let len = dst.len();
    let mut i: usize = 0;
    while i < src.len()
        invariant
            i <= src@.len(),
            at + src@.len() <= len,
            dst@.len() == len,
            dst@.len() == old(dst)@.len(),
            forall|j: int| 0 <= j < at ==> dst@[j] == old(dst)@[j],
            forall|j: int| 0 <= j < i ==> dst@[at + j] == src@[j],
            forall|j: int| at + i <= j < dst@.len() ==> dst@[j] == old(dst)@[j],
        decreases src@.len() - i,
    {
        dst[at + i] = src[i];
        i += 1;
    }
    assert(dst@ =~= old(dst)@.take(at as int) + src@ + old(dst)@.skip(at + src@.len()));
}

/// Sets every byte of `dst` to zero.
pub fn fill_zero(dst: &mut [u8])
    ensures
        final(dst)@ == zeros(old(dst)@.len()),
{
    let mut i: usize = 0;
    while i < dst.len()
        invariant
            i <= dst@.len(),
            dst@.len() == old(dst)@.len(),
            forall|j: int| 0 <= j < i ==> dst@[j] == 0,
        decreases dst@.len() - i,
    {
        dst[i] = 0;
        i += 1;
    }
    assert(dst@ =~= zeros(old(dst)@.len()));
}

} // verus!
