//! Big-endian and little-endian integer encodings used by the wire formats.
use vstd::prelude::*;

verus! {

/// Value of a big-endian 16-bit word made of `hi` and `lo`.
pub open spec fn be16(hi: u8, lo: u8) -> int {
    hi as int * 256 + lo as int
}

/// Reads the big-endian 16-bit word that starts at `at`.
pub open spec fn be16_at(s: Seq<u8>, at: int) -> int {
    be16(s[at], s[at + 1])
}

/// Reads the big-endian 32-bit word that starts at `at`.
pub open spec fn be32_at(s: Seq<u8>, at: int) -> int {
    be16_at(s, at) * 65536 + be16_at(s, at + 2)
}

/// The 16-bit word that holds `x` (its low 16 bits).
pub open spec fn word16(x: int) -> u16 {
    x as u16
}

/// The 32-bit word that holds `x` (its low 32 bits).
pub open spec fn word32(x: int) -> u32 {
    x as u32
}

/// The two bytes of `v`, most significant first.
pub open spec fn spec_u16_be(v: u16) -> Seq<u8> {
    seq![(v / 256) as u8, (v % 256) as u8]
}

/// The four bytes of `v`, most significant first.
pub open spec fn spec_u32_be(v: u32) -> Seq<u8> {
    seq![
        (v / 0x100_0000) as u8,
        ((v / 0x1_0000) % 256) as u8,
        ((v / 256) % 256) as u8,
        (v % 256) as u8,
    ]
}

/// Reads the little-endian 16-bit word that starts at `at`.
pub open spec fn le16_at(s: Seq<u8>, at: int) -> int {
    s[at] + s[at + 1] * 0x100
}

/// Reads the little-endian 32-bit word that starts at `at`.
pub open spec fn le32_at(s: Seq<u8>, at: int) -> int {
    s[at] + s[at + 1] * 0x100 + s[at + 2] * 0x1_0000 + s[at + 3] * 0x100_0000
}

/// Reads the little-endian 64-bit word that starts at `at`.
pub open spec fn le64_at(s: Seq<u8>, at: int) -> int {
    le32_at(s, at) + le32_at(s, at + 4) * 0x1_0000_0000
}

/// Reads the little-endian 16-bit word at `at` of `s`.
pub fn u16_le_at(s: &[u8], at: usize) -> (r: u16)
    requires
        at + 2 <= s@.len(),
    ensures
        r == le16_at(s@, at as int),
{
    let _n = s.len();
    u16_from_be(s[at + 1], s[at])
}

/// Reads the little-endian 32-bit word at `at` of `s`.
pub fn u32_le_at(s: &[u8], at: usize) -> (r: u32)
    requires
        at + 4 <= s@.len(),
    ensures
        r == le32_at(s@, at as int),
{
    let b0 = s[at] as u32;
    let b1 = s[at + 1] as u32;
    let b2 = s[at + 2] as u32;
    let b3 = s[at + 3] as u32;
    assert(b0 | (b1 << 8) | (b2 << 16) | (b3 << 24) == b0 + b1 * 0x100 + b2 * 0x1_0000 + b3 * 0x100_0000) by (bit_vector)
        requires
            b0 < 256,
            b1 < 256,
            b2 < 256,
            b3 < 256,
    ;
    b0 | (b1 << 8) | (b2 << 16) | (b3 << 24)
}

/// Reads the little-endian 64-bit word at `at` of `s`.
pub fn u64_le_at(s: &[u8], at: usize) -> (r: u64)
    requires
        at + 8 <= s@.len(),
    ensures
        r == le64_at(s@, at as int),
{
    let _n = s.len();
    let lo = u32_le_at(s, at) as u64;
    let hi = u32_le_at(s, at + 4) as u64;
    assert(lo | (hi << 32) == lo + hi * 0x1_0000_0000) by (bit_vector)
        requires
            lo <= 0xffff_ffff,
            hi <= 0xffff_ffff,
    ;
    lo | (hi << 32)
}

/// Builds a `u16` from two big-endian bytes.
pub fn u16_from_be(hi: u8, lo: u8) -> (r: u16)
    ensures
        r == be16(hi, lo),
{
    let r = ((hi as u16) << 8) | (lo as u16);
    assert(((hi as u16) << 8) | (lo as u16) == hi as u16 * 256 + lo as u16) by (bit_vector);
    r
}

/// Builds a `u32` from four big-endian bytes.
pub fn u32_from_be(b0: u8, b1: u8, b2: u8, b3: u8) -> (r: u32)
    ensures
        r == be16(b0, b1) * 65536 + be16(b2, b3),
{
    let hi = u16_from_be(b0, b1);
    let lo = u16_from_be(b2, b3);
    let r = ((hi as u32) << 16) | (lo as u32);
    assert(((hi as u32) << 16) | (lo as u32) == hi as u32 * 65536 + lo as u32) by (bit_vector);
    r
}

/// Splits a `u16` into its big-endian bytes.
pub fn u16_to_be(v: u16) -> (r: [u8; 2])
    ensures
        r@ == spec_u16_be(v),
{
    let hi = (v >> 8) as u8;
    let lo = (v & 0xff) as u8;
    assert(v >> 8 == v / 256) by (bit_vector);
    assert(v & 0xff == v % 256) by (bit_vector);
    let r = [hi, lo];
    assert(r@ =~= spec_u16_be(v));
    r
}

/// Splits a `u32` into its big-endian bytes.
pub fn u32_to_be(v: u32) -> (r: [u8; 4])
    ensures
        r@ == spec_u32_be(v),
{
    assert(v >> 24 == v / 0x100_0000) by (bit_vector);
    assert((v >> 16) & 0xff == (v / 0x1_0000) % 256) by (bit_vector);
    assert((v >> 8) & 0xff == (v / 256) % 256) by (bit_vector);
    assert(v & 0xff == v % 256) by (bit_vector);
    let r = [(v >> 24) as u8, ((v >> 16) & 0xff) as u8, ((v >> 8) & 0xff) as u8, (v & 0xff) as u8];
    assert(r@ =~= spec_u32_be(v));
    r
}

/// Narrows a length that is known to fit in 16 bits.
pub fn usize_to_u16(x: usize) -> (r: u16)
    requires
        x <= 0xffff,
    ensures
        r == x,
{
    x as u16
}

/// Narrows a length that is known to fit in 32 bits.
pub fn usize_to_u32(x: usize) -> (r: u32)
    requires
        x <= 0xffff_ffff,
    ensures
        r == x,
{
    x as u32
}

/// The 32-bit word whose high half is `hi` and low half `lo`.
pub fn u32_from_halves(hi: u16, lo: u16) -> (r: u32)
    ensures
        r == hi * 0x1_0000 + lo,
{
    assert(((hi as u32) << 16) | (lo as u32) == hi as u32 * 0x1_0000 + lo as u32) by (bit_vector);
    ((hi as u32) << 16) | (lo as u32)
}

/// The high 16 bits of `v`.
pub fn u32_high_half(v: u32) -> (r: u16)
    ensures
        r == v / 0x1_0000,
{
    assert(v >> 16 == v / 0x1_0000) by (bit_vector);
    (v >> 16) as u16
}

/// The low 16 bits of `v`.
pub fn u32_low_half(v: u32) -> (r: u16)
    ensures
        r == v % 0x1_0000,
{
    assert(v & 0xffff == v % 0x1_0000) by (bit_vector);
    (v & 0xffff) as u16
}

/// Decoding the encoding of a `u16` gives the value back.
pub proof fn lemma_u16_be_roundtrip(v: u16)
    ensures
        be16(spec_u16_be(v)[0], spec_u16_be(v)[1]) == v,
{
}

/// Decoding the encoding of a `u32` gives the value back.
pub proof fn lemma_u32_be_roundtrip(v: u32)
    ensures
        be16(spec_u32_be(v)[0], spec_u32_be(v)[1]) * 65536 + be16(spec_u32_be(v)[2], spec_u32_be(v)[3]) == v,
{
}

/// Encoding the value of two bytes gives the bytes back.
pub proof fn lemma_be16_inverse(hi: u8, lo: u8)
    ensures
        0 <= be16(hi, lo) <= 0xffff,
        spec_u16_be(be16(hi, lo) as u16) == seq![hi, lo],
{
    assert(spec_u16_be(be16(hi, lo) as u16) =~= seq![hi, lo]);
}

} // verus!
