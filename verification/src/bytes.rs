//! Little-endian integer fields over raw byte buffers.
//!
//! Every multi-byte integer on the wire is little-endian.  The spec functions
//! here say what value a run of bytes denotes and what bytes a value encodes
//! to; the executable readers and writers are proved against them, and the
//! round-trip lemmas connect the two directions.

use vstd::prelude::*;

verus! {

/// The value of the 2 little-endian bytes at `i`.
pub open spec fn spec_le16(b: Seq<u8>, i: int) -> int {
    b[i] + 0x100 * b[i + 1]
}

/// The value of the 4 little-endian bytes at `i`.
pub open spec fn spec_le32(b: Seq<u8>, i: int) -> int {
    b[i] + 0x100 * b[i + 1] + 0x1_0000 * b[i + 2] + 0x100_0000 * b[i + 3]
}

/// The value of the 8 little-endian bytes at `i`.
pub open spec fn spec_le64(b: Seq<u8>, i: int) -> int {
    spec_le32(b, i) + 0x1_0000_0000 * spec_le32(b, i + 4)
}

/// The 2 little-endian bytes encoding `v`.
pub open spec fn spec_le16_bytes(v: u16) -> Seq<u8> {
    seq![(v % 0x100) as u8, (v / 0x100) as u8]
}

/// The 4 little-endian bytes encoding `v`.
pub open spec fn spec_le32_bytes(v: u32) -> Seq<u8> {
    seq![
        (v % 0x100) as u8,
        ((v / 0x100) % 0x100) as u8,
        ((v / 0x1_0000) % 0x100) as u8,
        ((v / 0x100_0000) % 0x100) as u8,
    ]
}

/// The 8 little-endian bytes encoding `v`.
pub open spec fn spec_le64_bytes(v: u64) -> Seq<u8> {
    spec_le32_bytes((v % 0x1_0000_0000) as u32) + spec_le32_bytes((v / 0x1_0000_0000) as u32)
}

/// Reads the 2 little-endian bytes at `i`.
pub fn read_le16(b: &[u8], i: usize) -> (r: u16)
    requires
        i + 2 <= b@.len(),
    ensures
        r == spec_le16(b@, i as int),
{
    let lo = b[i];
    let hi = b[i + 1];
    lo as u16 + (hi as u16) * 0x100
}

/// Reads the 4 little-endian bytes at `i`.
pub fn read_le32(b: &[u8], i: usize) -> (r: u32)
    requires
        i + 4 <= b@.len(),
    ensures
        r == spec_le32(b@, i as int),
{
    let b0 = b[i] as u32;
    let b1 = b[i + 1] as u32;
    let b2 = b[i + 2] as u32;
    let b3 = b[i + 3] as u32;
    b0 + b1 * 0x100 + b2 * 0x1_0000 + b3 * 0x100_0000
}

/// Reads the 8 little-endian bytes at `i`.
pub fn read_le64(b: &[u8], i: usize) -> (r: u64)
    requires
        i + 8 <= b@.len(),
    ensures
        r == spec_le64(b@, i as int),
{
    let n = b.len();
    proof {
        assert(i + 4 <= n);
    }
    let lo = read_le32(b, i) as u64;
    let hi = read_le32(b, i + 4) as u64;
    lo + hi * 0x1_0000_0000
}

/// Appends the 2 little-endian bytes of `v`.
pub fn push_le16(out: &mut Vec<u8>, v: u16)
    ensures
        final(out)@ == old(out)@ + spec_le16_bytes(v),
{
    out.push((v % 0x100) as u8);
    out.push((v / 0x100) as u8);
    proof {
        assert(out@ =~= old(out)@ + spec_le16_bytes(v));
    }
}

/// Appends the 4 little-endian bytes of `v`.
pub fn push_le32(out: &mut Vec<u8>, v: u32)
    ensures
        final(out)@ == old(out)@ + spec_le32_bytes(v),
{
    out.push((v % 0x100) as u8);
    out.push(((v / 0x100) % 0x100) as u8);
    out.push(((v / 0x1_0000) % 0x100) as u8);
    out.push(((v / 0x100_0000) % 0x100) as u8);
    proof {
        assert(out@ =~= old(out)@ + spec_le32_bytes(v));
    }
}

/// Appends the 8 little-endian bytes of `v`.
pub fn push_le64(out: &mut Vec<u8>, v: u64)
    ensures
        final(out)@ == old(out)@ + spec_le64_bytes(v),
{
    push_le32(out, (v % 0x1_0000_0000) as u32);
    push_le32(out, (v / 0x1_0000_0000) as u32);
    proof {
        assert(out@ =~= old(out)@ + spec_le64_bytes(v));
    }
}

/// Reading back the bytes that encode a 16-bit value gives the value.
pub proof fn lemma_le16_round_trip(v: u16)
    ensures
        spec_le16(spec_le16_bytes(v), 0) == v,
{
}

/// Reading back the bytes that encode a 32-bit value gives the value.
pub proof fn lemma_le32_round_trip(v: u32)
    ensures
        spec_le32(spec_le32_bytes(v), 0) == v,
{
}

/// Reading back the bytes that encode a 64-bit value gives the value.
pub proof fn lemma_le64_round_trip(v: u64)
    ensures
        spec_le64(spec_le64_bytes(v), 0) == v,
{
    lemma_le32_round_trip((v % 0x1_0000_0000) as u32);
    lemma_le32_round_trip((v / 0x1_0000_0000) as u32);
}

/// The signed value of the 2 little-endian bytes at `i`: the 16-bit word
/// read as a two's-complement integer.
pub open spec fn spec_le_i16(b: Seq<u8>, i: int) -> i16 {
    (spec_le16(b, i) as u16) as i16
}

/// The signed value of the 4 little-endian bytes at `i`: the 32-bit word
/// read as a two's-complement integer.
pub open spec fn spec_le_i32(b: Seq<u8>, i: int) -> i32 {
    (spec_le32(b, i) as u32) as i32
}

/// Reads the 2 little-endian bytes at `i` as a two's-complement integer.
pub fn read_le_i16(b: &[u8], i: usize) -> (r: i16)
    requires
        i + 2 <= b@.len(),
    ensures
        r == spec_le_i16(b@, i as int),
{
    let v = read_le16(b, i);
    #[verifier::truncate] (v as i16)
}

/// Reads the 4 little-endian bytes at `i` as a two's-complement integer.
pub fn read_le_i32(b: &[u8], i: usize) -> (r: i32)
    requires
        i + 4 <= b@.len(),
    ensures
        r == spec_le_i32(b@, i as int),
{
    let v = read_le32(b, i);
    #[verifier::truncate] (v as i32)
}

/// Appends the 2 little-endian bytes of the two's-complement encoding of `v`.
pub fn push_le_i16(out: &mut Vec<u8>, v: i16)
    ensures
        final(out)@ == old(out)@ + spec_le16_bytes(#[verifier::truncate] (v as u16)),
{
    push_le16(out, #[verifier::truncate] (v as u16));
}

/// Appends the 4 little-endian bytes of the two's-complement encoding of `v`.
pub fn push_le_i32(out: &mut Vec<u8>, v: i32)
    ensures
        final(out)@ == old(out)@ + spec_le32_bytes(#[verifier::truncate] (v as u32)),
{
    push_le32(out, #[verifier::truncate] (v as u32));
}

/// Reading back the two's-complement bytes of a 16-bit value gives the value.
pub proof fn lemma_le_i16_round_trip(v: i16)
    ensures
        spec_le_i16(spec_le16_bytes(#[verifier::truncate] (v as u16)), 0) == v,
{
    lemma_le16_round_trip(#[verifier::truncate] (v as u16));
    assert((v as u16) as i16 == v) by (bit_vector);
}

/// Reading back the two's-complement bytes of a 32-bit value gives the value.
pub proof fn lemma_le_i32_round_trip(v: i32)
    ensures
        spec_le_i32(spec_le32_bytes(#[verifier::truncate] (v as u32)), 0) == v,
{
    lemma_le32_round_trip(#[verifier::truncate] (v as u32));
    assert((v as u32) as i32 == v) by (bit_vector);
}

} // verus!
