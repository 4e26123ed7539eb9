//! Little-endian field readers and writers for the fixed-width record and
//! payload layouts.
//!
//! Records and payloads are field-order-significant byte blobs: every field
//! is stored at a fixed offset with a fixed width and no padding. Unsigned
//! fields use the host's little-endian encoding from `vstd::bytes`; signed
//! 64-bit fields are stored as their two's-complement bits.

use vstd::prelude::*;
use vstd::bytes::*;
use vstd::slice::slice_index_get;
use vstd::slice::slice_subrange;
use crate::accounts::Pubkey;

verus! {

/// The two's-complement bits of a signed 64-bit value.
pub open spec fn spec_i64_to_bits(x: i64) -> u64 {
    if x >= 0 {
        x as u64
    } else {
        (x + 0x1_0000_0000_0000_0000) as u64
    }
}

/// The signed 64-bit value with the given two's-complement bits.
pub open spec fn spec_i64_from_bits(b: u64) -> i64 {
    if b <= i64::MAX as u64 {
        b as i64
    } else {
        (b - 0x1_0000_0000_0000_0000) as i64
    }
}

/// Bit conversion inverts itself: every signed value survives the trip
/// through its two's-complement bits.
pub proof fn lemma_i64_bits_roundtrip(x: i64)
    ensures
        spec_i64_from_bits(spec_i64_to_bits(x)) == x,
{
}

/// The little-endian bytes of a signed 64-bit value.
pub open spec fn spec_i64_to_le_bytes(x: i64) -> Seq<u8> {
    spec_u64_to_le_bytes(spec_i64_to_bits(x))
}

/// The signed 64-bit value stored in 8 little-endian bytes.
pub open spec fn spec_i64_from_le_bytes(s: Seq<u8>) -> i64 {
    spec_i64_from_bits(spec_u64_from_le_bytes(s))
}

/// True of a byte that stores a boolean: anything else is a corrupt record.
pub open spec fn is_bool_byte(b: u8) -> bool {
    b == 0 || b == 1
}

/// The byte that stores a boolean.
pub open spec fn spec_bool_to_byte(b: bool) -> u8 {
    if b {
        1
    } else {
        0
    }
}

pub fn i64_to_bits(x: i64) -> (b: u64)
    ensures
        b == spec_i64_to_bits(x),
{
    if x >= 0 {
        x as u64
    } else {
        let neg: i64 = -(x + 1);
        u64::MAX - (neg as u64)
    }
}

pub fn i64_from_bits(b: u64) -> (x: i64)
    ensures
        x == spec_i64_from_bits(b),
{
    if b <= i64::MAX as u64 {
        b as i64
    } else {
        let neg: u64 = u64::MAX - b;
        -(neg as i64) - 1
    }
}

/// Copies the 32 bytes at `off` out as an identity.
pub fn read_pubkey(bytes: &[u8], off: usize) -> (p: Pubkey)
    requires
        off + 32 <= bytes@.len(),
    ensures
        p@ == bytes@.subrange(off as int, off + 32),
{
    let n: usize = bytes.len();
    let mut p: Pubkey = [0u8; 32];
    let mut i: usize = 0;
    while i < 32
        invariant
            off + 32 <= n == bytes@.len(),
            0 <= i <= 32,
            forall|j: int| 0 <= j < i ==> p[j] == bytes@[off + j],
        decreases 32 - i,
    {
        p[i] = *slice_index_get(bytes, off + i);
        i = i + 1;
    }
    proof {
        assert(p@ =~= bytes@.subrange(off as int, off + 32));
    }
    p
}

pub fn read_u8(bytes: &[u8], off: usize) -> (x: u8)
    requires
        off < bytes@.len(),
    ensures
        x == bytes@[off as int],
{
    *slice_index_get(bytes, off)
}

pub fn read_u32_le(bytes: &[u8], off: usize) -> (x: u32)
    requires
        off + 4 <= bytes@.len(),
    ensures
        x == spec_u32_from_le_bytes(bytes@.subrange(off as int, off + 4)),
{
    let n: usize = bytes.len();
    proof {
        assert(off + 4 <= n);
    }
    let w = slice_subrange(bytes, off, off + 4);
    u32_from_le_bytes(w)
}

pub fn read_u64_le(bytes: &[u8], off: usize) -> (x: u64)
    requires
        off + 8 <= bytes@.len(),
    ensures
        x == spec_u64_from_le_bytes(bytes@.subrange(off as int, off + 8)),
{
    let n: usize = bytes.len();
    proof {
        assert(off + 8 <= n);
    }
    let w = slice_subrange(bytes, off, off + 8);
    u64_from_le_bytes(w)
}

pub fn read_i64_le(bytes: &[u8], off: usize) -> (x: i64)
    requires
        off + 8 <= bytes@.len(),
    ensures
        x == spec_i64_from_le_bytes(bytes@.subrange(off as int, off + 8)),
{
    i64_from_bits(read_u64_le(bytes, off))
}

/// Appends an identity's 32 bytes.
pub fn push_pubkey(out: &mut Vec<u8>, p: &Pubkey)
    ensures
        final(out)@ == old(out)@ + p@,
{
    let mut i: usize = 0;
    while i < 32
        invariant
            0 <= i <= 32,
            out@ == old(out)@ + p@.subrange(0, i as int),
        decreases 32 - i,
    {
        out.push(p[i]);
        proof {
            assert(p@.subrange(0, i + 1) =~= p@.subrange(0, i as int).push(p@[i as int]));
        }
        i = i + 1;
    }
    proof {
        assert(p@.subrange(0, 32) =~= p@);
    }
}

pub fn push_u8(out: &mut Vec<u8>, x: u8)
    ensures
        final(out)@ == old(out)@ + seq![x],
{
    out.push(x);
    proof {
        assert(old(out)@ + seq![x] =~= old(out)@.push(x));
    }
}

pub fn push_bool(out: &mut Vec<u8>, b: bool)
    ensures
        final(out)@ == old(out)@ + seq![spec_bool_to_byte(b)],
{
    if b {
        push_u8(out, 1);
    } else {
        push_u8(out, 0);
    }
}

pub fn push_u32_le(out: &mut Vec<u8>, x: u32)
    ensures
        final(out)@ == old(out)@ + spec_u32_to_le_bytes(x),
{
    let mut b = u32_to_le_bytes(x);
    out.append(&mut b);
}

pub fn push_u64_le(out: &mut Vec<u8>, x: u64)
    ensures
        final(out)@ == old(out)@ + spec_u64_to_le_bytes(x),
{
    let mut b = u64_to_le_bytes(x);
    out.append(&mut b);
}

pub fn push_i64_le(out: &mut Vec<u8>, x: i64)
    ensures
        final(out)@ == old(out)@ + spec_i64_to_le_bytes(x),
{
    push_u64_le(out, i64_to_bits(x));
}

} // verus!
