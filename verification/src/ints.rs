//! Two's-complement bit view of `i64` timestamps, used by the record codec to
//! lay signed integers out as little-endian `u64` bytes.

use vstd::prelude::*;

verus! {

/// The `u64` whose bit pattern is the two's-complement representation of `x`.
pub open spec fn i64_bits(x: i64) -> u64 {
    if x >= 0 {
        x as u64
    } else {
        (x + 0x1_0000_0000_0000_0000) as u64
    }
}

/// The `i64` whose two's-complement representation is the bit pattern of `u`.
pub open spec fn i64_from_bits(u: u64) -> i64 {
    if u < 0x8000_0000_0000_0000 {
        u as i64
    } else {
        (u - 0x1_0000_0000_0000_0000) as i64
    }
}

pub proof fn lemma_i64_bits_roundtrip(x: i64)
    ensures
        i64_from_bits(i64_bits(x)) == x,
{
}

pub proof fn lemma_i64_from_bits_roundtrip(u: u64)
    ensures
        i64_bits(i64_from_bits(u)) == u,
{
}

pub fn i64_to_bits(x: i64) -> (r: u64)
    ensures
        r == i64_bits(x),
{
    if x >= 0 {
        x as u64
    } else {
        let d: i64 = x - i64::MIN;
        (d as u64) + 0x8000_0000_0000_0000u64
    }
}

pub fn i64_of_bits(u: u64) -> (r: i64)
    ensures
        r == i64_from_bits(u),
{
    if u < 0x8000_0000_0000_0000u64 {
        u as i64
    } else {
        ((u - 0x8000_0000_0000_0000u64) as i64) + i64::MIN
    }
}

} // verus!
