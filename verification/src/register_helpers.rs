//! Bit and bitfield mask construction for 32-bit registers.

use vstd::prelude::*;

verus! {

/// The 32-bit value with exactly bit `n` set.
pub open spec fn spec_bit(n: u32) -> u32 {
    1u32 << n
}

/// The contiguous mask covering bit positions `lo` through `hi` inclusive.
pub open spec fn spec_bits(lo: u32, hi: u32) -> u32 {
    (0xffff_ffffu32 << lo) & (0xffff_ffffu32 >> ((31 - hi) as u32))
}

/// Whether bit `j` of `v` is set.
pub open spec fn bit_is_set(v: u32, j: u32) -> bool {
    (v >> j) & 1 == 1
}

/// A value with exactly one set bit, at position `x`.
pub fn bit(x: u32) -> (r: u32)
    requires
        x < 32,
    ensures
        r == spec_bit(x),
        forall|j: u32| j < 32 ==> bit_is_set(r, j) == (j == x),
{
    let r: u32 = 1u32 << x;
    proof {
        assert forall|j: u32| j < 32 implies bit_is_set(r, j) == (j == x) by {
            assert((((1u32 << x) >> j) & 1 == 1) == (j == x)) by (bit_vector)
                requires
                    x < 32,
                    j < 32,
            ;
        }
    }
    r
}

/// The mask whose set bits are exactly positions `lo` through `hi`
/// inclusive: a contiguous run.
pub fn bits(start: u32, end: u32) -> (r: u32)
    requires
        start <= end < 32,
    ensures
        r == spec_bits(start, end),
        forall|j: u32| j < 32 ==> bit_is_set(r, j) == (start <= j <= end),
{
    let a: u32 = 0xffff_ffffu32 << start;
    let b: u32 = 0xffff_ffffu32 >> (31u32 - end);
    let r: u32 = a & b;
    proof {
        assert forall|j: u32| j < 32 implies bit_is_set(r, j) == (start <= j <= end) by {
            assert(((((0xffff_ffffu32 << start) & (0xffff_ffffu32 >> (((31 - end) as u32)))) >> j)
                & 1 == 1) == (start <= j <= end)) by (bit_vector)
                requires
                    start <= end < 32,
                    j < 32,
            ;
        }
    }
    r
}

/// A mask ANDed with itself is itself: applying `bits(lo, hi)` twice
/// selects the same field as applying it once.
pub proof fn lemma_bits_idempotent(lo: u32, hi: u32)
    ensures
        spec_bits(lo, hi) & spec_bits(lo, hi) == spec_bits(lo, hi),
{
    let v = spec_bits(lo, hi);
    assert(v & v == v) by (bit_vector);
}

/// The two-bit data-alignment selector held in the low bits of `reg_val`.
pub fn data_align(reg_val: u32) -> (r: u32)
    ensures
        r == reg_val & 3,
{
    let mask: u32 = bits(0, 1);
    proof {
        assert(spec_bits(0u32, 1u32) == 3u32) by (bit_vector);
        assert(3u32 & reg_val == reg_val & 3u32) by (bit_vector);
    }
    mask & reg_val
}

} // verus!
