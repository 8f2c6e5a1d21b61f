//! Small bit-set operations.
//!
//! Action sets and boolean flag sets are stored as 32-bit masks with one bit
//! per member. These helpers pin down exactly which bit each operation
//! touches: setting or clearing a bit never disturbs any other bit.

use vstd::prelude::*;

verus! {

/// True when bit `k` is set in `bits`.
pub open spec fn bit_set(bits: u32, k: u32) -> bool
    recommends
        k < 32,
{
    bits & (1u32 << k) != 0
}

proof fn lemma_or_bit(bits: u32, k: u32, j: u32)
    by (bit_vector)
    requires
        j != k,
    ensures
        ((bits | (1u32 << k)) & (1u32 << j)) == (bits & (1u32 << j)),
{
}

proof fn lemma_and_not_bit(bits: u32, k: u32, j: u32)
    by (bit_vector)
    requires
        j != k,
    ensures
        ((bits & !(1u32 << k)) & (1u32 << j)) == (bits & (1u32 << j)),
{
}

proof fn lemma_set_own_bit(bits: u32, k: u32)
    by (bit_vector)
    requires
        k < 32,
    ensures
        (bits | (1u32 << k)) & (1u32 << k) != 0,
        (bits & !(1u32 << k)) & (1u32 << k) == 0,
{
}

/// Sets bit `k`, leaving every other bit as it was.
pub fn with_bit(bits: u32, k: u32) -> (r: u32)
    requires
        k < 32,
    ensures
        r == (bits | (1u32 << k)),
        bit_set(r, k),
        forall|j: u32| j != k ==> bit_set(r, j) == bit_set(bits, j),
{
    proof {
        lemma_set_own_bit(bits, k);
        assert forall|j: u32| j != k implies bit_set(bits | (1u32 << k), j) == bit_set(
            bits,
            j,
        ) by {
            lemma_or_bit(bits, k, j);
        }
    }
    bits | (1u32 << k)
}

/// Clears bit `k`, leaving every other bit as it was.
pub fn without_bit(bits: u32, k: u32) -> (r: u32)
    requires
        k < 32,
    ensures
        r == (bits & !(1u32 << k)),
        !bit_set(r, k),
        forall|j: u32| j != k ==> bit_set(r, j) == bit_set(bits, j),
{
    proof {
        lemma_set_own_bit(bits, k);
        assert forall|j: u32| j != k implies bit_set(bits & !(1u32 << k), j) == bit_set(
            bits,
            j,
        ) by {
            lemma_and_not_bit(bits, k, j);
        }
    }
    bits & !(1u32 << k)
}

/// Tests bit `k`.
pub fn test_bit(bits: u32, k: u32) -> (r: bool)
    requires
        k < 32,
    ensures
        r == bit_set(bits, k),
{
    bits & (1u32 << k) != 0
}

/// An empty mask has no bit set.
pub proof fn lemma_empty_mask(k: u32)
    by (bit_vector)
    ensures
        !bit_set(0u32, k),
{
}

} // verus!
