//! Bit-level vocabulary for register contracts: reading one bit or one
//! 4-bit field out of a 32-bit register, and the read-modify-write
//! lemmas the drivers use to show that they leave every other bit alone.

use vstd::prelude::*;

verus! {

/// True when bit `i` of register value `r` is set.
pub open spec fn bit(r: u32, i: u32) -> bool {
    r & (1u32 << i) != 0
}

/// The 4-bit field of register value `r` at nibble position `i`
/// (bits `4*i` up to `4*i + 3`).
pub open spec fn nibble(r: u32, i: u32) -> u32 {
    (r >> (4 * i)) & 0xF
}

/// Or-ing a one-bit mask into a register sets that bit and leaves every
/// other bit as it was.
pub proof fn lemma_set_bit(x: u32, i: u32, j: u32)
    requires
        i < 32,
        j < 32,
    ensures
        bit(x | (1u32 << i), i),
        i != j ==> bit(x | (1u32 << i), j) == bit(x, j),
{
    assert(bit(x | (1u32 << i), i) && (i != j ==> bit(x | (1u32 << i), j) == bit(x, j)))
        by (bit_vector)
        requires
            i < 32,
            j < 32,
    ;
}

/// And-ing the complement of a one-bit mask clears that bit and leaves
/// every other bit as it was.
pub proof fn lemma_clear_bit(x: u32, i: u32, j: u32)
    requires
        i < 32,
        j < 32,
    ensures
        !bit(x & !(1u32 << i), i),
        i != j ==> bit(x & !(1u32 << i), j) == bit(x, j),
{
    assert(!bit(x & !(1u32 << i), i) && (i != j ==> bit(x & !(1u32 << i), j) == bit(x, j)))
        by (bit_vector)
        requires
            i < 32,
            j < 32,
    ;
}

/// Clearing one nibble and or-ing in a new value `v` stores `v` in that
/// nibble and leaves every other nibble as it was.
pub proof fn lemma_set_nibble(x: u32, i: u32, v: u32, j: u32)
    requires
        i < 8,
        j < 8,
        v < 16,
    ensures
        nibble((x & !(0xFu32 << (4 * i))) | (v << (4 * i)), i) == v,
        i != j ==> nibble((x & !(0xFu32 << (4 * i))) | (v << (4 * i)), j) == nibble(x, j),
{
    assert(nibble((x & !(0xFu32 << (4 * i))) | (v << (4 * i)), i) == v && (i != j
        ==> nibble((x & !(0xFu32 << (4 * i))) | (v << (4 * i)), j) == nibble(x, j)))
        by (bit_vector)
        requires
            i < 8,
            j < 8,
            v < 16,
    ;
}

} // verus!
