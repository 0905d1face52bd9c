//! The byte domain and the parameters of the bit-packed layout.

use vstd::prelude::*;
use vstd::arithmetic::logarithm::lemma_log_pow;
use vstd::arithmetic::logarithm::log;
use vstd::arithmetic::power::lemma_pow_positive;
use vstd::arithmetic::power::pow;
use vstd::arithmetic::power2::lemma2_to64;

verus! {

/// Number of bits in a domain value.
pub const DOMAIN_BITS: u32 = 8;

/// Number of values in the domain: every `u8`.
pub const DOMAIN_SIZE: usize = 256;

/// Number of boolean results held by one storage unit.
pub const UNIT_BITS: usize = 8;

/// Number of storage units in a bit-packed table.
pub const UNIT_COUNT: usize = DOMAIN_SIZE / UNIT_BITS;

/// Right shift that takes a domain value to the index of its storage unit.
pub const SHIFT: u8 = 3;

/// Mask that takes a domain value to its bit position inside its storage unit.
pub const MASK: u8 = 7;

/// Index of the storage unit that holds the result for `value`.
pub fn unit_index(value: u8) -> (index: usize)
    ensures
        index == value >> SHIFT,
        index == value as int / UNIT_BITS as int,
        index < UNIT_COUNT,
{
    assert(value >> 3 == value / 8) by (bit_vector);
    (value >> SHIFT) as usize
}

/// Position of the result for `value` inside its storage unit.
pub fn bit_offset(value: u8) -> (offset: u8)
    ensures
        offset == value & MASK,
        offset == value as int % UNIT_BITS as int,
        offset < UNIT_BITS,
{
    assert(value & 7 == value % 8) by (bit_vector);
    value & MASK
}

/// The shift is the difference of the two logarithms, and the mask selects
/// exactly the bits that the shift drops.
pub proof fn lemma_packing_parameters()
    ensures
        DOMAIN_SIZE == 1usize << DOMAIN_BITS,
        UNIT_COUNT * UNIT_BITS == DOMAIN_SIZE,
        SHIFT == log(2, DOMAIN_SIZE as int) - log(2, UNIT_COUNT as int),
        MASK == (1u8 << SHIFT) - 1,
{
    assert(256usize == 1usize << 8u32) by (bit_vector);
    assert(7u8 == (1u8 << 3u8) - 1) by (bit_vector);
    lemma2_to64();
    lemma_pow_positive(2, 8);
    lemma_pow_positive(2, 5);
    assert(pow(2, 8) == 256 && pow(2, 5) == 32);
    lemma_log_pow(2, 8);
    lemma_log_pow(2, 5);
}

/// A domain value is its unit index times eight plus its bit offset, and
/// both stay inside a bit-packed table.
pub proof fn lemma_index_and_offset(value: u8)
    ensures
        value as int == (value >> SHIFT) * UNIT_BITS + (value & MASK),
        (value >> SHIFT) < UNIT_COUNT,
        (value & MASK) < UNIT_BITS,
{
    assert(value == (value >> 3) * 8 + (value & 7)) by (bit_vector);
    assert((value >> 3) < 32) by (bit_vector);
    assert((value & 7) < 8) by (bit_vector);
}

/// No two domain values share both their unit index and their bit offset.
pub proof fn lemma_slots_are_distinct(value: u8, other: u8)
    requires
        value >> SHIFT == other >> SHIFT,
        value & MASK == other & MASK,
    ensures
        value == other,
{
    assert((value >> 3 == other >> 3 && value & 7 == other & 7) ==> value == other)
        by (bit_vector);
}

/// Every pair of a unit index and a bit offset belongs to a domain value.
pub proof fn lemma_slot_has_value(index: u8, offset: u8) -> (value: u8)
    requires
        index < UNIT_COUNT,
        offset < UNIT_BITS,
    ensures
        value >> SHIFT == index,
        value & MASK == offset,
        value as int == index * UNIT_BITS + offset,
{
    let value: u8 = (index << 3) | offset;
    assert(index < 32 && offset < 8 ==> ((index << 3) | offset) >> 3 == index && ((index << 3)
        | offset) & 7 == offset && ((index << 3) | offset) == index * 8 + offset) by (bit_vector);
    value
}

} // verus!
