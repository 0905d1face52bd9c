//! The bit-packed layout, as mathematics: which byte sequence packs a
//! sequence of boolean results, and what a lookup reads from it.

use vstd::prelude::*;
use crate::domain::lemma_index_and_offset;
use crate::domain::lemma_slot_has_value;
use crate::domain::MASK;
use crate::domain::SHIFT;
use crate::domain::UNIT_COUNT;

verus! {

/// A storage unit in which only bit `offset` may be set, and is set when `result` holds.
pub open spec fn placed(result: bool, offset: u8) -> u8 {
    if result {
        1u8 << offset
    } else {
        0u8
    }
}

/// The storage unit made of eight results, the first in the lowest bit.
pub open spec fn unit_of(
    r0: bool,
    r1: bool,
    r2: bool,
    r3: bool,
    r4: bool,
    r5: bool,
    r6: bool,
    r7: bool,
) -> u8 {
    placed(r0, 0) | placed(r1, 1) | placed(r2, 2) | placed(r3, 3) | placed(r4, 4) | placed(r5, 5)
        | placed(r6, 6) | placed(r7, 7)
}

/// Storage unit `index` of the packing of `results`: it holds the results
/// for the values `8 * index` to `8 * index + 7`.
pub open spec fn packed_unit(results: Seq<bool>, index: int) -> u8 {
    unit_of(
        results[8 * index],
        results[8 * index + 1],
        results[8 * index + 2],
        results[8 * index + 3],
        results[8 * index + 4],
        results[8 * index + 5],
        results[8 * index + 6],
        results[8 * index + 7],
    )
}

/// The bit-packed table for `results`, which holds one result for each domain value.
pub open spec fn packed(results: Seq<bool>) -> Seq<u8> {
    Seq::new(UNIT_COUNT as nat, |index: int| packed_unit(results, index))
}

/// What a lookup of `value` reads from the bit-packed table `units`.
pub open spec fn packed_entry(units: Seq<u8>, value: u8) -> bool {
    (units[(value >> SHIFT) as int] >> (value & MASK)) & 1 == 1
}

/// Whether `units` is a bit-packed table that holds `results[v]` for every value `v`.
pub open spec fn holds_results(units: Seq<u8>, results: Seq<bool>) -> bool {
    &&& units.len() == UNIT_COUNT
    &&& forall|value: u8| #[trigger] packed_entry(units, value) == results[value as int]
}

proof fn lemma_unit_bits(
    r0: bool,
    r1: bool,
    r2: bool,
    r3: bool,
    r4: bool,
    r5: bool,
    r6: bool,
    r7: bool,
    offset: u8,
)
    by (bit_vector)
    requires
        offset < 8,
    ensures
        ((unit_of(r0, r1, r2, r3, r4, r5, r6, r7) >> offset) & 1 == 1) == (if offset == 0 {
            r0
        } else if offset == 1 {
            r1
        } else if offset == 2 {
            r2
        } else if offset == 3 {
            r3
        } else if offset == 4 {
            r4
        } else if offset == 5 {
            r5
        } else if offset == 6 {
            r6
        } else {
            r7
        }),
{
}

proof fn lemma_equal_bits(a: u8, b: u8)
    by (bit_vector)
    requires
        (a >> 0) & 1 == (b >> 0) & 1,
        (a >> 1) & 1 == (b >> 1) & 1,
        (a >> 2) & 1 == (b >> 2) & 1,
        (a >> 3) & 1 == (b >> 3) & 1,
        (a >> 4) & 1 == (b >> 4) & 1,
        (a >> 5) & 1 == (b >> 5) & 1,
        (a >> 6) & 1 == (b >> 6) & 1,
        (a >> 7) & 1 == (b >> 7) & 1,
    ensures
        a == b,
{
}

proof fn lemma_bit_is_zero_or_one(a: u8, offset: u8)
    by (bit_vector)
    ensures
        (a >> offset) & 1 == 0 || (a >> offset) & 1 == 1,
{
}

/// Reading any value back from the packing of `results` gives the result for that value.
pub proof fn lemma_packed_entry(results: Seq<bool>, value: u8)
    ensures
        packed_entry(packed(results), value) == results[value as int],
{
    lemma_index_and_offset(value);
    let index = (value >> SHIFT) as int;
    let offset = value & MASK;
    lemma_unit_bits(
        results[8 * index],
        results[8 * index + 1],
        results[8 * index + 2],
        results[8 * index + 3],
        results[8 * index + 4],
        results[8 * index + 5],
        results[8 * index + 6],
        results[8 * index + 7],
        offset,
    );
}

/// The packing of `results` holds `results`.
pub proof fn lemma_packed_holds_results(results: Seq<bool>)
    ensures
        holds_results(packed(results), results),
{
    assert forall|value: u8| #[trigger]
        packed_entry(packed(results), value) == results[value as int] by {
        lemma_packed_entry(results, value);
    }
}

/// Two bit-packed tables from which every lookup reads the same are the same table.
pub proof fn lemma_same_entries_same_units(a: Seq<u8>, b: Seq<u8>)
    requires
        a.len() == UNIT_COUNT,
        b.len() == UNIT_COUNT,
        forall|value: u8| #[trigger] packed_entry(a, value) == packed_entry(b, value),
    ensures
        a == b,
{
    assert forall|index: int| 0 <= index < a.len() implies a[index] == b[index] by {
        let i = index as u8;
        assert forall|offset: u8| offset < 8 implies (a[index] >> offset) & 1 == (b[index]
            >> offset) & 1 by {
            let value = lemma_slot_has_value(i, offset);
            assert(packed_entry(a, value) == packed_entry(b, value));
            lemma_bit_is_zero_or_one(a[index], offset);
            lemma_bit_is_zero_or_one(b[index], offset);
        }
        lemma_equal_bits(a[index], b[index]);
    }
    assert(a =~= b);
}

/// The packing of `results` is the only table that holds `results`.
pub proof fn lemma_packing_is_unique(units: Seq<u8>, results: Seq<bool>)
    requires
        holds_results(units, results),
    ensures
        units == packed(results),
{
    lemma_packed_holds_results(results);
    assert forall|value: u8| #[trigger]
        packed_entry(units, value) == packed_entry(packed(results), value) by {
        assert(packed_entry(units, value) == results[value as int]);
        assert(packed_entry(packed(results), value) == results[value as int]);
    }
    lemma_same_entries_same_units(units, packed(results));
}

} // verus!
