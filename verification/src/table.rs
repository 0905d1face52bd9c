//! The tables themselves: built from a function by enumerating the domain,
//! stored flat or bit-packed, and read by one lookup.

use vstd::prelude::*;
use crate::domain::bit_offset;
use crate::domain::lemma_index_and_offset;
use crate::domain::lemma_slots_are_distinct;
use crate::domain::unit_index;
use crate::domain::DOMAIN_SIZE;
use crate::domain::MASK;
use crate::domain::SHIFT;
use crate::domain::UNIT_COUNT;
use crate::packing::lemma_packed_entry;
use crate::packing::lemma_packing_is_unique;
use crate::packing::lemma_same_entries_same_units;
use crate::packing::packed;
use crate::packing::packed_entry;

verus! {

/// A flat table: one result for each domain value, at the index of that value.
pub struct WideTable<R> {
    entries: Vec<R>,
}

/// A bit-packed table of boolean results: the result for `v` is bit `v & MASK`
/// of unit `v >> SHIFT`.
pub struct NarrowTable {
    units: Vec<u8>,
}

impl<R> View for WideTable<R> {
    type V = Seq<R>;

    closed spec fn view(&self) -> Seq<R> {
        self.entries@
    }
}

impl View for NarrowTable {
    type V = Seq<u8>;

    closed spec fn view(&self) -> Seq<u8> {
        self.units@
    }
}

/// Whether `body` has exactly one possible result for each domain value.
pub open spec fn is_deterministic<R, F: Fn(u8) -> R>(body: F) -> bool {
    forall|value: u8, first: R, second: R|
        body.ensures((value,), first) && body.ensures((value,), second) ==> first == second
}

/// Whether `entries` is a flat table of `body`: one entry for each domain
/// value, each a result of `body` on the value at whose index it stands.
pub open spec fn is_flat_table_of<R, F: Fn(u8) -> R>(entries: Seq<R>, body: F) -> bool {
    &&& entries.len() == DOMAIN_SIZE
    &&& forall|value: u8| body.ensures((value,), #[trigger] entries[value as int])
}

/// Whether `units` is a bit-packed table of `body`: what a lookup reads from
/// it for a domain value is a result of `body` on that value.
pub open spec fn is_packed_table_of<F: Fn(u8) -> bool>(units: Seq<u8>, body: F) -> bool {
    &&& units.len() == UNIT_COUNT
    &&& forall|value: u8| body.ensures((value,), #[trigger] packed_entry(units, value))
}

proof fn lemma_set_bit(unit: u8, result: bool, offset: u8, other: u8)
    by (bit_vector)
    requires
        offset < 8,
        other < 8,
    ensures
        (((unit | ((if result { 1u8 } else { 0u8 }) << offset)) >> other) & 1 == 1) == (((unit
            >> other) & 1 == 1) || (result && other == offset)),
{
}

proof fn lemma_clear_unit(offset: u8)
    by (bit_vector)
    ensures
        (0u8 >> offset) & 1 == 0,
{
}

impl<R> WideTable<R> {
    #[verifier::type_invariant]
    spec fn well_formed(&self) -> bool {
        self.entries@.len() == DOMAIN_SIZE
    }

    /// Evaluates `body` on every domain value, from 0 up to 255, and records
    /// each result at the index of its value.
    pub fn build<F: Fn(u8) -> R>(body: F) -> (table: Self)
        requires
            forall|value: u8| body.requires((value,)),
        ensures
            is_flat_table_of(table@, body),
    {
        let mut entries: Vec<R> = Vec::new();
        let mut next: usize = 0;
        while next < DOMAIN_SIZE
            invariant
                next <= DOMAIN_SIZE,
                entries@.len() == next,
                forall|value: u8| body.requires((value,)),
                forall|value: u8|
                    (value as int) < next ==> body.ensures((value,), #[trigger] entries@[value as int]),
            decreases DOMAIN_SIZE - next,
        {
            let value: u8 = next as u8;
            let result = body(value);
            entries.push(result);
            next += 1;
        }
        WideTable { entries }
    }

    /// Makes a table of the given entries; `None` unless there is exactly one
    /// entry for each domain value.
    pub fn from_entries(entries: Vec<R>) -> (table: Option<Self>)
        ensures
            match table {
                Some(t) => entries@.len() == DOMAIN_SIZE && t@ == entries@,
                None => entries@.len() != DOMAIN_SIZE,
            },
    {
        if entries.len() == DOMAIN_SIZE {
            Some(WideTable { entries })
        } else {
            None
        }
    }

    /// The entries, in domain order.
    pub fn entries(&self) -> (entries: &Vec<R>)
        ensures
            entries@ == self@,
            entries@.len() == DOMAIN_SIZE,
    {
        proof {
            use_type_invariant(self);
        }
        &self.entries
    }

    /// The result for `value`, read by direct index.
    pub fn get(&self, value: u8) -> (result: &R)
        ensures
            self@.len() == DOMAIN_SIZE,
            *result == self@[value as int],
    {
        proof {
            use_type_invariant(self);
        }
        &self.entries[value as usize]
    }
}

impl NarrowTable {
    #[verifier::type_invariant]
    spec fn well_formed(&self) -> bool {
        self.units@.len() == UNIT_COUNT
    }

    /// Packs the results of a flat table, eight to a storage unit: for each
    /// value in ascending order, the result is or-ed into its unit at its offset.
    pub fn pack(results: &WideTable<bool>) -> (table: Self)
        ensures
            table@ == packed(results@),
    {
        let flat = results.entries();
        let mut units: Vec<u8> = Vec::new();
        let mut index: usize = 0;
        while index < UNIT_COUNT
            invariant
                index <= UNIT_COUNT,
                units@.len() == index,
                forall|i: int| 0 <= i < index ==> units@[i] == 0u8,
            decreases UNIT_COUNT - index,
        {
            units.push(0u8);
            index += 1;
        }
        proof {
            assert forall|value: u8| !(#[trigger] packed_entry(units@, value)) by {
                lemma_index_and_offset(value);
                lemma_clear_unit(value & MASK);
            }
        }
        let mut next: usize = 0;
        while next < DOMAIN_SIZE
            invariant
                next <= DOMAIN_SIZE,
                flat@.len() == DOMAIN_SIZE,
                units@.len() == UNIT_COUNT,
                forall|value: u8| #[trigger]
                    packed_entry(units@, value) == ((value as int) < next && flat@[value as int]),
            decreases DOMAIN_SIZE - next,
        {
            let value: u8 = next as u8;
            let outer = unit_index(value);
            let inner = bit_offset(value);
            let bit: u8 = if flat[next] {
                1
            } else {
                0
            };
            let ghost before = units@;
            let unit = units[outer];
            units.set(outer, unit | (bit << inner));
            proof {
                assert forall|other: u8| #[trigger]
                    packed_entry(units@, other) == ((other as int) < next + 1
                        && flat@[other as int]) by {
                    lemma_index_and_offset(other);
                    assert(packed_entry(before, other) == ((other as int) < next
                        && flat@[other as int]));
                    if other >> SHIFT == value >> SHIFT {
                        lemma_set_bit(unit, flat@[next as int], inner, other & MASK);
                        if other & MASK == inner {
                            lemma_slots_are_distinct(other, value);
                        }
                    }
                }
            }
            next += 1;
        }
        proof {
            lemma_packing_is_unique(units@, flat@);
        }
        NarrowTable { units }
    }

    /// Evaluates `body` on every domain value, from 0 up to 255, and packs the results.
    pub fn build<F: Fn(u8) -> bool>(body: F) -> (table: Self)
        requires
            forall|value: u8| body.requires((value,)),
        ensures
            is_packed_table_of(table@, body),
    {
        let results = WideTable::build(body);
        let table = Self::pack(&results);
        proof {
            assert forall|value: u8|
                body.ensures((value,), #[trigger] packed_entry(table@, value)) by {
                lemma_packed_entry(results@, value);
                assert(body.ensures((value,), results@[value as int]));
            }
        }
        table
    }

    /// Makes a table of the given storage units; `None` unless there are
    /// exactly as many as a bit-packed table has.
    pub fn from_units(units: Vec<u8>) -> (table: Option<Self>)
        ensures
            match table {
                Some(t) => units@.len() == UNIT_COUNT && t@ == units@,
                None => units@.len() != UNIT_COUNT,
            },
    {
        if units.len() == UNIT_COUNT {
            Some(NarrowTable { units })
        } else {
            None
        }
    }

    /// The storage units, in order.
    pub fn units(&self) -> (units: &Vec<u8>)
        ensures
            units@ == self@,
            units@.len() == UNIT_COUNT,
    {
        proof {
            use_type_invariant(self);
        }
        &self.units
    }

    /// The result for `value`: one shift, one mask and one bit test.
    pub fn get(&self, value: u8) -> (result: bool)
        ensures
            self@.len() == UNIT_COUNT,
            result == packed_entry(self@, value),
    {
        proof {
            use_type_invariant(self);
            lemma_index_and_offset(value);
        }
        (self.units[(value >> SHIFT) as usize] >> (value & MASK)) & 1 == 1
    }
}

/// A lookup in a flat table of a deterministic function gives what the
/// function gives, for every domain value.
pub proof fn lemma_flat_lookup_agrees<R, F: Fn(u8) -> R>(
    body: F,
    entries: Seq<R>,
    value: u8,
    result: R,
)
    requires
        is_deterministic(body),
        is_flat_table_of(entries, body),
        body.ensures((value,), result),
    ensures
        entries[value as int] == result,
{
}

/// A lookup in a bit-packed table of a deterministic function gives what the
/// function gives, for every domain value.
pub proof fn lemma_packed_lookup_agrees<F: Fn(u8) -> bool>(
    body: F,
    units: Seq<u8>,
    value: u8,
    result: bool,
)
    requires
        is_deterministic(body),
        is_packed_table_of(units, body),
        body.ensures((value,), result),
    ensures
        packed_entry(units, value) == result,
{
}

/// Building a flat table again from the same deterministic function gives
/// the same table, entry for entry.
pub proof fn lemma_flat_construction_repeats<R, F: Fn(u8) -> R>(
    body: F,
    first: Seq<R>,
    second: Seq<R>,
)
    requires
        is_deterministic(body),
        is_flat_table_of(first, body),
        is_flat_table_of(second, body),
    ensures
        first == second,
{
    assert forall|index: int| 0 <= index < first.len() implies first[index] == second[index] by {
        let value = index as u8;
        assert(body.ensures((value,), first[value as int]));
        assert(body.ensures((value,), second[value as int]));
    }
    assert(first =~= second);
}

/// Building a bit-packed table again from the same deterministic function
/// gives the same table, byte for byte.
pub proof fn lemma_packed_construction_repeats<F: Fn(u8) -> bool>(
    body: F,
    first: Seq<u8>,
    second: Seq<u8>,
)
    requires
        is_deterministic(body),
        is_packed_table_of(first, body),
        is_packed_table_of(second, body),
    ensures
        first == second,
{
    assert forall|value: u8| #[trigger]
        packed_entry(first, value) == packed_entry(second, value) by {
        assert(body.ensures((value,), packed_entry(first, value)));
        assert(body.ensures((value,), packed_entry(second, value)));
    }
    lemma_same_entries_same_units(first, second);
}

} // verus!
