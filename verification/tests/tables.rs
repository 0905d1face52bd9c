use std::cell::RefCell;

use constable::domain::bit_offset;
use constable::domain::unit_index;
use constable::domain::DOMAIN_SIZE;
use constable::domain::MASK;
use constable::domain::SHIFT;
use constable::domain::UNIT_BITS;
use constable::domain::UNIT_COUNT;
use constable::NarrowTable;
use constable::WideTable;

const fn is_valid2(packed: u8) -> bool {
    let u0 = packed & 0b11;
    let u1 = (packed >> 2) & 0b11;
    let u2 = (packed >> 4) & 0b11;
    let u3 = (packed >> 6) & 0b11;
    u0 != u1
        && u0 != u2
        && u1 != u2
        && (u0 != u3 && u1 != u3 && u2 != u3 || u3 == 0 && u0 != 3 && u1 != 3 && u2 != 3)
}

const fn xor_halves_agree(packed: u8) -> bool {
    let u0 = packed & 0b11;
    let u1 = (packed >> 2) & 0b11;
    let u2 = (packed >> 4) & 0b11;
    let u3 = (packed >> 6) & 0b11;
    (u0 ^ u1) == (u2 ^ u3)
}

#[test]
fn all_valid() {
    let table = NarrowTable::build(is_valid2);
    let is_valid = |packed: u8| table.get(packed);
    for i in 0..=255 {
        assert_eq!(is_valid(i), is_valid2(i), "{i}");
    }
}

#[test]
fn xor_predicate_is_true_at_0_and_false_at_16() {
    assert!(xor_halves_agree(0));
    assert!(!xor_halves_agree(0b0001_0000));
    let table = NarrowTable::build(xor_halves_agree);
    assert_eq!(table.get(0), true);
    assert_eq!(table.get(16), false);
    let flat = WideTable::build(xor_halves_agree);
    assert_eq!(*flat.get(0), true);
    assert_eq!(*flat.get(16), false);
}

#[test]
fn xor_predicate_agrees_everywhere() {
    let table = NarrowTable::build(xor_halves_agree);
    for v in 0..=255u8 {
        assert_eq!(table.get(v), xor_halves_agree(v), "{v}");
    }
}

#[test]
fn wide_tables_agree_with_their_function() {
    let bytes = WideTable::build(|v: u8| v.wrapping_mul(7).rotate_left(3));
    let halves = WideTable::build(|v: u8| (v as u16) * 257 + 1);
    let words = WideTable::build(|v: u8| (v as u32) * 0x0101_0101 ^ 0xdead_beef);
    for v in 0..=255u8 {
        assert_eq!(*bytes.get(v), v.wrapping_mul(7).rotate_left(3), "{v}");
        assert_eq!(*halves.get(v), (v as u16) * 257 + 1, "{v}");
        assert_eq!(*words.get(v), (v as u32) * 0x0101_0101 ^ 0xdead_beef, "{v}");
    }
}

#[test]
fn wide_table_is_indexed_by_the_value() {
    let table = WideTable::build(|v: u8| 1000 + v as u16);
    assert_eq!(table.entries().len(), 256);
    for (index, entry) in table.entries().iter().enumerate() {
        assert_eq!(*entry, 1000 + index as u16);
    }
}

#[test]
fn body_is_called_once_for_each_value_in_ascending_order() {
    let seen = RefCell::new(Vec::new());
    let table = WideTable::build(|v: u8| {
        seen.borrow_mut().push(v);
        v
    });
    let expected: Vec<u8> = (0..=255).collect();
    assert_eq!(*seen.borrow(), expected);
    assert_eq!(*table.entries(), expected);

    let seen = RefCell::new(Vec::new());
    let _ = NarrowTable::build(|v: u8| {
        seen.borrow_mut().push(v);
        v % 2 == 1
    });
    assert_eq!(*seen.borrow(), expected);
}

#[test]
fn packing_parameters() {
    assert_eq!(DOMAIN_SIZE, 256);
    assert_eq!(UNIT_BITS, 8);
    assert_eq!(UNIT_COUNT, 32);
    assert_eq!(SHIFT, 3);
    assert_eq!(MASK, 7);
    assert_eq!(u32::from(SHIFT), DOMAIN_SIZE.ilog2() - UNIT_COUNT.ilog2());
    assert_eq!(MASK, (1 << SHIFT) - 1);
}

#[test]
fn unit_index_and_bit_offset() {
    assert_eq!((unit_index(0), bit_offset(0)), (0, 0));
    assert_eq!((unit_index(7), bit_offset(7)), (0, 7));
    assert_eq!((unit_index(8), bit_offset(8)), (1, 0));
    assert_eq!((unit_index(16), bit_offset(16)), (2, 0));
    assert_eq!((unit_index(0b1010_1101), bit_offset(0b1010_1101)), (0b10101, 0b101));
    assert_eq!((unit_index(255), bit_offset(255)), (31, 7));
    for v in 0..=255u8 {
        assert_eq!(unit_index(v) * 8 + bit_offset(v) as usize, v as usize);
    }
}

#[test]
fn packs_eight_results_to_a_unit_lowest_bit_first() {
    let mut results = vec![false; 256];
    results[0] = true;
    results[9] = true;
    results[15] = true;
    results[16] = true;
    results[17] = true;
    results[255] = true;
    let flat = WideTable::from_entries(results).unwrap();
    let table = NarrowTable::pack(&flat);
    let mut expected = vec![0u8; 32];
    expected[0] = 0b0000_0001;
    expected[1] = 0b1000_0010;
    expected[2] = 0b0000_0011;
    expected[31] = 0b1000_0000;
    assert_eq!(*table.units(), expected);
}

#[test]
fn packs_all_false_and_all_true() {
    let none = NarrowTable::build(|_: u8| false);
    assert_eq!(*none.units(), vec![0u8; 32]);
    let all = NarrowTable::build(|_: u8| true);
    assert_eq!(*all.units(), vec![0xffu8; 32]);
}

#[test]
fn high_bit_of_every_unit_is_kept() {
    let table = NarrowTable::build(|v: u8| v % 8 == 7);
    assert_eq!(*table.units(), vec![0x80u8; 32]);
    for v in 0..=255u8 {
        assert_eq!(table.get(v), v % 8 == 7, "{v}");
    }
}

#[test]
fn unpacking_reproduces_the_packed_results() {
    let results: Vec<bool> = (0..256u32).map(|v| (v * v + 3 * v) % 7 < 3).collect();
    let flat = WideTable::from_entries(results.clone()).unwrap();
    let table = NarrowTable::pack(&flat);
    let units = table.units();
    assert_eq!(units.len(), 32);
    for v in 0..=255u8 {
        let read = (units[(v >> SHIFT) as usize] >> (v & MASK)) & 1 == 1;
        assert_eq!(read, results[v as usize], "{v}");
        assert_eq!(table.get(v), results[v as usize], "{v}");
    }
}

#[test]
fn lookup_reads_the_given_units() {
    let mut units = vec![0u8; 32];
    units[2] = 0b0001_0100;
    let table = NarrowTable::from_units(units).unwrap();
    for v in 0..=255u8 {
        assert_eq!(table.get(v), v == 18 || v == 20, "{v}");
    }
}

#[test]
fn building_twice_gives_identical_tables() {
    let first = NarrowTable::build(is_valid2);
    let second = NarrowTable::build(is_valid2);
    assert_eq!(first.units(), second.units());
    let first = WideTable::build(|v: u8| (v as u32) << 9);
    let second = WideTable::build(|v: u8| (v as u32) << 9);
    assert_eq!(first.entries(), second.entries());
}

#[test]
fn tables_of_the_wrong_length_are_refused() {
    assert!(WideTable::from_entries(vec![0u8; 255]).is_none());
    assert!(WideTable::from_entries(vec![0u8; 257]).is_none());
    assert!(WideTable::from_entries(Vec::<u16>::new()).is_none());
    assert!(WideTable::from_entries(vec![0u32; 256]).is_some());
    assert!(NarrowTable::from_units(vec![0u8; 31]).is_none());
    assert!(NarrowTable::from_units(vec![0u8; 33]).is_none());
    assert!(NarrowTable::from_units(vec![0u8; 256]).is_none());
    assert!(NarrowTable::from_units(vec![0u8; 32]).is_some());
}

#[test]
fn narrow_table_is_an_eighth_of_a_byte_per_result() {
    let table = NarrowTable::build(is_valid2);
    let flat = WideTable::build(is_valid2);
    assert_eq!(table.units().len() * 8, flat.entries().len());
}
