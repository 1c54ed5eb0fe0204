use redstone_signal::data_types::bitset::{BitSet, BitSetError};
use redstone_signal::data_types::bitset::range::{IndexRange, RangeSpec};

#[test]
fn initial_state() {
    let bitset = BitSet::default();
    assert_eq!(bitset.len(), 0);
    assert_eq!(*bitset.as_words(), Vec::<u8>::new());
}

#[test]
fn set_bits() {
    let mut bitset = BitSet::default();

    bitset.insert(0).unwrap();
    bitset.insert(2).unwrap();
    bitset.insert(5).unwrap();
    bitset.insert(10).unwrap();

    assert!(bitset.get(0));
    assert!(bitset.get(2));
    assert!(bitset.get(5));
    assert!(bitset.get(10));

    assert!(!bitset.get(1));
    assert!(!bitset.get(3));
    assert!(!bitset.get(6));
    assert!(!bitset.get(9));
}

#[test]
fn clear_bits() {
    let mut bitset = BitSet::default();

    bitset.insert(2..6).unwrap();

    bitset.clear(3).unwrap();

    assert!(!bitset.get(3));

    assert!(bitset.get(2));
    assert!(bitset.get(4));
    assert!(bitset.get(5));

    assert!(!bitset.get(6));
    assert!(!bitset.get(7));
}

#[test]
fn logical_and() {
    let bitset1 = BitSet::from(5);
    let bitset2 = BitSet::from(3);

    assert_eq!(bitset1 & bitset2, BitSet::from(5 & 3));

    let bitset1 = BitSet::from(8);
    let bitset2 = BitSet::from(9);

    assert_eq!(bitset1 & bitset2, BitSet::from(8 & 9));

    let bitset1 = BitSet::from(2645);
    let bitset2 = BitSet::from(4568);

    assert_eq!(bitset1 & bitset2, BitSet::from(2645 & 4568));
}

#[test]
fn logical_or() {
    let bitset1 = BitSet::from(5);
    let bitset2 = BitSet::from(3);

    assert_eq!(bitset1 | bitset2, BitSet::from(5 | 3));

    let bitset1 = BitSet::from(8);
    let bitset2 = BitSet::from(9);

    assert_eq!(bitset1 | bitset2, BitSet::from(8 | 9));

    let bitset1 = BitSet::from(2645);
    let bitset2 = BitSet::from(4568);

    assert_eq!(bitset1 | bitset2, BitSet::from(2645 | 4568));
}

#[test]
fn logical_xor() {
    let bitset1 = BitSet::from(5);
    let bitset2 = BitSet::from(3);

    assert_eq!(bitset1 ^ bitset2, BitSet::from(5 ^ 3));

    let bitset1 = BitSet::from(8);
    let bitset2 = BitSet::from(9);

    assert_eq!(bitset1 ^ bitset2, BitSet::from(8 ^ 9));

    let bitset1 = BitSet::from(2645);
    let bitset2 = BitSet::from(4568);

    assert_eq!(bitset1 ^ bitset2, BitSet::from(2645 ^ 4568));
}

#[test]
fn logical_and_not() {
    let mut bitset1 = BitSet::from(5);
    let bitset2 = BitSet::from(3);

    let result_bitset = bitset1.cloned_and_not(&bitset2);

    assert_eq!(result_bitset, BitSet::from(5 & !3));
    bitset1.and_not(&bitset2).unwrap();
    assert_eq!(bitset1, BitSet::from(5 & !3));

    let mut bitset1 = BitSet::from(8);
    let bitset2 = BitSet::from(9);

    let result_bitset = bitset1.cloned_and_not(&bitset2);

    assert_eq!(result_bitset, BitSet::from(8 & !9));
    bitset1.and_not(&bitset2).unwrap();
    assert_eq!(bitset1, BitSet::from(8 & !9));

    let mut bitset1 = BitSet::from(2645);
    let bitset2 = BitSet::from(4568);

    let result_bitset = bitset1.cloned_and_not(&bitset2);

    assert_eq!(result_bitset, BitSet::from(2645 & !4568));
    bitset1.and_not(&bitset2).unwrap();
    assert_eq!(bitset1, BitSet::from(2645 & !4568));
}

fn bits_of(set: &BitSet, upto: usize) -> Vec<bool> {
    let mut bits = Vec::new();
    for i in 0..upto {
        bits.push(set.get(i));
    }
    bits
}

fn seeded(capacity: usize) -> BitSet {
    let mut set = BitSet::new();
    let mut i = 0;
    while i < capacity {
        if i % 3 == 0 || i % 7 == 2 {
            set.insert(i).unwrap();
        }
        i += 1;
    }
    set.grow_to_size(capacity).unwrap();
    set
}

const INTERVALS: [(usize, usize); 14] = [
    (1, 6),
    (3, 4),
    (5, 13),
    (7, 9),
    (2, 30),
    (9, 41),
    (0, 8),
    (8, 16),
    (8, 24),
    (0, 40),
    (4, 4),
    (8, 8),
    (0, 0),
    (16, 11),
];

#[test]
fn set_range_matches_bit_by_bit() {
    for &(start, end) in INTERVALS.iter() {
        for &to in [true, false].iter() {
            let mut ranged = seeded(40);
            let mut single = seeded(40);
            ranged.set_range(start, end, to).unwrap();
            for i in start..end {
                single.set(i, to).unwrap();
            }
            assert_eq!(bits_of(&ranged, 64), bits_of(&single, 64));
            assert_eq!(ranged, single);
        }
    }
}

#[test]
fn clear_range_matches_bit_by_bit() {
    for &(start, end) in INTERVALS.iter() {
        let mut ranged = seeded(48);
        let mut single = seeded(48);
        ranged.clear_range(start, end).unwrap();
        for i in start..end {
            single.clear(i).unwrap();
        }
        assert_eq!(bits_of(&ranged, 64), bits_of(&single, 64));
    }
}

#[test]
fn flip_range_matches_bit_by_bit() {
    for &(start, end) in INTERVALS.iter() {
        let mut ranged = seeded(24);
        let mut single = seeded(24);
        ranged.flip_range(start, end).unwrap();
        for i in start..end {
            single.flip(i).unwrap();
        }
        assert_eq!(bits_of(&ranged, 64), bits_of(&single, 64));
        if start < end {
            assert_eq!(ranged.capacity(), single.capacity());
        }
    }
}

#[test]
fn ranged_write_exact_words() {
    let mut set = BitSet::new();
    set.insert_range(5, 13).unwrap();
    assert_eq!(*set.as_words(), vec![0b1110_0000u8, 0b0001_1111]);
    set.clear_range(6, 9).unwrap();
    assert_eq!(*set.as_words(), vec![0b0010_0000u8, 0b0001_1110]);
    set.flip_range(0, 16).unwrap();
    assert_eq!(*set.as_words(), vec![0b1101_1111u8, 0b1110_0001]);
    set.insert_range(3, 20).unwrap();
    assert_eq!(*set.as_words(), vec![0b1111_1111u8, 0xFF, 0b0000_1111]);
}

#[test]
fn empty_interval_grows_but_sets_nothing() {
    let mut set = BitSet::new();
    set.set_range(12, 12, true).unwrap();
    assert_eq!(set.capacity(), 16);
    assert!(set.is_clear());
    set.set_range(30, 20, true).unwrap();
    assert_eq!(set.capacity(), 24);
    assert!(set.is_clear());
}

#[test]
fn grow_to_size_grows_to_whole_words() {
    let mut set = BitSet::new();
    set.grow_to_size(0).unwrap();
    assert_eq!(set.capacity(), 0);
    set.grow_to_size(1).unwrap();
    assert_eq!(set.capacity(), 8);
    set.grow_to_size(8).unwrap();
    assert_eq!(set.capacity(), 8);
    set.grow_to_size(9).unwrap();
    assert_eq!(set.capacity(), 16);
    set.grow_to_size(3).unwrap();
    assert_eq!(set.capacity(), 16);
    assert_eq!(set.len(), 2);
    assert!(set.is_clear());
}

#[test]
fn grow_to_size_keeps_the_bits() {
    let mut set = BitSet::from(0xA5u8);
    set.unfreeze();
    set.grow_to_size(20).unwrap();
    assert_eq!(*set.as_words(), vec![0xA5u8, 0, 0]);
}

#[test]
fn frozen_grow_to_size_fails_and_changes_nothing() {
    let mut set = BitSet::with_capacity(10);
    assert_eq!(set.capacity(), 16);
    assert_eq!(set.grow_to_size(16), Ok(()));
    assert_eq!(set.grow_to_size(17), Err(BitSetError::AttemptToGrowFrozen));
    assert_eq!(set.capacity(), 16);
    assert!(set.is_clear());
}

#[test]
fn grow_adds_to_the_capacity() {
    let mut set = BitSet::new();
    set.grow(10).unwrap();
    assert_eq!(set.capacity(), 16);
    set.grow(10).unwrap();
    assert_eq!(set.capacity(), 32);
    set.grow(0).unwrap();
    assert_eq!(set.capacity(), 32);
    set.freeze();
    assert_eq!(set.grow(0), Ok(()));
    assert_eq!(set.grow(1), Err(BitSetError::AttemptToGrowFrozen));
    assert_eq!(set.capacity(), 32);
}

#[test]
fn with_capacity_is_zeroed_and_frozen() {
    let set = BitSet::with_capacity(0);
    assert!(set.is_empty());
    let set = BitSet::with_capacity(20);
    assert_eq!(set.len(), BitSet::word_index(20) + 1);
    assert_eq!(set.len(), 3);
    assert!(set.is_clear());
    let mut set = BitSet::with_capacity(16);
    assert_eq!(set.len(), 3);
    assert_eq!(set.insert(24), Err(BitSetError::AttemptToGrowFrozen));
    assert_eq!(set.insert(23), Ok(()));
}

#[test]
fn frozen_vector_refuses_growth_until_unfrozen() {
    let mut set = BitSet::with_capacity(10);
    assert_eq!(set.insert(15), Ok(()));
    assert_eq!(set.insert(16), Err(BitSetError::AttemptToGrowFrozen));
    assert_eq!(set.capacity(), 16);
    assert!(!set.get(16));
    set.unfreeze();
    assert_eq!(set.insert(16), Ok(()));
    assert!(set.capacity() >= 17);
    assert_eq!(set.capacity(), 24);
    assert!(set.get(15));
    assert!(set.get(16));
}

#[test]
fn failed_writes_change_nothing() {
    let mut set = BitSet::from(0b1010_0101u8);
    let before = set.as_words().clone();
    assert_eq!(set.set(8, true), Err(BitSetError::AttemptToGrowFrozen));
    assert_eq!(set.clear(9), Err(BitSetError::AttemptToGrowFrozen));
    assert_eq!(set.flip(200), Err(BitSetError::AttemptToGrowFrozen));
    assert_eq!(set.put(8, true), Err(BitSetError::AttemptToGrowFrozen));
    assert_eq!(set.set_range(2, 9, false), Err(BitSetError::AttemptToGrowFrozen));
    assert_eq!(set.insert_range(0, 64), Err(BitSetError::AttemptToGrowFrozen));
    assert_eq!(set.clear_range(0, 9), Err(BitSetError::AttemptToGrowFrozen));
    assert_eq!(set.flip_range(4, 12), Err(BitSetError::AttemptToGrowFrozen));
    assert_eq!(set.insert(4..12), Err(BitSetError::AttemptToGrowFrozen));
    assert_eq!(set.insert(..=8), Err(BitSetError::AttemptToGrowFrozen));
    let longer = BitSet::from(0xFFFFu16);
    assert_eq!(set.and(&longer), Err(BitSetError::AttemptToGrowFrozen));
    assert_eq!(set.or(&longer), Err(BitSetError::AttemptToGrowFrozen));
    assert_eq!(set.xor(&longer), Err(BitSetError::AttemptToGrowFrozen));
    assert_eq!(set.and_not(&longer), Err(BitSetError::AttemptToGrowFrozen));
    assert_eq!(*set.as_words(), before);
    assert_eq!(set.set(7, false), Ok(()));
    assert_eq!(*set.as_words(), vec![0b0010_0101u8]);
}

#[test]
fn get_beyond_capacity_is_false() {
    let set = BitSet::from(0xFFu8);
    assert!(set.get(7));
    assert!(!set.get(8));
    assert!(!set.get(usize::MAX));
    assert!(!BitSet::new().get(0));
}

#[test]
fn set_and_clear_single_bits() {
    let mut set = BitSet::new();
    set.set(5, true).unwrap();
    assert!(set.get(5));
    assert_eq!(*set.as_words(), vec![0b0010_0000u8]);
    set.set(5, false).unwrap();
    assert!(!set.get(5));
    set.set(13, false).unwrap();
    assert_eq!(*set.as_words(), vec![0u8, 0]);
}

#[test]
fn set_with_every_shape() {
    let mut set = BitSet::new();
    set.set(2..7, true).unwrap();
    assert!(set.get(2));
    assert!(set.get(5));
    assert!(set.get(6));
    assert!(!set.get(1));
    assert!(!set.get(7));
    set.set(..5, false).unwrap();
    assert!(!set.get(4));
    assert!(set.get(5));

    let mut set = BitSet::new();
    set.insert(..=5).unwrap();
    assert!(set.get(4));
    assert!(set.get(5));
    assert!(!set.get(6));
    set.insert(9..=16).unwrap();
    assert!(!set.get(8));
    assert!(set.get(9));
    assert!(set.get(16));
    assert!(!set.get(17));
    assert_eq!(set.capacity(), 24);
    set.clear(12..).unwrap();
    assert!(set.get(11));
    assert!(!set.get(12));
    assert!(!set.get(16));
    assert_eq!(set.capacity(), 24);
    set.insert(..).unwrap();
    assert!(set.is_full());
    assert_eq!(set.capacity(), 24);

    let mut set = BitSet::new();
    set.insert(RangeSpec::Between(2, 7)).unwrap();
    set.clear(RangeSpec::To(5)).unwrap();
    set.insert(RangeSpec::Point(0)).unwrap();
    set.flip(RangeSpec::BetweenInclusive(6, 8)).unwrap();
    set.insert(RangeSpec::ToInclusive(1)).unwrap();
    set.flip(RangeSpec::From(14)).unwrap();
    set.flip(RangeSpec::Unbounded).unwrap();
    assert_eq!(
        bits_of(&set, 16),
        vec![
            false, false, true, true, true, false, true, false, false, true, true, true, true,
            true, false, false
        ]
    );
}

#[test]
fn range_spec_resolves() {
    assert_eq!(RangeSpec::Point(4).resolve(16), (4, 4, true));
    assert_eq!(RangeSpec::Unbounded.resolve(16), (0, 16, false));
    assert_eq!(RangeSpec::From(3).resolve(16), (3, 16, false));
    assert_eq!(RangeSpec::To(9).resolve(16), (0, 9, false));
    assert_eq!(RangeSpec::Between(3, 9).resolve(16), (3, 9, false));
    assert_eq!(RangeSpec::ToInclusive(9).resolve(16), (0, 9, true));
    assert_eq!(RangeSpec::BetweenInclusive(3, 9).resolve(16), (3, 9, true));
}

#[test]
fn insert_then_clear_ranges() {
    let mut set = BitSet::new();
    set.insert_range(2, 7).unwrap();
    assert!(set.get(5));
    assert!(!set.get(1));
    set.clear_range(0, 5).unwrap();
    assert!(!set.get(4));
    assert!(set.get(5));

    let mut set = BitSet::new();
    set.insert(2..7).unwrap();
    assert!(set.get(5));
    assert!(!set.get(1));
    set.clear(..5).unwrap();
    assert!(!set.get(4));
    assert!(set.get(5));
}

#[test]
fn flip_bits_and_ranges() {
    let mut set = BitSet::new();
    set.flip(5).unwrap();
    assert!(set.get(5));
    set.flip(5).unwrap();
    assert!(!set.get(5));

    let mut set = BitSet::new();
    set.flip(2..7).unwrap();
    assert!(set.get(4));
    assert!(set.get(5));
    set.flip(..5).unwrap();
    assert!(!set.get(4));
    assert!(set.get(5));
    assert!(set.get(0));

    let mut set = BitSet::new();
    set.flip(..5).unwrap();
    assert!(set.get(4));
    assert!(!set.get(5));
}

#[test]
fn put_gives_the_previous_value() {
    let mut set = BitSet::new();
    assert_eq!(set.put(5, true), Ok(false));
    assert!(set.get(5));
    assert_eq!(set.put(5, true), Ok(true));
    assert!(set.get(5));
    assert_eq!(set.put(5, false), Ok(true));
    assert!(!set.get(5));
    assert_eq!(set.put(70, false), Ok(false));
    assert_eq!(set.capacity(), 72);
}

#[test]
fn empty_clear_and_full() {
    let mut set = BitSet::new();
    assert!(set.is_empty());
    assert!(set.is_clear());
    assert!(set.is_full());
    set.clear(5).unwrap();
    assert!(!set.is_empty());
    assert!(set.is_clear());
    assert!(!set.is_full());
    set.trim();
    assert!(set.is_empty());

    let mut set = BitSet::new();
    set.insert(5).unwrap();
    assert!(!set.is_clear());
    set.clear(5).unwrap();
    assert!(set.is_clear());
    set.insert(2..9).unwrap();
    assert!(!set.is_clear());
    set.flush();
    assert!(set.is_clear());
    assert_eq!(set.len(), 2);

    let mut set = BitSet::new();
    set.insert(10).unwrap();
    assert!(!set.is_full());
    set.insert(..).unwrap();
    assert!(set.is_full());
    set.clear(15).unwrap();
    assert!(!set.is_full());
}

#[test]
fn len_capacity_and_size() {
    let mut set = BitSet::new();
    assert_eq!(set.len(), 0);
    assert_eq!(set.capacity(), 0);
    assert_eq!(set.size(), 0);
    set.insert(5).unwrap();
    assert_eq!(set.len(), BitSet::word_index(5) + 1);
    assert_eq!(set.capacity(), (BitSet::word_index(5) + 1) * BitSet::WORD_SIZE);

    let mut set = BitSet::new();
    set.insert(5..15).unwrap();
    assert_eq!(set.size(), BitSet::word_index(15) + 1);
    set.clear(10..).unwrap();
    assert_eq!(set.size(), BitSet::word_index(9) + 1);
    set.trim();
    assert_eq!(set.size(), BitSet::word_index(9) + 1);
    set.flush();
    assert_eq!(set.size(), 0);
    assert_eq!(set.len(), 2);
}

#[test]
fn word_index_divides_by_the_word_size() {
    assert_eq!(BitSet::WORD_SIZE, 8);
    assert_eq!(BitSet::word_index(0), 0);
    assert_eq!(BitSet::word_index(7), 0);
    assert_eq!(BitSet::word_index(8), 1);
    assert_eq!(BitSet::word_index(20), 2);
    assert_eq!(BitSet::word_index(usize::MAX), usize::MAX / 8);
}

#[test]
fn trim_drops_trailing_zero_words_only() {
    let mut set = BitSet::new();
    set.insert(3).unwrap();
    set.insert(40).unwrap();
    set.clear(40).unwrap();
    set.grow_to_size(64).unwrap();
    assert_eq!(*set.as_words(), vec![8u8, 0, 0, 0, 0, 0, 0, 0]);
    set.trim();
    assert_eq!(*set.as_words(), vec![8u8]);

    let mut set = BitSet::new();
    set.insert(0).unwrap();
    set.insert(17).unwrap();
    set.grow_to_size(40).unwrap();
    set.trim();
    assert_eq!(*set.as_words(), vec![1u8, 0, 2]);
    set.trim();
    assert_eq!(*set.as_words(), vec![1u8, 0, 2]);
}

#[test]
fn trim_leaves_a_frozen_vector_alone() {
    let mut set = BitSet::with_capacity(30);
    set.insert(1).unwrap();
    set.trim();
    assert_eq!(set.len(), 4);
    set.unfreeze();
    set.trim();
    assert_eq!(set.len(), 1);
    assert!(set.get(1));
}

#[test]
fn flush_keeps_the_length() {
    let mut set = BitSet::from(0xFFFF_FFFFu32);
    set.flush();
    assert_eq!(*set.as_words(), vec![0u8, 0, 0, 0]);
    assert_eq!(set.insert(32), Err(BitSetError::AttemptToGrowFrozen));
}

#[test]
fn freeze_and_unfreeze_touch_no_bit() {
    let mut set = BitSet::new();
    set.insert(9).unwrap();
    set.freeze();
    assert_eq!(*set.as_words(), vec![0u8, 2]);
    assert_eq!(set.insert(16), Err(BitSetError::AttemptToGrowFrozen));
    set.unfreeze();
    assert_eq!(*set.as_words(), vec![0u8, 2]);
    assert_eq!(set.insert(16), Ok(()));
}

#[test]
fn clone_keeps_bits_and_freeze_state() {
    let set = BitSet::from(0x1234u16);
    let mut copy = set.clone();
    assert_eq!(copy, set);
    assert_eq!(*copy.as_words(), vec![0x34u8, 0x12]);
    assert_eq!(copy.insert(16), Err(BitSetError::AttemptToGrowFrozen));
}

#[test]
fn algebra_on_bytes() {
    let mut set = BitSet::from(5u8);
    set.and(&BitSet::from(3u8)).unwrap();
    assert_eq!(set, BitSet::from(1u8));
    let mut set = BitSet::from(5u8);
    set.or(&BitSet::from(3u8)).unwrap();
    assert_eq!(set, BitSet::from(7u8));
    let mut set = BitSet::from(5u8);
    set.xor(&BitSet::from(3u8)).unwrap();
    assert_eq!(set, BitSet::from(6u8));
    let mut set = BitSet::from(5u8);
    set.and_not(&BitSet::from(3u8)).unwrap();
    assert_eq!(set, BitSet::from(4u8));
    assert_eq!(*set.as_words(), vec![4u8]);
}

#[test]
fn algebra_pads_the_shorter_vector() {
    let short = BitSet::from(0b1100u8);
    let long = BitSet::from(0xABCD_u16);

    let mut set = long.clone();
    set.and(&short).unwrap();
    assert_eq!(*set.as_words(), vec![0b1100u8, 0]);
    let mut set = long.clone();
    set.or(&short).unwrap();
    assert_eq!(*set.as_words(), vec![0xCDu8, 0xAB]);
    let mut set = long.clone();
    set.xor(&short).unwrap();
    assert_eq!(*set.as_words(), vec![0xC1u8, 0xAB]);
    let mut set = long.clone();
    set.and_not(&short).unwrap();
    assert_eq!(*set.as_words(), vec![0xC1u8, 0xAB]);

    let mut set = short.clone();
    set.unfreeze();
    set.and(&long).unwrap();
    assert_eq!(*set.as_words(), vec![0b1100u8, 0]);
    let mut set = short.clone();
    set.unfreeze();
    set.and_not(&long).unwrap();
    assert_eq!(*set.as_words(), vec![0u8, 0]);
}

#[test]
fn cloned_algebra_never_fails() {
    let short = BitSet::from(0b0110u8);
    let long = BitSet::from(0xFF0F_u16);
    assert_eq!(*short.cloned_and(&long).as_words(), vec![0b0110u8, 0]);
    assert_eq!(*short.cloned_or(&long).as_words(), vec![0x0Fu8, 0xFF]);
    assert_eq!(*short.cloned_xor(&long).as_words(), vec![0x09u8, 0xFF]);
    assert_eq!(*short.cloned_and_not(&long).as_words(), vec![0u8, 0]);
    let mut result = short.cloned_or(&long);
    assert_eq!(result.insert(40), Ok(()));
    assert_eq!(*short.as_words(), vec![0b0110u8]);
}

#[test]
fn operators_with_borrowed_right_side() {
    let a = BitSet::from(0b1100u8);
    let b = BitSet::from(0b1010u8);
    assert_eq!(a.clone() & &b, BitSet::from(0b1000u8));
    assert_eq!(a.clone() | &b, BitSet::from(0b1110u8));
    assert_eq!(a.clone() ^ &b, BitSet::from(0b0110u8));
    assert_eq!(!&a, BitSet::from(0b1111_0011u8));
    assert_eq!(!a, BitSet::from(0b1111_0011u8));
    let mut c = !BitSet::from(0u16);
    assert_eq!(*c.as_words(), vec![0xFFu8, 0xFF]);
    assert_eq!(c.insert(16), Err(BitSetError::AttemptToGrowFrozen));
}

#[test]
fn and_and_or_commute() {
    let a = BitSet::from(0b1011_0010u8);
    let b = BitSet::from(0x0FF0_1234u32);
    assert_eq!(a.cloned_and(&b), b.cloned_and(&a));
    assert_eq!(a.cloned_or(&b), b.cloned_or(&a));
    assert_eq!(a.cloned_and(&b).as_words(), b.cloned_and(&a).as_words());
    assert_eq!(a.cloned_or(&b).as_words(), b.cloned_or(&a).as_words());
}

#[test]
fn xor_with_itself_is_clear() {
    let a = BitSet::from(0xDEAD_BEEFu32);
    let x = a.cloned_xor(&a);
    assert!(x.is_clear());
    assert_eq!(x.len(), 4);
}

#[test]
fn split_and_rejoin_gives_the_vector_back() {
    let a = BitSet::from(0xB2u8);
    let b = BitSet::from(0x0FF0_1234u32);
    let joined = a.cloned_and_not(&b).cloned_or(&a.cloned_and(&b));
    assert_eq!(joined, a);
    let joined = b.cloned_and_not(&a).cloned_or(&b.cloned_and(&a));
    assert_eq!(joined, b);
}

#[test]
fn subset_superset_and_disjoint() {
    let small = BitSet::from(0b0000_0110u8);
    let big = BitSet::from(0x0F0Eu16);
    let other = BitSet::from(0b1001_0000u8);
    assert!(small.is_subset(&big));
    assert!(big.is_superset(&small));
    assert!(!big.is_subset(&small));
    assert!(!small.is_superset(&big));
    assert!(small.is_disjoint(&other));
    assert!(other.is_disjoint(&small));
    assert!(!small.is_disjoint(&big));
    assert!(BitSet::new().is_subset(&small));
    assert!(BitSet::new().is_disjoint(&small));
    for (a, b) in [(&small, &big), (&big, &small), (&small, &other), (&big, &big)] {
        assert_eq!(a.is_subset(b), b.is_superset(a));
        assert_eq!(a.is_subset(b), a.cloned_and_not(b).is_clear());
    }
}

#[test]
fn mutual_subsets_are_equal() {
    let a = BitSet::from(0x5Au8);
    let mut b = BitSet::new();
    b.insert(1).unwrap();
    b.insert(3..5).unwrap();
    b.insert(6).unwrap();
    b.grow_to_size(30).unwrap();
    assert!(a.is_subset(&b));
    assert!(b.is_subset(&a));
    assert_eq!(a, b);
    assert_ne!(a.len(), b.len());
}

#[test]
fn equality_ignores_length_and_freeze_state() {
    let mut a = BitSet::new();
    a.insert(0).unwrap();
    a.insert(2).unwrap();
    assert_eq!(a, BitSet::from(5u8));
    assert_eq!(a, BitSet::from(5u64));
    assert_eq!(BitSet::from(5i32), BitSet::from(5u8));
    assert_ne!(a, BitSet::from(0x0105u16));
    assert_ne!(BitSet::from(0x0105u16), a);
    assert_eq!(BitSet::new(), BitSet::with_capacity(100));
}

fn check_round_trip(set: &BitSet, value: u128, width: usize) {
    assert_eq!(set.capacity(), width);
    assert_eq!(set.len(), width / 8);
    for i in 0..width {
        assert_eq!(set.get(i), (value >> i) & 1 == 1);
    }
    for i in width..width + 70 {
        assert!(!set.get(i));
    }
}

#[test]
fn integers_round_trip() {
    check_round_trip(&BitSet::from(0xA5u8), 0xA5, 8);
    check_round_trip(&BitSet::from(0xBEEFu16), 0xBEEF, 16);
    check_round_trip(&BitSet::from(0xDEAD_BEEFu32), 0xDEAD_BEEF, 32);
    check_round_trip(&BitSet::from(0x0123_4567_89AB_CDEFu64), 0x0123_4567_89AB_CDEF, 64);
    check_round_trip(
        &BitSet::from(0x0123_4567_89AB_CDEF_FEDC_BA98_7654_3210u128),
        0x0123_4567_89AB_CDEF_FEDC_BA98_7654_3210,
        128,
    );
    check_round_trip(&BitSet::from(0x1234usize), 0x1234, usize::BITS as usize);
    check_round_trip(&BitSet::from(-1i8), 0xFF, 8);
    check_round_trip(&BitSet::from(-2i16), 0xFFFE, 16);
    check_round_trip(&BitSet::from(i32::MIN), 0x8000_0000, 32);
    check_round_trip(&BitSet::from(-3i64), 0xFFFF_FFFF_FFFF_FFFD, 64);
    check_round_trip(&BitSet::from(-1i128), u128::MAX, 128);
    check_round_trip(&BitSet::from(-1isize), usize::MAX as u128, isize::BITS as usize);
    check_round_trip(&BitSet::from(5), 5, 32);
}

#[test]
fn integers_are_laid_out_low_word_first() {
    assert_eq!(*BitSet::from(0x0102_0304u32).as_words(), vec![4u8, 3, 2, 1]);
    assert_eq!(*BitSet::from(-2i16).as_words(), vec![0xFEu8, 0xFF]);
    assert_eq!(*BitSet::from(2645).as_words(), vec![0x55u8, 0x0A, 0, 0]);
}

#[test]
fn converted_integers_are_frozen() {
    let mut set = BitSet::from(1u8);
    assert_eq!(set.insert(8), Err(BitSetError::AttemptToGrowFrozen));
    let mut set = BitSet::from_slice(&[1u8, 2]);
    assert_eq!(set.insert(16), Err(BitSetError::AttemptToGrowFrozen));
    let mut set = BitSet::from_bools(&[true]);
    assert_eq!(set.insert(8), Err(BitSetError::AttemptToGrowFrozen));
}

#[test]
fn slices_are_laid_out_element_by_element() {
    assert_eq!(*BitSet::from_slice(&[1u8, 2, 3]).as_words(), vec![1u8, 2, 3]);
    assert_eq!(*BitSet::from_slice(&[0x0102u16, 0xA0B0]).as_words(), vec![2u8, 1, 0xB0, 0xA0]);
    assert_eq!(
        *BitSet::from_slice(&[-1i32, 1]).as_words(),
        vec![0xFFu8, 0xFF, 0xFF, 0xFF, 1, 0, 0, 0]
    );
    let values: Vec<u64> = vec![1, 1 << 63];
    let set = BitSet::from_slice(&values);
    assert_eq!(set.capacity(), 128);
    assert!(set.get(0));
    assert!(set.get(127));
    assert!(!set.get(64));
    assert!(BitSet::from_slice::<u32>(&[]).is_empty());
}

#[test]
fn booleans_are_packed_eight_to_a_word() {
    let set = BitSet::from_bools(&[true, false, true, true, false, false, false, false, false, true]);
    assert_eq!(*set.as_words(), vec![0b0000_1101u8, 0b0000_0010]);
    assert!(BitSet::from_bools(&[]).is_empty());
    assert_eq!(*BitSet::from_bools(&[true; 8]).as_words(), vec![0xFFu8]);
}

#[test]
fn every_short_interval_matches_bit_by_bit() {
    for start in 0..=34usize {
        for end in 0..=34usize {
            let mut ranged = seeded(24);
            let mut single = seeded(24);
            ranged.insert_range(start, end).unwrap();
            for i in start..end {
                single.insert(i).unwrap();
            }
            assert_eq!(ranged, single);

            let mut ranged = seeded(24);
            let mut single = seeded(24);
            ranged.clear_range(start, end).unwrap();
            for i in start..end {
                single.clear(i).unwrap();
            }
            assert_eq!(ranged, single);

            let mut ranged = seeded(24);
            let mut single = seeded(24);
            ranged.flip_range(start, end).unwrap();
            for i in start..end {
                single.flip(i).unwrap();
            }
            assert_eq!(ranged, single);
            for i in 0..48 {
                let inside = start <= i && i < end;
                assert_eq!(ranged.get(i), seeded(24).get(i) != inside);
            }
        }
    }
}

#[test]
fn shapes_of_the_range_expressions() {
    assert_eq!(7usize.range_spec(), RangeSpec::Point(7));
    assert_eq!((..).range_spec(), RangeSpec::Unbounded);
    assert_eq!((3usize..).range_spec(), RangeSpec::From(3));
    assert_eq!((..9usize).range_spec(), RangeSpec::To(9));
    assert_eq!((3usize..9).range_spec(), RangeSpec::Between(3, 9));
    assert_eq!((..=9usize).range_spec(), RangeSpec::ToInclusive(9));
    assert_eq!((3usize..=9).range_spec(), RangeSpec::BetweenInclusive(3, 9));
    assert_eq!(RangeSpec::From(2).range_spec(), RangeSpec::From(2));
}
