use zjit::bitset::BitSet;

#[test]
fn with_capacity_defaults_to_zero() {
    let set = BitSet::with_capacity(4);
    assert_eq!(set.get(0), false);
    assert_eq!(set.get(1), false);
    assert_eq!(set.get(2), false);
    assert_eq!(set.get(3), false);
}

#[test]
fn insert_sets_bit() {
    let mut set = BitSet::with_capacity(4);
    assert_eq!(set.insert(1), true);
    assert_eq!(set.get(1), true);
}

#[test]
fn insert_with_set_bit_returns_false() {
    let mut set = BitSet::with_capacity(4);
    assert_eq!(set.insert(1), true);
    assert_eq!(set.insert(1), false);
}

#[test]
fn intersect_with_keeps_only_common_bits() {
    let mut left = BitSet::with_capacity(3);
    let mut right = BitSet::with_capacity(3);
    left.insert(0);
    left.insert(1);
    right.insert(1);
    right.insert(2);
    left.intersect_with(&right);
    assert_eq!(left.get(0), false);
    assert_eq!(left.get(1), true);
    assert_eq!(left.get(2), false);
}

#[test]
fn intersect_with_reports_change() {
    let mut left = BitSet::with_capacity(3);
    let mut right = BitSet::with_capacity(3);
    left.insert(0);
    left.insert(1);
    right.insert(1);
    right.insert(2);
    assert_eq!(left.intersect_with(&right), true);
    assert_eq!(left.get(0), false);
    assert_eq!(left.get(1), true);
    assert_eq!(left.get(2), false);
}

#[test]
fn intersect_with_no_change_returns_false() {
    let mut left = BitSet::with_capacity(130);
    let mut right = BitSet::with_capacity(130);
    left.insert(5);
    left.insert(129);
    right.insert(5);
    right.insert(64);
    right.insert(129);
    assert_eq!(left.intersect_with(&right), false);
    assert_eq!(left.get(5), true);
    assert_eq!(left.get(64), false);
    assert_eq!(left.get(129), true);
}

#[test]
fn insert_across_word_boundary() {
    let mut set = BitSet::with_capacity(130);
    assert_eq!(set.insert(63), true);
    assert_eq!(set.insert(64), true);
    assert_eq!(set.insert(128), true);
    assert_eq!(set.get(63), true);
    assert_eq!(set.get(64), true);
    assert_eq!(set.get(65), false);
    assert_eq!(set.get(128), true);
    assert_eq!(set.get(129), false);
}
