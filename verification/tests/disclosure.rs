use std::collections::{HashMap, HashSet};

use amcl_wrapper::field_elem::FieldElement as AmclFieldElement;
use amcl_wrapper::group_elem::GroupElement;
use amcl_wrapper::group_elem_g2::G2;

use threshold_cred::disclosure::{
    count_hidden, find_bad_index, find_bad_key, hidden_bases, hidden_bases_of_map, hidden_exponents,
    revealed_pairs,
};
use threshold_cred::field::FieldElement;
use threshold_cred::group::VerkeyGroup;

fn number(i: u64) -> FieldElement {
    FieldElement::from_bytes(AmclFieldElement::from(i).to_bytes()).unwrap()
}

fn point(i: u64) -> VerkeyGroup {
    let p = G2::generator() * AmclFieldElement::from(i);
    VerkeyGroup::from_bytes(p.to_bytes(false)).unwrap()
}

fn set(indices: &[usize]) -> HashSet<usize> {
    indices.iter().cloned().collect()
}

fn map(entries: &[(usize, u64)]) -> HashMap<usize, FieldElement> {
    entries.iter().map(|(i, v)| (*i, number(*v))).collect()
}

#[test]
fn bad_index_is_found_only_where_there_is_one() {
    assert_eq!(find_bad_index(&set(&[0, 1, 2]), 3), None);
    assert_eq!(find_bad_index(&set(&[]), 0), None);
    assert_eq!(find_bad_index(&set(&[0, 3]), 3), Some(3));
    assert_eq!(find_bad_index(&set(&[0]), 0), Some(0));
    let bad = find_bad_index(&set(&[5, 1, 9]), 4).unwrap();
    assert!(bad == 5 || bad == 9);
}

#[test]
fn bad_key_is_found_only_where_there_is_one() {
    assert_eq!(find_bad_key(&map(&[(0, 10), (2, 12)]), 3), None);
    assert_eq!(find_bad_key(&map(&[]), 0), None);
    assert_eq!(find_bad_key(&map(&[(0, 10), (3, 13)]), 3), Some(3));
    let bad = find_bad_key(&map(&[(7, 1), (1, 2), (8, 3)]), 5).unwrap();
    assert!(bad == 7 || bad == 8);
}

#[test]
fn hidden_attributes_are_counted() {
    assert_eq!(count_hidden(6, &set(&[])), 6);
    assert_eq!(count_hidden(6, &set(&[3, 5])), 4);
    assert_eq!(count_hidden(3, &set(&[0, 1, 2])), 0);
    assert_eq!(count_hidden(0, &set(&[])), 0);
    // A position that names no attribute hides none and reveals none.
    assert_eq!(count_hidden(3, &set(&[1, 7])), 2);
}

#[test]
fn hidden_bases_keep_their_order() {
    let first = point(100);
    let ys: Vec<VerkeyGroup> = (1..6).map(point).collect();
    let bases = hidden_bases(&first, ys.as_slice(), &set(&[1, 3]));
    assert_eq!(bases, vec![point(100), point(1), point(3), point(5)]);
    let bases = hidden_bases(&first, ys.as_slice(), &set(&[]));
    assert_eq!(bases.len(), 6);
    assert_eq!(bases[0], first);
    assert_eq!(bases[5], ys[4]);
    let bases = hidden_bases(&first, ys.as_slice(), &set(&[0, 1, 2, 3, 4]));
    assert_eq!(bases, vec![point(100)]);
    let bases = hidden_bases(&first, &[], &set(&[0]));
    assert_eq!(bases, vec![point(100)]);
}

#[test]
fn hidden_bases_by_map_agree_with_those_by_set() {
    let first = point(100);
    let ys: Vec<VerkeyGroup> = (1..6).map(point).collect();
    let by_map = hidden_bases_of_map(&first, ys.as_slice(), &map(&[(1, 0), (3, 0)]));
    let by_set = hidden_bases(&first, ys.as_slice(), &set(&[1, 3]));
    assert_eq!(by_map, by_set);
}

#[test]
fn hidden_exponents_keep_their_order() {
    let messages: Vec<FieldElement> = (1..5).map(number).collect();
    let exponents = hidden_exponents(number(50), messages.as_slice(), &set(&[0, 2]));
    assert_eq!(exponents, vec![number(50), number(2), number(4)]);
    let exponents = hidden_exponents(number(50), &[], &set(&[]));
    assert_eq!(exponents, vec![number(50)]);
}

#[test]
fn revealed_pairs_come_in_ascending_position() {
    let ys: Vec<VerkeyGroup> = (1..6).map(point).collect();
    let (bases, values) = revealed_pairs(ys.as_slice(), &map(&[(4, 44), (0, 40), (2, 42)]));
    assert_eq!(bases, vec![point(1), point(3), point(5)]);
    assert_eq!(values, vec![number(40), number(42), number(44)]);
    let (bases, values) = revealed_pairs(ys.as_slice(), &map(&[]));
    assert!(bases.is_empty());
    assert!(values.is_empty());
    // A key that names no attribute is passed over.
    let (bases, values) = revealed_pairs(ys.as_slice(), &map(&[(1, 41), (9, 49)]));
    assert_eq!(bases, vec![point(2)]);
    assert_eq!(values, vec![number(41)]);
}
