use ribbon::id_index::IdIndex;

fn sorted(mut v: Vec<u64>) -> Vec<u64> {
    v.sort();
    v
}

#[test]
fn unfilled_keys_read_as_none() {
    let index = IdIndex::new();
    assert_eq!(index.ids(1), None);
}

#[test]
fn filled_keys_read_back_their_ids() {
    let mut index = IdIndex::default();
    index.fill(1, &vec![5, 3, 5]);
    assert_eq!(sorted(index.ids(1).unwrap()), vec![3, 5]);
    index.fill(1, &vec![5, 3]);
    assert_eq!(sorted(index.ids(1).unwrap()), vec![3, 5]);
    index.fill(1, &vec![8]);
    assert_eq!(sorted(index.ids(1).unwrap()), vec![3, 5, 8]);
    assert_eq!(index.ids(2), None);
    index.fill(2, &vec![]);
    assert_eq!(index.ids(2), Some(vec![]));
}

#[test]
fn adding_only_to_filled_keys() {
    let mut index = IdIndex::new();
    assert!(!index.add_if_filled(4, 10));
    assert_eq!(index.ids(4), None);
    index.fill(4, &vec![1]);
    assert!(index.add_if_filled(4, 10));
    assert!(index.add_if_filled(4, 10));
    assert_eq!(sorted(index.ids(4).unwrap()), vec![1, 10]);
}
