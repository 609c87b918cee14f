use glance::history::history_order;

#[test]
fn newest_first_ties_in_stored_order() {
    let keys = vec![(10, 0), (30, 5), (30, 5), (20, 0), (30, 1)];
    assert_eq!(history_order(&keys, None), vec![1, 2, 4, 3, 0]);
}

#[test]
fn limit_keeps_the_newest() {
    let keys = vec![(10, 0), (30, 5), (20, 0)];
    assert_eq!(history_order(&keys, Some(2)), vec![1, 2]);
    assert_eq!(history_order(&keys, Some(0)), Vec::<usize>::new());
    assert_eq!(history_order(&keys, Some(10)), vec![1, 2, 0]);
    assert!(history_order(&vec![], Some(3)).is_empty());
}

#[test]
fn agrees_with_a_stable_sort() {
    let keys: Vec<(i64, u32)> = (0..40).map(|i| ((i * 7 % 5) as i64 - 2, (i % 3) as u32)).collect();
    let mut expected: Vec<usize> = (0..keys.len()).collect();
    expected.sort_by(|a, b| keys[*b].cmp(&keys[*a]));
    assert_eq!(history_order(&keys, None), expected);
}
