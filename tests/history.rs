use ink_stroke_modeler::history::BoundedHistory;

fn contents(h: &BoundedHistory<u32>) -> Vec<u32> {
    let mut v = Vec::new();
    for i in 0..h.len() {
        v.push(*h.get(i));
    }
    v
}

#[test]
fn new_history_is_empty() {
    let h: BoundedHistory<u32> = BoundedHistory::new(10);
    assert!(h.is_empty());
    assert_eq!(h.len(), 0);
    assert_eq!(h.capacity(), 10);
}

#[test]
fn history_keeps_insertion_order_below_capacity() {
    let mut h = BoundedHistory::new(4);
    h.push(1u32);
    h.push(2);
    h.push(3);
    assert_eq!(contents(&h), vec![1, 2, 3]);
}

#[test]
fn history_drops_oldest_when_full() {
    let mut h = BoundedHistory::new(3);
    for x in 1u32..=5 {
        h.push(x);
    }
    assert_eq!(contents(&h), vec![3, 4, 5]);
    h.push(6);
    assert_eq!(contents(&h), vec![4, 5, 6]);
}

#[test]
fn history_never_exceeds_capacity() {
    let mut h = BoundedHistory::new(10);
    for x in 0u32..37 {
        h.push(x);
        assert!(h.len() <= 10);
    }
    assert_eq!(h.len(), 10);
    assert_eq!(contents(&h), (27u32..37).collect::<Vec<u32>>());
}

#[test]
fn history_with_capacity_one_keeps_the_newest() {
    let mut h = BoundedHistory::new(1);
    h.push(7u32);
    h.push(8);
    assert_eq!(contents(&h), vec![8]);
}

#[test]
fn history_with_zero_capacity_stays_empty() {
    let mut h = BoundedHistory::new(0);
    h.push(7u32);
    assert!(h.is_empty());
}

#[test]
fn history_reset_empties_and_changes_capacity() {
    let mut h = BoundedHistory::new(3);
    for x in 0u32..5 {
        h.push(x);
    }
    h.reset(2);
    assert!(h.is_empty());
    assert_eq!(h.capacity(), 2);
    h.push(10);
    h.push(11);
    h.push(12);
    assert_eq!(contents(&h), vec![11, 12]);
}
