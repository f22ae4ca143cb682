use sarsa::LimitedList;

#[test]
fn should_reorder() {
    let mut ll: LimitedList<usize, 4> = LimitedList::new();
    for i in 0..7usize {
        ll.push(i);
    }
    assert_eq!(*ll.slot_values(), vec![4, 5, 6, 3]);
    ll.clean();
    assert_eq!(*ll.slot_values(), vec![3, 4, 5, 6]);
}

#[test]
fn partial_iterator_read_out_for_non_filled_list() {
    let mut ll: LimitedList<usize, 4> = LimitedList::new();
    ll.push(1);
    ll.push(2);
    let mut it = ll.into_iter();
    let mut items: Vec<usize> = Vec::new();
    while let Some(v) = it.next() {
        items.push(v);
    }
    assert_eq!(items, vec![1, 2])
}

fn drain<T, const LIMIT: usize>(ll: LimitedList<T, LIMIT>) -> Vec<T> {
    let mut it = ll.into_iter();
    let mut items: Vec<T> = Vec::new();
    while let Some(v) = it.next() {
        items.push(v);
    }
    items
}

#[test]
fn wrapped_drain_is_chronological() {
    let mut ll: LimitedList<u64, 4> = LimitedList::new();
    for i in 0..7u64 {
        ll.push(i);
    }
    assert_eq!(drain(ll), vec![3, 4, 5, 6]);
}

#[test]
fn exactly_full_drain_keeps_insertion_order() {
    let mut ll: LimitedList<u64, 4> = LimitedList::new();
    for i in 10..14u64 {
        ll.push(i);
    }
    // With exactly LIMIT pushes the cursor is back at slot 0, so clean has
    // nothing to rotate.
    ll.clean();
    assert_eq!(*ll.slot_values(), vec![10, 11, 12, 13]);
    assert_eq!(drain(ll), vec![10, 11, 12, 13]);
}

#[test]
fn empty_window_drains_nothing() {
    let ll: LimitedList<u64, 4> = LimitedList::new();
    assert_eq!(drain(ll), Vec::<u64>::new());
}

#[test]
fn clean_is_idempotent() {
    let mut ll: LimitedList<u64, 4> = LimitedList::new();
    for i in 0..11u64 {
        ll.push(i);
    }
    ll.clean();
    let once = ll.slot_values().clone();
    ll.clean();
    assert_eq!(*ll.slot_values(), once);
    assert_eq!(once, vec![7, 8, 9, 10]);
}

#[test]
fn exhausted_drain_stays_exhausted() {
    let mut ll: LimitedList<u64, 3> = LimitedList::new();
    ll.push(5);
    ll.push(6);
    let mut it = ll.into_iter();
    assert_eq!(it.next(), Some(5));
    assert_eq!(it.next(), Some(6));
    assert_eq!(it.next(), None);
    assert_eq!(it.next(), None);
}

#[test]
fn sum_adds_retained_rewards() {
    let mut ll: LimitedList<u64, 3> = LimitedList::new();
    for r in [25u64, 0, 10, 5] {
        ll.push(r);
    }
    // Only the three most recent rewards are retained: 0 + 10 + 5.
    assert_eq!(ll.sum(), 15);
}

#[test]
fn sum_of_partial_window() {
    let mut ll: LimitedList<u64, 100> = LimitedList::new();
    ll.push(20);
    ll.push(15);
    assert_eq!(ll.sum(), 35);
}
