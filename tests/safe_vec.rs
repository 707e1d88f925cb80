use pi_append_vec::safe_vec::SafeVec;

#[test]
fn safe_insert_publishes_immediately_without_entries() {
    let mut vec: SafeVec<String> = SafeVec::with_capacity(2);
    for k in 0..10usize {
        let index = vec.insert(format!("v{}", k));
        assert_eq!(index, k);
        assert_eq!(vec.len(), k + 1);
    }
    assert_eq!(vec.get(3), Some(&"v3".to_string()));
    assert_eq!(vec[9], "v9");
    assert_eq!(vec.get(10), None);
}

#[test]
fn scenario_entry_holds_back_publication() {
    let mut vec: SafeVec<u32> = SafeVec::with_capacity(4);
    for k in 0..5u32 {
        vec.insert(k);
    }
    let entry = vec.alloc_entry();
    assert_eq!(entry.index(), 5);
    let later = vec.insert(60);
    assert_eq!(later, 6);
    assert!(vec.len() <= 5);
    assert_eq!(vec.get(6), None);
    assert_eq!(vec.get(5), None);
    entry.insert(&mut vec, 50);
    assert_eq!(vec.len(), 7);
    assert_eq!(vec.get(5), Some(&50));
    assert_eq!(vec.get(6), Some(&60));
}

#[test]
fn entries_released_out_of_order_publish_in_order() {
    let mut vec: SafeVec<u32> = SafeVec::default();
    let first = vec.alloc_entry();
    let second = vec.alloc_entry();
    let third = vec.alloc_entry();
    assert_eq!((first.index(), second.index(), third.index()), (0, 1, 2));
    third.insert(&mut vec, 3);
    assert_eq!(vec.len(), 0);
    second.insert(&mut vec, 2);
    assert_eq!(vec.len(), 0);
    first.insert(&mut vec, 1);
    assert_eq!(vec.len(), 3);
    let seen: Vec<u32> = vec.iter().into_iter().copied().collect();
    assert_eq!(seen, vec![1, 2, 3]);
}

#[test]
fn released_entry_without_value_reads_as_empty() {
    let mut vec: SafeVec<u32> = SafeVec::with_capacity(0);
    vec.insert(1);
    let entry = vec.alloc_entry();
    vec.insert(3);
    entry.release(&mut vec);
    assert_eq!(vec.len(), 3);
    assert_eq!(vec.get(1), None);
    assert_eq!(vec.get(2), Some(&3));
    let seen: Vec<u32> = vec.iter().into_iter().copied().collect();
    assert_eq!(seen, vec![1]);
    let tail: Vec<u32> = vec.slice(2..10).into_iter().copied().collect();
    assert_eq!(tail, vec![3]);
}

#[test]
fn load_reaches_unpublished_slots() {
    let mut vec: SafeVec<u32> = SafeVec::with_capacity(1);
    let entry = vec.alloc_entry();
    vec.insert(8);
    assert!(vec.load(1).is_some());
    *vec.load(1).unwrap() = 9;
    assert_eq!(vec.get(1), None);
    assert!(vec.load(0).is_none());
    assert!(vec.load(2).is_none());
    entry.insert(&mut vec, 7);
    assert_eq!(vec.get(1), Some(&9));
    *vec.load_unchecked(0) = 70;
    *vec.get_mut(1).unwrap() = 90;
    assert_eq!(vec.get_unchecked(0), &70);
    assert_eq!(*vec.get_unchecked_mut(1), 90);
}

#[test]
fn safe_settle_and_clear() {
    let mut vec: SafeVec<u64> = SafeVec::with_capacity(0);
    for k in 0..40u64 {
        vec.insert(k);
    }
    assert_eq!(vec.vec_capacity(), 0);
    vec.settle(4);
    assert!(vec.vec_capacity() >= 44);
    let seen: Vec<u64> = vec.iter().into_iter().copied().collect();
    assert_eq!(seen, (0..40).collect::<Vec<u64>>());
    vec.clear(3);
    assert_eq!(vec.len(), 0);
    assert_eq!(vec.get(0), None);
    assert_eq!(vec.insert(5), 0);
    assert_eq!(vec.get(0), Some(&5));
}
