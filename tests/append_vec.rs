use pi_append_vec::append_vec::AppendVec;

#[test]
fn test() {
    println!("test start");
    let mut vec = AppendVec::with_capacity(4);
    let _good_day = vec.insert("Good day");
    let _hello = vec.insert("Hello");
    assert_eq!(vec.len(), 2);
    let hello1 = vec.insert("Hello");
    assert_eq!(vec[hello1], "Hello");
    assert_eq!(vec.get_unchecked(hello1), &"Hello");
    println!("test: {:?}", 2);
    *vec.get_mut(hello1).unwrap() = "Hello1";
    assert_eq!(vec[hello1], "Hello1");
    assert_eq!(vec.len(), 3);
    println!("test: {:?}", 3);
    println!("vec: {:?}", vec.iter());
}

#[test]
fn test_removes() {
    let mut removes: AppendVec<usize> = Default::default();
    removes.insert(1);
    removes.insert(2);
    removes.clear(1);
    removes.insert(1);
    removes.insert(6);
}

#[test]
fn test_str() {
    let mut vec = AppendVec::with_capacity(4);
    let _good_day = vec.insert("Good day");
    let _hello = vec.insert("Hello");
    assert_eq!(vec.len(), 2);
    let hello1 = vec.insert("Hello");
    assert_eq!(vec[hello1], "Hello");
}

#[test]
fn sequential_inserts_take_consecutive_indices() {
    let mut vec: AppendVec<u64> = AppendVec::with_capacity(3);
    for k in 0..100u64 {
        let index = vec.insert(k * 10);
        assert_eq!(index, k as usize);
        assert_eq!(vec.len(), index + 1);
    }
    let mut seen = vec![false; 100];
    for k in 0..100usize {
        assert_eq!(vec.get(k), Some(&(k as u64 * 10)));
        assert!(!seen[k]);
        seen[k] = true;
    }
    assert!(seen.iter().all(|s| *s));
}

#[test]
fn round_trip_through_settle_keeps_order() {
    let mut vec: AppendVec<u32> = AppendVec::with_capacity(2);
    let items: Vec<u32> = (0..100).map(|i| i * 7 + 1).collect();
    for item in &items {
        vec.insert(*item);
    }
    vec.settle(0);
    let seen: Vec<u32> = vec.iter().into_iter().copied().collect();
    assert_eq!(seen, items);
    assert!(vec.vec_capacity() >= 100);
}

#[test]
fn settle_makes_room_in_primary_region() {
    let mut vec: AppendVec<u8> = AppendVec::with_capacity(0);
    for k in 0..5u8 {
        vec.insert(k);
    }
    assert_eq!(vec.vec_capacity(), 0);
    vec.settle(10);
    let capacity = vec.vec_capacity();
    assert!(capacity >= 15);
    for k in 0..10u8 {
        let index = vec.insert(k);
        assert!(index < capacity);
    }
    assert_eq!(vec.vec_capacity(), capacity);
    assert_eq!(vec.len(), 15);
    assert_eq!(vec.get(14), Some(&9));
}

#[test]
fn settle_never_shrinks_primary_region() {
    let mut vec: AppendVec<u8> = AppendVec::with_capacity(50);
    vec.insert(1);
    vec.settle(0);
    assert!(vec.vec_capacity() >= 50);
    assert_eq!(vec.get(0), Some(&1));
}

#[test]
fn settle_on_empty_vector_reserves_room() {
    let mut vec: AppendVec<u8> = AppendVec::with_capacity(0);
    vec.settle(8);
    assert!(vec.vec_capacity() >= 8);
    assert_eq!(vec.len(), 0);
}

#[test]
fn clear_then_insert_starts_over() {
    let mut vec: AppendVec<String> = AppendVec::with_capacity(1);
    vec.insert("a".to_string());
    vec.insert("b".to_string());
    vec.insert("c".to_string());
    vec.clear(2);
    assert_eq!(vec.len(), 0);
    assert_eq!(vec.get(0), None);
    assert!(vec.vec_capacity() >= 5);
    let index = vec.insert("v".to_string());
    assert_eq!(index, 0);
    assert_eq!(vec.get(0), Some(&"v".to_string()));
    assert_eq!(vec.len(), 1);
}

#[test]
fn clear_keeps_larger_primary_region() {
    let mut vec: AppendVec<u8> = AppendVec::with_capacity(20);
    vec.insert(1);
    vec.clear(0);
    assert_eq!(vec.vec_capacity(), 20);
    vec.clear(30);
    assert_eq!(vec.vec_capacity(), 30);
}

#[test]
fn primary_region_boundary() {
    let mut vec: AppendVec<u16> = AppendVec::with_capacity(4);
    for k in 0..4u16 {
        let index = vec.insert(k);
        assert!(index < vec.vec_capacity());
    }
    let index = vec.insert(4);
    assert_eq!(index, 4);
    assert!(index >= vec.vec_capacity());
    assert_eq!(vec.vec_capacity(), 4);
    assert_eq!(vec.get(4), Some(&4));
}

#[test]
fn scenario_overflow_then_settle() {
    let mut vec: AppendVec<u32> = AppendVec::with_capacity(0);
    for k in 0..40u32 {
        let index = vec.insert(k + 100);
        assert!(index >= vec.vec_capacity());
    }
    vec.settle(0);
    assert!(vec.vec_capacity() >= 40);
    let seen: Vec<u32> = vec.iter().into_iter().copied().collect();
    let expected: Vec<u32> = (0..40).map(|k| k + 100).collect();
    assert_eq!(seen, expected);
}

#[test]
fn get_past_len_is_none() {
    let mut vec: AppendVec<u8> = AppendVec::with_capacity(8);
    assert_eq!(vec.get(0), None);
    vec.insert(3);
    assert_eq!(vec.get(1), None);
    assert_eq!(vec.get(usize::MAX), None);
    assert!(vec.get_mut(1).is_none());
    assert!(vec.load(1).is_none());
}

#[test]
fn slice_is_clamped_to_len() {
    let mut vec: AppendVec<u8> = AppendVec::with_capacity(2);
    for k in 0..6u8 {
        vec.insert(k);
    }
    let part: Vec<u8> = vec.slice(2..100).into_iter().copied().collect();
    assert_eq!(part, vec![2, 3, 4, 5]);
    let part: Vec<u8> = vec.slice(1..3).into_iter().copied().collect();
    assert_eq!(part, vec![1, 2]);
    assert!(vec.slice(5..2).is_empty());
    assert!(vec.slice(9..12).is_empty());
    let raw: Vec<u8> = vec.slice_raw(3..6).into_iter().copied().collect();
    assert_eq!(raw, vec![3, 4, 5]);
}

#[test]
fn alloc_slot_and_load_write_in_place() {
    let mut vec: AppendVec<u32> = AppendVec::with_capacity(1);
    vec.insert(5);
    let (slot, index) = vec.alloc_slot();
    *slot = 9;
    assert_eq!(index, 1);
    assert_eq!(vec.len(), 2);
    assert_eq!(vec.get(1), Some(&9));
    *vec.load(0).unwrap() = 6;
    assert_eq!(vec.get(0), Some(&6));
    *vec.get_unchecked_mut(1) = 10;
    assert_eq!(vec[1], 10);
}

#[test]
fn alloc_index_reserves_a_block() {
    let mut vec: AppendVec<u32> = AppendVec::with_capacity(2);
    vec.insert(1);
    let first = vec.alloc_index(5);
    assert_eq!(first, 1);
    assert_eq!(vec.len(), 6);
    assert_eq!(vec.get(0), Some(&1));
    assert!(vec.get(5).is_some());
    *vec.load_unchecked(3) = 33;
    assert_eq!(vec.get(3), Some(&33));
    assert_eq!(vec.insert(7), 6);
}

#[test]
fn set_len_truncates_and_extends() {
    let mut vec: AppendVec<u32> = AppendVec::with_capacity(0);
    for k in 0..5u32 {
        vec.insert(k);
    }
    vec.set_len(2);
    assert_eq!(vec.len(), 2);
    assert_eq!(vec.get(2), None);
    assert_eq!(vec.get(1), Some(&1));
    vec.set_len(4);
    assert_eq!(vec.len(), 4);
    assert!(vec.get(3).is_some());
    assert_eq!(vec.insert(9), 4);
}

#[test]
fn with_capacity_sets_primary_region() {
    let vec: AppendVec<u8> = AppendVec::with_capacity(7);
    assert_eq!(vec.vec_capacity(), 7);
    assert_eq!(vec.len(), 0);
    let empty: AppendVec<u8> = Default::default();
    assert_eq!(empty.vec_capacity(), 0);
    assert!(empty.iter().is_empty());
}
