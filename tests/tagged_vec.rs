use pi_append_vec::tagged_vec::TaggedVec;

#[test]
fn tagged_insert_and_get() {
    let mut vec: TaggedVec<String> = TaggedVec::with_capacity(2);
    assert_eq!(vec.insert("a".to_string()), 0);
    assert_eq!(vec.insert("b".to_string()), 1);
    assert_eq!(vec.insert("c".to_string()), 2);
    assert_eq!(vec.len(), 3);
    assert_eq!(vec.get(2), Some(&"c".to_string()));
    assert_eq!(vec.get(3), None);
    assert_eq!(vec.vec_capacity(), 2);
}

#[test]
fn tagged_iteration_stops_at_first_empty_slot() {
    let mut vec: TaggedVec<u32> = TaggedVec::default();
    vec.insert(1);
    let hole = vec.reserve();
    vec.insert(3);
    assert_eq!(hole, 1);
    assert_eq!(vec.len(), 3);
    assert_eq!(vec.get(1), None);
    assert_eq!(vec.get(2), Some(&3));
    let seen: Vec<u32> = vec.iter().into_iter().copied().collect();
    assert_eq!(seen, vec![1]);
    vec.fill(hole, 2);
    let seen: Vec<u32> = vec.iter().into_iter().copied().collect();
    assert_eq!(seen, vec![1, 2, 3]);
}

#[test]
fn tagged_settle_and_clear() {
    let mut vec: TaggedVec<u8> = TaggedVec::with_capacity(0);
    for k in 0..40u8 {
        vec.insert(k);
    }
    vec.settle(2);
    assert!(vec.vec_capacity() >= 42);
    let seen: Vec<u8> = vec.iter().into_iter().copied().collect();
    assert_eq!(seen, (0..40).collect::<Vec<u8>>());
    vec.clear(0);
    assert_eq!(vec.len(), 0);
    assert_eq!(vec.insert(9), 0);
}
