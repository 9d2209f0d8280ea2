use stack_vec::array::{N1024, N128, N16, N2, N256, N32, N4, N512, N64, N8};
use stack_vec::container::StackVec;
use stack_vec::errors::StackVecError;

#[test]
fn it_works() {
    let mut vec: StackVec<N32<usize>> = StackVec::new();
    for i in 0usize..24 {
        vec.push(i).unwrap();
    }
    let mut expected: usize = 0;
    let mut iter = vec.iter();
    while let Some(elem) = iter.next() {
        println!("{}", elem);
        assert_eq!(*elem, expected);
        expected += 1;
    }
    assert_eq!(expected, 24);
}

#[test]
fn len_counts_pushes_and_iteration_is_in_push_order() {
    let mut vec: StackVec<N8<u64>> = StackVec::new();
    let values = [3u64, 1, 4, 1, 5];
    for (i, v) in values.iter().enumerate() {
        assert_eq!(vec.len(), i);
        vec.push(*v).unwrap();
        assert_eq!(vec.len(), i + 1);
    }
    let mut iter = vec.iter();
    for v in values.iter() {
        assert_eq!(iter.next(), Some(v));
    }
    assert_eq!(iter.next(), None);
}

#[test]
fn push_then_pop_is_an_identity() {
    let mut vec: StackVec<N4<String>> = StackVec::new();
    vec.push(String::from("a")).unwrap();
    vec.push(String::from("b")).unwrap();
    let len_before = vec.len();
    vec.push(String::from("c")).unwrap();
    let popped = vec.pop().unwrap();
    assert_eq!(popped, "c");
    assert_eq!(vec.len(), len_before);
    assert_eq!(vec.get(0).unwrap(), "a");
    assert_eq!(vec.get(1).unwrap(), "b");
    assert_eq!(vec.get(2), Err(StackVecError::SlotUnoccupied));
}

#[test]
fn size_is_the_fixed_capacity_for_every_supported_size() {
    let vec2: StackVec<N2<u8>> = StackVec::new();
    assert_eq!(vec2.size(), 2);
    let vec4: StackVec<N4<u8>> = StackVec::new();
    assert_eq!(vec4.size(), 4);
    let vec8: StackVec<N8<u8>> = StackVec::new();
    assert_eq!(vec8.size(), 8);
    let vec16: StackVec<N16<u8>> = StackVec::new();
    assert_eq!(vec16.size(), 16);
    let vec32: StackVec<N32<u8>> = StackVec::new();
    assert_eq!(vec32.size(), 32);
    let vec64: StackVec<N64<u8>> = StackVec::new();
    assert_eq!(vec64.size(), 64);
    let vec128: StackVec<N128<u8>> = StackVec::new();
    assert_eq!(vec128.size(), 128);
    let vec256: StackVec<N256<u8>> = StackVec::new();
    assert_eq!(vec256.size(), 256);
    let vec512: StackVec<N512<u8>> = StackVec::new();
    assert_eq!(vec512.size(), 512);
    let vec1024: StackVec<N1024<u8>> = StackVec::new();
    assert_eq!(vec1024.size(), 1024);
}

#[test]
fn size_does_not_change_over_the_container_lifetime() {
    let mut vec: StackVec<N4<u32>> = StackVec::new();
    assert_eq!(vec.size(), 4);
    vec.push(9).unwrap();
    assert_eq!(vec.size(), 4);
    vec.pop().unwrap();
    assert_eq!(vec.size(), 4);
    vec.set(3, 7).unwrap();
    assert_eq!(vec.size(), 4);
    vec.remove(3).unwrap();
    assert_eq!(vec.size(), 4);
}

#[test]
fn fresh_container_is_empty() {
    let vec: StackVec<N16<i32>> = StackVec::new();
    assert_eq!(vec.len(), 0);
    let mut iter = vec.iter();
    assert_eq!(iter.next(), None);
    assert_eq!(iter.next(), None);
}

#[test]
fn pushing_past_the_capacity_is_refused() {
    let mut vec: StackVec<N4<u64>> = StackVec::new();
    for i in 0u64..4 {
        assert_eq!(vec.push(i), Ok(()));
    }
    assert_eq!(vec.push(4), Err(StackVecError::CapacityExceeded));
    assert_eq!(vec.len(), 4);
    for i in 0..4usize {
        assert_eq!(vec.get(i), Ok(&(i as u64)));
    }
}

#[test]
fn get_after_set_returns_the_stored_value() {
    let mut vec: StackVec<N8<u64>> = StackVec::new();
    vec.push(10).unwrap();
    vec.push(20).unwrap();
    vec.set(1, 99).unwrap();
    assert_eq!(vec.get(1), Ok(&99));
    // The escape hatch: a write beyond the occupied count sticks, but the
    // occupied count does not follow it.
    vec.set(5, 42).unwrap();
    assert_eq!(vec.get(5), Ok(&42));
    assert_eq!(vec.len(), 2);
}

#[test]
fn get_mut_updates_in_place() {
    let mut vec: StackVec<N4<String>> = StackVec::new();
    vec.push(String::from("old")).unwrap();
    *vec.get_mut(0) = String::from("new");
    assert_eq!(vec.get(0).unwrap(), "new");
    assert_eq!(vec.len(), 1);
}

#[test]
fn pop_shortens_and_iteration_covers_the_rest() {
    let mut vec: StackVec<N4<char>> = StackVec::new();
    vec.push('A').unwrap();
    vec.push('B').unwrap();
    vec.push('C').unwrap();
    assert_eq!(vec.len(), 3);
    assert_eq!(vec.pop(), Ok('C'));
    assert_eq!(vec.len(), 2);
    let mut iter = vec.iter();
    assert_eq!(iter.next(), Some(&'A'));
    assert_eq!(iter.next(), Some(&'B'));
    assert_eq!(iter.next(), None);
}

#[test]
fn full_capacity_two_container_refuses_a_third_push() {
    let mut vec: StackVec<N2<&str>> = StackVec::new();
    vec.push("X").unwrap();
    vec.push("Y").unwrap();
    assert_eq!(vec.push("Z"), Err(StackVecError::CapacityExceeded));
    assert_eq!(vec.len(), 2);
    assert_eq!(vec.get(0), Ok(&"X"));
    assert_eq!(vec.get(1), Ok(&"Y"));
}

#[test]
fn remove_leaves_the_occupied_count_out_of_step() {
    let mut vec: StackVec<N4<char>> = StackVec::new();
    vec.push('A').unwrap();
    vec.push('B').unwrap();
    vec.push('C').unwrap();
    assert_eq!(vec.len(), 3);
    assert_eq!(vec.remove(0), Ok('A'));
    // The documented hazard: the count still reports three occupied slots
    // while slot 0 is empty.
    assert_eq!(vec.len(), 3);
    assert_eq!(vec.get(0), Err(StackVecError::SlotUnoccupied));
    assert_eq!(vec.get(1), Ok(&'B'));
    assert_eq!(vec.get(2), Ok(&'C'));
    // Iteration ends at the hole rather than reading an empty slot.
    let mut iter = vec.iter();
    assert_eq!(iter.next(), None);
    // A second removal of the same slot is refused.
    assert_eq!(vec.remove(0), Err(StackVecError::SlotUnoccupied));
}

#[test]
fn popping_an_empty_container_is_refused() {
    let mut vec: StackVec<N2<u8>> = StackVec::new();
    assert_eq!(vec.pop(), Err(StackVecError::Empty));
    assert_eq!(vec.len(), 0);
}

#[test]
fn popping_a_counted_but_emptied_slot_is_refused() {
    let mut vec: StackVec<N4<u8>> = StackVec::new();
    vec.push(1).unwrap();
    assert_eq!(vec.remove(0), Ok(1));
    assert_eq!(vec.len(), 1);
    assert_eq!(vec.pop(), Err(StackVecError::SlotUnoccupied));
    assert_eq!(vec.len(), 1);
}

#[test]
fn indexing_at_or_beyond_the_capacity_is_refused() {
    let mut vec: StackVec<N2<u8>> = StackVec::new();
    vec.push(1).unwrap();
    assert_eq!(vec.get(2), Err(StackVecError::IndexOutOfRange));
    assert_eq!(vec.set(2, 5), Err(StackVecError::IndexOutOfRange));
    assert_eq!(vec.remove(2), Err(StackVecError::IndexOutOfRange));
    assert_eq!(vec.len(), 1);
    assert_eq!(vec.get(0), Ok(&1));
}

#[test]
fn iterator_is_single_pass() {
    let mut vec: StackVec<N2<u8>> = StackVec::new();
    vec.push(5).unwrap();
    let mut iter = vec.iter();
    assert_eq!(iter.next(), Some(&5));
    assert_eq!(iter.next(), None);
    assert_eq!(iter.next(), None);
}
