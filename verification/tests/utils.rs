use r3::utils::{sort_unstable_by, vec_position, ComptimeVec, VecLike};

#[test]
fn const_sort() {
    let mut array: Vec<u32> = vec![2, 6, 1, 9, 13, 3, 8, 12, 5, 11, 14, 7, 4, 10];
    sort_unstable_by(&mut array);
    assert_eq!(array, vec![1, 2, 3, 4, 5, 6, 7, 8, 9, 10, 11, 12, 13, 14]);
}

#[test]
fn sort_keeps_duplicates() {
    let mut array: Vec<u32> = vec![3, 1, 3, 0, 1, 3];
    sort_unstable_by(&mut array);
    assert_eq!(array, vec![0, 1, 1, 3, 3, 3]);
}

#[test]
fn sort_empty_and_single() {
    let mut empty: Vec<u32> = Vec::new();
    sort_unstable_by(&mut empty);
    assert!(empty.is_empty());
    let mut single: Vec<u32> = vec![7];
    sort_unstable_by(&mut single);
    assert_eq!(single, vec![7]);
}

#[test]
fn new() {
    let v: ComptimeVec<u32> = ComptimeVec::new();
    assert_eq!(v.len(), 0);
    assert!(v.is_empty());
}

#[test]
fn push() {
    let mut v = ComptimeVec::new();
    v.push(42u32);
    assert_eq!(v.len(), 1);
    assert_eq!(*v.get(0), 42);
}

#[test]
fn map() {
    let mut x = ComptimeVec::new();
    x.push(1i32);
    x.push(2);
    x.push(3);
    let y = x.map(|x: &i32| *x + 1);
    assert_eq!(y.len(), 3);
    assert_eq!([*y.get(0), *y.get(1), *y.get(2)], [2, 3, 4]);
}

#[test]
fn get_mut() {
    let mut v = ComptimeVec::new();
    v.push(1u32);
    v.push(2);
    v.push(3);
    *v.get_mut(1) += 2;
    assert_eq!(*v.get(1), 4);
}

#[test]
fn set_replaces_one_element() {
    let mut v = ComptimeVec::new();
    v.push(1u32);
    v.push(2);
    v.set(0, 9);
    assert_eq!((*v.get(0), *v.get(1)), (9, 2));
}

#[test]
fn const_vec_position() {
    let mut v = ComptimeVec::new();
    v.push(42u32);
    v.push(43);
    v.push(44);
    assert_eq!(
        [vec_position(&v, |i: &u32| *i == 43), vec_position(&v, |i: &u32| *i == 50)],
        [Some(1), None]
    );
}

#[test]
fn vec_position_finds_first_match() {
    let mut v = ComptimeVec::new();
    v.push(5u32);
    v.push(6);
    v.push(5);
    assert_eq!(vec_position(&v, |i: &u32| *i == 5), Some(0));
}

#[test]
fn veclike_push_pop() {
    let mut v: Vec<u32> = Vec::new();
    assert!(VecLike::is_empty(&v));
    VecLike::push(&mut v, 1);
    VecLike::push(&mut v, 2);
    assert_eq!(VecLike::len(&v), 2);
    assert_eq!(VecLike::pop(&mut v), Some(2));
    assert_eq!(VecLike::pop(&mut v), Some(1));
    assert_eq!(VecLike::pop(&mut v), None);
}
