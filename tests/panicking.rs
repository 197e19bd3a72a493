use checked_array::{Array, ArrayAllocPanic, ArrayRef};

#[test]
fn panicking_layer_on_growable_backing() {
    let mut array = <Array<Vec<u8>> as ArrayAllocPanic<u8>>::alloc_new();
    array.push_back(2);
    array.push_front(1);
    array.push_n_back(&Array::new(vec![3u8, 4]));
    array.push_n_front(&Array::new(vec![0u8]));
    assert_eq!(array.as_slice(), &[0, 1, 2, 3, 4]);
    assert_eq!(array.pop_front(), Some(0));
    assert_eq!(array.pop_back(), Some(4));
    assert_eq!(array.pop_n_front(1).unwrap().as_slice(), &[1]);
    assert_eq!(array.pop_n_back(1).unwrap().as_slice(), &[3]);
    assert!(array.pop_n_back(2).is_none());
    array.grow(3);
    assert_eq!(array.as_slice(), &[2, 0, 0]);
    array.grow_with(4, || 9);
    assert_eq!(array.as_slice(), &[2, 0, 0, 9]);
    array.shrink(1);
    assert_eq!(array.as_slice(), &[2]);
    let copy = <Array<Vec<u8>> as ArrayAllocPanic<u8>>::alloc_clone(&array);
    assert_eq!(copy.as_slice(), &[2]);
}

#[test]
fn panicking_layer_on_fixed_backing_with_room() {
    let mut array = Array::new(checked_array::Preallocated::new([0u8; 3]));
    array.push_front(b'A');
    array.push_front(b'B');
    assert_eq!(array.as_slice(), b"BA");
    assert_eq!(array.pop_front(), Some(b'B'));
    assert_eq!(array.pop_back(), Some(b'A'));
    assert_eq!(array.pop_back(), None);
    array.grow(3);
    assert_eq!(array.as_slice(), &[0, 0, 0]);
    array.shrink(1);
    assert_eq!(array.len(), 1);
}
