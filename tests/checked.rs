use checked_array::misc::{BufferTooSmall, Endpoint, RangeBoundsExt};
use checked_array::{Array, ArrayAlloc, ArrayMut, ArrayRef, CanAlloc, Preallocated};

fn bytes(v: &[u8]) -> Array<Vec<u8>> {
    Array::new(v.to_vec())
}

#[test]
fn absolute_range_of_each_range_kind() {
    assert_eq!((1..3).into_absolute(0, 5), Some(1..3));
    assert_eq!((2..).into_absolute(0, 5), Some(2..5));
    assert_eq!((..4).into_absolute(0, 5), Some(0..4));
    assert_eq!((..=4).into_absolute(0, 5), Some(0..5));
    assert_eq!((..).into_absolute(0, 5), Some(0..5));
    assert_eq!((Endpoint::Excluded(1), Endpoint::Included(3)).into_absolute(0, 5), Some(2..4));
}

#[test]
fn absolute_range_failures() {
    assert_eq!((3..1).into_absolute(0, 5), None);
    assert_eq!((..=usize::MAX).into_absolute(0, 5), None);
    assert_eq!((Endpoint::Excluded(usize::MAX), Endpoint::Unbounded).into_absolute(0, 5), None);
    assert_eq!((Endpoint::Unbounded, Endpoint::Unbounded).into_absolute(7, 5), None);
    assert_eq!((5..5).into_absolute(0, 5), Some(5..5));
}

#[test]
fn get_n_yields_the_resolved_view() {
    let array = bytes(&[1, 2, 3, 4]);
    let view = array.get_n(1..3).unwrap();
    assert_eq!(view.as_slice(), &[2, 3]);
    assert_eq!(view.len(), 2);
    assert_eq!(array.get_n(..).unwrap().as_slice(), &[1, 2, 3, 4]);
    assert_eq!(array.get_n(4..).unwrap().len(), 0);
    assert!(array.get_n(3..5).is_none());
    assert!(array.get_n(2..1).is_none());
    assert!(array.get_n(..=usize::MAX).is_none());
}

#[test]
fn length_matches_slice() {
    let mut array = bytes(&[]);
    assert_eq!(array.len(), array.as_slice().len());
    assert!(array.is_empty());
    array.push_back(9).unwrap();
    array.push_front(8).unwrap();
    assert_eq!(array.len(), array.as_slice().len());
    assert_eq!(array.len(), 2);
    assert!(!array.is_empty());
}

#[test]
fn element_accessors() {
    let array = bytes(&[4, 5, 6]);
    assert_eq!(array.get(1), Some(&5));
    assert_eq!(array.get(3), None);
    assert_eq!(array.first(), Some(&4));
    assert_eq!(array.last(), Some(&6));
    assert_eq!(array.iter().copied().collect::<Vec<u8>>(), vec![4, 5, 6]);
    let empty = bytes(&[]);
    assert_eq!(empty.first(), None);
    assert_eq!(empty.last(), None);
    assert_eq!(empty.get(0), None);
}

#[test]
fn mutable_accessors_write_through() {
    let mut array = bytes(&[1, 2, 3, 4]);
    *array.get_mut(1).unwrap() = 20;
    *array.first_mut().unwrap() = 10;
    *array.last_mut().unwrap() = 40;
    assert!(array.get_mut(4).is_none());
    assert_eq!(array.as_slice(), &[10, 20, 3, 40]);
    {
        let mut view = array.get_n_mut(2..4).unwrap();
        view.as_slice_mut()[0] = 30;
    }
    assert!(array.get_n_mut(1..9).is_none());
    assert_eq!(array.as_slice(), &[10, 20, 30, 40]);
    for e in array.iter_mut() {
        *e += 1;
    }
    assert_eq!(array.as_slice(), &[11, 21, 31, 41]);
    array.as_slice_mut()[0] = 0;
    assert_eq!(array.as_slice(), &[0, 21, 31, 41]);
}

#[test]
fn back_round_trip() {
    let mut array = bytes(&[1, 2]);
    array.push_back(7).unwrap();
    assert_eq!(array.pop_back().unwrap(), Some(7));
    assert_eq!(array.as_slice(), &[1, 2]);
    let mut empty = bytes(&[]);
    assert_eq!(empty.pop_back().unwrap(), None);
}

#[test]
fn front_back_synthesis() {
    let mut array = <Array<Vec<u8>> as ArrayAlloc<u8>>::alloc_new().unwrap();
    for e in [10, 11, 12, 13, 14] {
        array.push_back(e).unwrap();
    }
    let front = array.pop_n_front(2).unwrap().unwrap();
    assert_eq!(front.as_slice(), &[10, 11]);
    assert_eq!(array.as_slice(), &[12, 13, 14]);
    let all = array.pop_n_front(3).unwrap().unwrap();
    assert_eq!(all.as_slice(), &[12, 13, 14]);
    assert!(array.is_empty());
}

#[test]
fn pop_n_back_is_atomic() {
    let mut array = bytes(&[1, 2, 3]);
    assert!(array.pop_n_back(4).unwrap().is_none());
    assert_eq!(array.as_slice(), &[1, 2, 3]);
    let back = array.pop_n_back(2).unwrap().unwrap();
    assert_eq!(back.as_slice(), &[2, 3]);
    assert_eq!(array.as_slice(), &[1]);
    assert_eq!(array.pop_n_back(0).unwrap().unwrap().len(), 0);
}

#[test]
fn pop_n_front_past_the_length_only_rotates() {
    let mut array = bytes(&[1, 2, 3]);
    assert!(array.pop_n_front(4).unwrap().is_none());
    assert_eq!(array.as_slice(), &[2, 3, 1]);
}

#[test]
fn rotation_inverse() {
    for n in [0usize, 1, 2, 3, 7, usize::MAX] {
        let mut array = bytes(&[1, 2, 3, 4, 5]);
        array.rotate_left(n);
        array.rotate_right(n);
        assert_eq!(array.as_slice(), &[1, 2, 3, 4, 5]);
    }
    let mut empty = bytes(&[]);
    empty.rotate_left(3);
    empty.rotate_right(usize::MAX);
    assert!(empty.is_empty());
}

#[test]
fn rotation_amounts_are_taken_modulo_length() {
    let mut array = bytes(&[1, 2, 3, 4, 5]);
    array.rotate_left(7);
    assert_eq!(array.as_slice(), &[3, 4, 5, 1, 2]);
    array.rotate_right(1);
    assert_eq!(array.as_slice(), &[2, 3, 4, 5, 1]);
    array.reverse();
    assert_eq!(array.as_slice(), &[1, 5, 4, 3, 2]);
}

#[test]
fn clone_to_bounds() {
    let source = bytes(&[1, 2, 3]);
    let mut small = bytes(&[9, 9]);
    assert_eq!(source.clone_to(&mut small), Err(BufferTooSmall));
    assert_eq!(small.as_slice(), &[9, 9]);
    let mut large = bytes(&[9, 9, 9, 9, 9]);
    assert_eq!(source.clone_to(&mut large), Ok(()));
    assert_eq!(large.as_slice(), &[1, 2, 3, 9, 9]);
    let mut exact = vec![0u8; 3];
    assert_eq!(source.clone_to(&mut exact), Ok(()));
    assert_eq!(exact, vec![1, 2, 3]);
}

#[test]
fn grow_and_shrink() {
    let mut array = bytes(&[1, 2]);
    array.grow_with(4, || 7).unwrap();
    assert_eq!(array.as_slice(), &[1, 2, 7, 7]);
    array.grow_with(1, || 8).unwrap();
    assert_eq!(array.as_slice(), &[1, 2, 7, 7]);
    array.grow(6).unwrap();
    assert_eq!(array.as_slice(), &[1, 2, 7, 7, 0, 0]);
    array.shrink(3).unwrap();
    assert_eq!(array.as_slice(), &[1, 2, 7]);
    array.shrink(10).unwrap();
    assert_eq!(array.as_slice(), &[1, 2, 7]);
    array.shrink(0).unwrap();
    assert!(array.is_empty());
}

#[test]
fn bulk_pushes_keep_source_order() {
    let mut array = bytes(&[5, 6]);
    array.push_n_front(&bytes(&[1, 2, 3])).unwrap();
    assert_eq!(array.as_slice(), &[1, 2, 3, 5, 6]);
    array.push_n_back(&bytes(&[7, 8])).unwrap();
    assert_eq!(array.as_slice(), &[1, 2, 3, 5, 6, 7, 8]);
    let copy = <Array<Vec<u8>> as ArrayAlloc<u8>>::alloc_clone(&array).unwrap();
    assert_eq!(copy.as_slice(), array.as_slice());
    let mut empty = bytes(&[]);
    empty.push_n_front(&bytes(&[4, 5])).unwrap();
    assert_eq!(empty.as_slice(), &[4, 5]);
}

#[test]
fn pop_front_takes_the_head() {
    let mut array = bytes(&[1, 2, 3]);
    assert_eq!(array.pop_front().unwrap(), Some(1));
    assert_eq!(array.as_slice(), &[2, 3]);
    let mut empty = bytes(&[]);
    assert_eq!(empty.pop_front().unwrap(), None);
}

#[test]
fn fixed_backing_capacity() {
    let mut buffer = Preallocated::new(vec![0u8; 3]);
    assert_eq!(buffer.push(b'A'), Ok(()));
    assert_eq!(buffer.push(b'B'), Ok(()));
    assert_eq!(buffer.push(b'C'), Ok(()));
    assert_eq!(buffer.push(b'D'), Err(BufferTooSmall));
    assert_eq!(Array::new(buffer).as_slice(), b"ABC");
}

#[test]
fn fixed_backing_pop() {
    let mut buffer = Preallocated::new(vec![0u8; 3]);
    for e in [b'A', b'B', b'C'] {
        buffer.push(e).unwrap();
    }
    assert_eq!(buffer.pop(), Ok(Some(b'C')));
    let array = Array::new(buffer);
    assert_eq!(array.as_slice(), b"AB");
    let mut buffer = array.into_inner();
    assert_eq!(buffer.pop(), Ok(Some(b'B')));
    assert_eq!(buffer.pop(), Ok(Some(b'A')));
    assert_eq!(buffer.pop(), Ok(None));
    assert_eq!(buffer.into_inner(), vec![0, 0, 0]);
}

#[test]
fn fixed_backing_cannot_be_allocated() {
    assert_eq!(<Preallocated<Vec<u8>> as CanAlloc<u8>>::alloc_new().err(), Some(BufferTooSmall));
    let mut array = Array::new(Preallocated::new_with_used(vec![1u8, 2, 3], 3));
    assert_eq!(array.pop_n_back(2).err(), Some(BufferTooSmall));
    assert_eq!(array.as_slice(), &[1, 2, 3]);
}

#[test]
fn fixed_backing_caps_used_count() {
    let mut array = Array::new(Preallocated::new_with_used(vec![1u8, 2], 5));
    assert_eq!(array.len(), 2);
    assert_eq!(array.push_back(3), Err(BufferTooSmall));
    assert_eq!(array.pop_back(), Ok(Some(2)));
    assert_eq!(array.as_slice(), &[1]);
}

#[test]
fn fixed_backing_front_operations() {
    let mut array = Array::new(Preallocated::new(vec![0u8; 3]));
    array.push_front(b'A').unwrap();
    array.push_front(b'B').unwrap();
    assert_eq!(array.as_slice(), b"BA");
    assert_eq!(array.pop_front(), Ok(Some(b'B')));
    assert_eq!(array.as_slice(), b"A");
}

#[test]
fn fixed_backing_partial_bulk_push() {
    let mut array = Array::new(Preallocated::new(vec![0u8; 3]));
    array.push_back(1).unwrap();
    assert_eq!(array.push_n_back(&bytes(&[2, 3, 4])), Err(BufferTooSmall));
    assert_eq!(array.as_slice(), &[1, 2, 3]);
    assert_eq!(array.grow(5), Err(BufferTooSmall));
    assert_eq!(array.shrink(1), Ok(()));
    assert_eq!(array.as_slice(), &[1]);
}

#[test]
fn slice_views_as_storage() {
    let mut raw = [3u8, 1, 2];
    let mut array = Array::new(&mut raw[..]);
    array.rotate_left(1);
    assert_eq!(array.as_slice(), &[1, 2, 3]);
    let frozen = Array::new(&raw[..]);
    assert_eq!(frozen.get_n(1..).unwrap().as_slice(), &[2, 3]);
}

#[test]
fn value_semantics_pass_through() {
    let a = bytes(&[1, 2]);
    let b = a.clone();
    assert!(a == b);
    assert!(bytes(&[1]) != bytes(&[2]));
    assert!(bytes(&[1, 2]) < bytes(&[1, 3]));
    let empty: Array<Vec<u8>> = Array::default();
    assert!(empty.is_empty());
}

#[test]
fn inclusive_ranges() {
    assert_eq!((1..=3).into_absolute(0, 5), Some(1..4));
    assert_eq!((0..=usize::MAX).into_absolute(0, 5), None);
    assert_eq!((4..=3).into_absolute(0, 5), Some(4..4));
    let mut used = 2..=2;
    assert_eq!(used.next(), Some(2));
    assert_eq!(used.into_absolute(0, 5), Some(2..2));
    assert_eq!(bytes(&[1, 2, 3, 4]).get_n(1..=2).unwrap().as_slice(), &[2, 3]);
}

#[test]
fn fixed_arrays_as_storage() {
    let mut array = Array::new([1u8, 2, 3]);
    array.rotate_right(1);
    assert_eq!(array.as_slice(), &[3, 1, 2]);
    let mut buffer = Preallocated::new([9u8; 4]);
    buffer.push(1).unwrap();
    buffer.push(2).unwrap();
    assert_eq!(buffer.pop(), Ok(Some(2)));
    assert_eq!(buffer.into_inner(), [1, 0, 9, 9]);
}

#[test]
fn fixed_backing_refuses_when_full() {
    let mut array = Array::new(Preallocated::new([0u8; 2]));
    array.push_back(1).unwrap();
    array.push_front(0).unwrap();
    assert_eq!(array.push_front(7), Err(BufferTooSmall));
    assert_eq!(array.push_back(7), Err(BufferTooSmall));
    assert_eq!(array.as_slice(), &[0, 1]);
    assert_eq!(<Array<Preallocated<[u8; 2]>> as ArrayAlloc<u8>>::alloc_clone(&array).err(), Some(BufferTooSmall));
    assert!(<Array<Preallocated<[u8; 2]>> as ArrayAlloc<u8>>::alloc_new().is_err());
    assert_eq!(array.pop_n_front(1).err(), Some(BufferTooSmall));
    assert_eq!(array.as_slice(), &[1, 0]);
}
