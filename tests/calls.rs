use arbitrary::Unstructured;
use checked_array::calls::{
    AnyArrayFnCall, ArgsAllocNew, ArgsClone, ArgsCloneTo, ArgsGetN, ArgsGrowWith, ArgsIterMut, ArgsPopNBack, ArgsPopNFront,
    ArgsPushBack, ArgsPushFront, ArgsPushNFront, ArgsRotateLeft, ArrayFnCall, ArrayFnCalls, CALL_KINDS,
};
use checked_array::{Array, ArrayRef};

#[test]
fn replayed_calls_change_the_array() {
    let mut array = Array::new(vec![1u8, 2, 3]);
    let mut calls = ArrayFnCalls {
        calls: vec![
            AnyArrayFnCall::new(ArgsPushBack { element: 4 }),
            AnyArrayFnCall::new(ArgsPushFront { element: 0 }),
            AnyArrayFnCall::new(ArgsRotateLeft { steps: 6 }),
            AnyArrayFnCall::new(ArgsGetN { start: 3, end: 1 }),
            AnyArrayFnCall::new(ArgsIterMut),
            AnyArrayFnCall::new(ArgsPopNBack { len: 9 }),
            AnyArrayFnCall::new(ArgsPopNFront { len: 2 }),
            AnyArrayFnCall::new(ArgsGrowWith { len: 5, init: 8 }),
            AnyArrayFnCall::new(ArgsPushNFront { source: Array::new(vec![6, 7]) }),
        ],
    };
    for call in calls.calls.iter_mut() {
        call.call(&mut array);
    }
    assert_eq!(array.as_slice(), &[6, 7, 3, 4, 0, 8, 8]);
}

#[test]
fn replacing_calls() {
    let mut array = Array::new(vec![1u8, 2, 3]);
    ArgsClone { source: Array::new(vec![5, 5]) }.call(&mut array);
    assert_eq!(array.as_slice(), &[5, 5]);
    let mut clone_to = ArgsCloneTo { target: Array::new(vec![0, 0, 0]) };
    clone_to.call(&mut array);
    assert_eq!(clone_to.target.as_slice(), &[5, 5, 0]);
    assert_eq!(array.as_slice(), &[5, 5]);
    ArgsAllocNew.call(&mut array);
    assert!(array.is_empty());
}

#[test]
fn decoding_draws_every_call_once() {
    let data: Vec<u8> = (0..4096u32).map(|i| (i * 37 % 251) as u8).collect();
    let mut u = Unstructured::new(&data);
    let calls = ArrayFnCalls::arbitrary(&mut u, 4).ok().unwrap();
    assert_eq!(calls.calls.len(), CALL_KINDS);
    let mut names: Vec<&str> = calls.calls.iter().map(|call| call.name()).collect();
    names.sort();
    names.dedup();
    assert_eq!(names.len(), CALL_KINDS);
}

#[test]
fn decoded_lengths_are_capped() {
    let data = vec![0xffu8; 64];
    let mut u = Unstructured::new(&data);
    let grow = ArgsGrowWith::arbitrary(&mut u, 10).ok().unwrap();
    assert_eq!(grow.len, 10);
    assert_eq!(grow.init, 0xff);
    let mut array = Array::new(vec![1u8]);
    AnyArrayFnCall::new(grow).call(&mut array);
    assert_eq!(array.as_slice(), &[1, 0xff, 0xff, 0xff, 0xff, 0xff, 0xff, 0xff, 0xff, 0xff]);
}

#[test]
fn decoding_an_empty_input_still_draws_every_call() {
    let mut u = Unstructured::new(&[]);
    let calls = ArrayFnCalls::arbitrary(&mut u, 16).ok().unwrap();
    assert_eq!(calls.calls.len(), CALL_KINDS);
    let mut array = Array::new(vec![3u8, 1, 2]);
    let mut calls = calls;
    for call in calls.calls.iter_mut() {
        call.call(&mut array);
    }
}

#[test]
fn stored_call_keeps_its_state() {
    let mut array = Array::new(vec![4u8, 5]);
    let mut call = AnyArrayFnCall::new(ArgsPushBack { element: 6 });
    call.call(&mut array);
    call.call(&mut array);
    assert_eq!(array.as_slice(), &[4, 5, 6, 6]);
    let mut clone_to = ArgsCloneTo { target: Array::new(vec![0, 0, 0, 0, 0]) };
    clone_to.call(&mut array);
    clone_to.call(&mut Array::new(vec![7]));
    assert_eq!(clone_to.target.as_slice(), &[7, 5, 6, 6, 0]);
}
