use vstd::prelude::*;
use crate::misc::{absolute, BufferTooSmall, RangeBoundsExt, WillPanic};
use crate::storage::{rotated_left, Storage, StorageMut};
use core::fmt::Debug;
use crate::wrapper::Array;
use core::slice::{Iter as SliceIter, IterMut as SliceIterMut};
use vstd::std_specs::iter::IteratorSpec;

verus! {

/// The range `[s, e)` of a sequence of length `len` that `range` selects, if it is valid
pub open spec fn selected<R: RangeBoundsExt>(range: R, len: nat) -> Option<(int, int)> {
    match absolute(range.lower(), range.upper(), 0, len as usize) {
        Some((s, e)) => if e <= len { Some((s, e)) } else { None },
        None => None,
    }
}

/// The sequence `s` rotated left by `count` places, where `count` is taken modulo the length
pub open spec fn rotate_left_mod<T>(s: Seq<T>, count: int) -> Seq<T> {
    if s.len() == 0 { s } else { rotated_left(s, count % (s.len() as int)) }
}

/// The sequence `s` rotated right by `count` places, where `count` is taken modulo the length
pub open spec fn rotate_right_mod<T>(s: Seq<T>, count: int) -> Seq<T> {
    if s.len() == 0 { s } else { rotated_left(s, s.len() - count % (s.len() as int)) }
}

/// A trait for referencable linear array types
pub trait ArrayRef<T>: View<V = Seq<T>> {
    /// The underlying elements as slice
    fn as_slice(&self) -> (r: &[T])
        ensures
            r@ == self@,
    ;

    /// The length of the wrapped elements
    fn len(&self) -> (r: usize)
        ensures
            r == self@.len(),
    ;

    /// Whether `self` is empty or not
    fn is_empty(&self) -> (r: bool)
        ensures
            r == (self@.len() == 0),
    ;

    /// Gets an element
    fn get(&self, index: usize) -> (r: Option<&T>)
        ensures
            index < self@.len() ==> r == Some(&self@[index as int]),
            index >= self@.len() ==> r is None,
    ;

    /// Gets a subrange
    fn get_n<R: RangeBoundsExt>(&self, range: R) -> (r: Option<Array<&[T]>>)
        ensures
            match selected(range, self@.len()) {
                Some((s, e)) => r is Some && r->Some_0@ == self@.subrange(s, e),
                None => r is None,
            },
    ;

    /// Returns a reference to the first element
    fn first(&self) -> (r: Option<&T>)
        ensures
            self@.len() == 0 ==> r is None,
            self@.len() > 0 ==> r == Some(&self@[0]),
    ;

    /// Returns a reference to the last element
    fn last(&self) -> (r: Option<&T>)
        ensures
            self@.len() == 0 ==> r is None,
            self@.len() > 0 ==> r == Some(&self@.last()),
    ;

    /// Returns an iterator that references the elements
    fn iter(&self) -> (r: SliceIter<'_, T>)
        ensures
            r.remaining() == self@.map_values(|e: T| &e),
    ;

    /// Clones `self` to `target`
    fn clone_to<Target: StorageMut<Elem = T>>(&self, target: &mut Target) -> (r: Result<(), BufferTooSmall>) where
        T: Clone,
        ensures
            r is Err <==> self@.len() > old(target).contents().len(),
            r is Err ==> final(target).contents() == old(target).contents(),
            final(target).contents().len() == old(target).contents().len(),
            r is Ok ==> forall|i: int|
                0 <= i < self@.len() ==> cloned(self@[i], #[trigger] final(target).contents()[i]),
            forall|i: int|
                self@.len() <= i < old(target).contents().len() ==> #[trigger] final(target).contents()[i]
                    == old(target).contents()[i],
    ;
}

/// A trait for mutably referencable linear array types
pub trait ArrayMut<T>: ArrayRef<T> {
    /// The most elements the array can hold, or `None` where it grows without bound; no method of this trait changes
    /// it
    spec fn max_len(&self) -> Option<nat>;

    /// The underlying elements as mutable slice
    fn as_slice_mut(&mut self) -> (r: &mut [T])
        ensures
            r@ == old(self)@,
            final(r)@ == final(self)@,
            final(self).max_len() == old(self).max_len(),
    ;

    /// Gets a mutable reference to an element
    fn get_mut(&mut self, index: usize) -> (r: Option<&mut T>)
        ensures
            index < old(self)@.len() ==> r is Some && *r.unwrap() == old(self)@[index as int] && final(self)@
                == old(self)@.update(index as int, *final(r.unwrap())),
            index >= old(self)@.len() ==> r is None && final(self)@ == old(self)@,
            final(self).max_len() == old(self).max_len(),
    ;

    /// Gets a mutable subrange
    fn get_n_mut<R: RangeBoundsExt>(&mut self, range: R) -> (r: Option<Array<&mut [T]>>)
        ensures
            match selected(range, old(self)@.len()) {
                Some((s, e)) => r is Some && r.unwrap()@ == old(self)@.subrange(s, e) && final(self)@ == old(
                    self,
                )@.subrange(0, s) + (*final(r.unwrap().inner()))@ + old(self)@.subrange(e, old(self)@.len() as int),
                None => r is None && final(self)@ == old(self)@,
            },
            final(self).max_len() == old(self).max_len(),
    ;

    /// Returns a mutable reference to the first element
    fn first_mut(&mut self) -> (r: Option<&mut T>)
        ensures
            old(self)@.len() == 0 ==> r is None && final(self)@ == old(self)@,
            old(self)@.len() > 0 ==> r is Some && *r.unwrap() == old(self)@[0] && final(self)@ == old(
                self,
            )@.update(0, *final(r.unwrap())),
            final(self).max_len() == old(self).max_len(),
    ;

    /// Returns a mutable reference to the last element
    fn last_mut(&mut self) -> (r: Option<&mut T>)
        ensures
            old(self)@.len() == 0 ==> r is None && final(self)@ == old(self)@,
            old(self)@.len() > 0 ==> r is Some && *r.unwrap() == old(self)@.last() && final(self)@ == old(
                self,
            )@.update(old(self)@.len() - 1, *final(r.unwrap())),
            final(self).max_len() == old(self).max_len(),
    ;

    /// Returns an iterator that mutably references the elements
    fn iter_mut(&mut self) -> (r: SliceIterMut<'_, T>)
        ensures
            final(self)@.len() == old(self)@.len(),
            final(self).max_len() == old(self).max_len(),
    ;

    /// Rotates the elements left by `count` fields
    fn rotate_left(&mut self, count: usize)
        ensures
            final(self)@ == rotate_left_mod(old(self)@, count as int),
            final(self).max_len() == old(self).max_len(),
    ;

    /// Rotates the elements right by `count` fields
    fn rotate_right(&mut self, count: usize)
        ensures
            final(self)@ == rotate_right_mod(old(self)@, count as int),
            final(self).max_len() == old(self).max_len(),
    ;

    /// Reverses the order of elements in the slice
    fn reverse(&mut self)
        ensures
            final(self)@ == old(self)@.reverse(),
            final(self).max_len() == old(self).max_len(),
    ;
}

/// `new` is `old` followed by clones of the first `k` elements of `source`
pub open spec fn appended_clones<T: Clone>(old: Seq<T>, source: Seq<T>, new: Seq<T>, k: int) -> bool {
    &&& 0 <= k <= source.len()
    &&& new.len() == old.len() + k
    &&& new.subrange(0, old.len() as int) == old
    &&& forall|i: int| 0 <= i < k ==> cloned(source[i], #[trigger] new[old.len() + i])
}

/// `new` is clones of all elements of `source` followed by `old`
pub open spec fn prepended_clones<T: Clone>(old: Seq<T>, source: Seq<T>, new: Seq<T>) -> bool {
    &&& new.len() == old.len() + source.len()
    &&& new.subrange(source.len() as int, new.len() as int) == old
    &&& forall|i: int| 0 <= i < source.len() ==> cloned(source[i], #[trigger] new[i])
}

/// Removing one element from the end of `old` yields `value` and leaves `new`
pub open spec fn popped<T>(old: Seq<T>, value: Option<T>, new: Seq<T>) -> bool {
    if old.len() == 0 {
        value is None && new == old
    } else {
        value == Some(old.last()) && new == old.drop_last()
    }
}

/// `new` is `old` cut down to a length in `[min, old.len()]`
pub open spec fn truncated<T>(old: Seq<T>, new: Seq<T>, min: int) -> bool {
    &&& min <= new.len() <= old.len()
    &&& new == old.subrange(0, new.len() as int)
}

/// Whether a storage that holds at most `max_len` elements, where that is bounded, has room for `len` elements
pub open spec fn fits(max_len: Option<nat>, len: int) -> bool {
    match max_len {
        Some(max) => len <= max,
        None => true,
    }
}

/// The length that growing a sequence of length `len` to `target` reaches
pub open spec fn grown_len(len: nat, target: usize) -> nat {
    if target <= len { len } else { target as nat }
}

/// A trait for types that can perform stack-like memory allocation
pub trait CanAlloc<T>: StorageMut<Elem = T> + Sized {
    /// An allocation related error
    type Error: Debug;

    /// Whether every operation of this type is guaranteed to succeed
    spec fn infallible() -> bool;

    /// Whether `pop` is guaranteed to succeed
    spec fn pop_never_fails() -> bool;

    /// Whether `alloc_new` is guaranteed to fail
    spec fn alloc_never_succeeds() -> bool;

    /// Creates a new potentially allocated instance of `Self`
    fn alloc_new() -> (r: Result<Self, Self::Error>)
        ensures
            Self::infallible() ==> r is Ok,
            Self::alloc_never_succeeds() ==> r is Err,
            r is Ok ==> r->Ok_0.contents() == Seq::<T>::empty(),
    ;

    /// Pushes an `element` to the end of `self`; it fails only where `self` is full
    fn push(&mut self, element: T) -> (r: Result<(), Self::Error>)
        ensures
            Self::infallible() ==> r is Ok,
            fits(old(self).capacity(), old(self).contents().len() + 1int) ==> r is Ok,
            old(self).capacity() == Some(old(self).contents().len()) ==> r is Err,
            r is Ok ==> final(self).contents() == old(self).contents().push(element),
            r is Err ==> final(self).contents() == old(self).contents() && old(self).capacity() == Some(
                old(self).contents().len(),
            ),
            final(self).capacity() == old(self).capacity(),
    ;

    /// Pops an `element` from the end of `self` if any
    fn pop(&mut self) -> (r: Result<Option<T>, Self::Error>)
        ensures
            Self::infallible() || Self::pop_never_fails() ==> r is Ok,
            r is Ok ==> popped(old(self).contents(), r->Ok_0, final(self).contents()),
            r is Err ==> final(self).contents() == old(self).contents(),
            final(self).capacity() == old(self).capacity(),
    ;
}

/// A trait for allocatable/resizeable linear array types
pub trait ArrayAlloc<T>: ArrayMut<T> + Sized {
    /// An alloc related error
    type Error: Debug;

    /// Whether every operation of this type is guaranteed to succeed
    spec fn infallible() -> bool;

    /// Whether removing an element from the back is guaranteed to succeed
    spec fn pop_never_fails() -> bool;

    /// Whether allocating a new instance is guaranteed to fail
    spec fn alloc_never_succeeds() -> bool;

    /// Creates a newly allocated instance of `Self`
    fn alloc_new() -> (r: Result<Self, Self::Error>)
        ensures
            Self::infallible() ==> r is Ok,
            Self::alloc_never_succeeds() ==> r is Err,
            r is Ok ==> r->Ok_0@ == Seq::<T>::empty(),
    ;

    /// Clones `source` into a newly allocated instance of `Self`
    fn alloc_clone<Source: ArrayRef<T>>(source: &Source) -> (r: Result<Self, Self::Error>) where T: Clone,
        ensures
            Self::infallible() ==> r is Ok,
            Self::alloc_never_succeeds() ==> r is Err,
            r is Ok ==> appended_clones(Seq::<T>::empty(), source@, r->Ok_0@, source@.len() as int),
    ;

    /// Grows `self` to the given capacity if the current length is smaller than `len` and inits new elements using
    /// `init`
    fn grow_with<F: Fn() -> T>(&mut self, len: usize, init: F) -> (r: Result<(), Self::Error>)
        requires
            call_requires(init, ()),
        ensures
            Self::infallible() || fits(old(self).max_len(), len as int) ==> r is Ok,
            fits(old(self).max_len(), old(self)@.len() as int) && !fits(old(self).max_len(), len as int) ==> r is Err,
            old(self)@.len() <= final(self)@.len(),
            final(self)@.subrange(0, old(self)@.len() as int) == old(self)@,
            r is Ok ==> final(self)@.len() == grown_len(old(self)@.len(), len),
            r is Err ==> final(self)@.len() < len && old(self).max_len() == Some(final(self)@.len()),
            forall|i: int|
                old(self)@.len() <= i < final(self)@.len() ==> call_ensures(init, (), #[trigger] final(self)@[i]),
            final(self).max_len() == old(self).max_len(),
    ;

    /// Grows `self` to the given capacity if the current length is smaller than `len` and inits new elements using
    /// `Default`
    fn grow(&mut self, len: usize) -> (r: Result<(), Self::Error>) where T: Default,
        ensures
            Self::infallible() || fits(old(self).max_len(), len as int) ==> r is Ok,
            fits(old(self).max_len(), old(self)@.len() as int) && !fits(old(self).max_len(), len as int) ==> r is Err,
            old(self)@.len() <= final(self)@.len(),
            final(self)@.subrange(0, old(self)@.len() as int) == old(self)@,
            r is Ok ==> final(self)@.len() == grown_len(old(self)@.len(), len),
            r is Err ==> final(self)@.len() < len && old(self).max_len() == Some(final(self)@.len()),
            forall|i: int|
                old(self)@.len() <= i < final(self)@.len() ==> call_ensures(T::default, (), #[trigger] final(self)@[i]),
            final(self).max_len() == old(self).max_len(),
    ;

    /// Shrinks `self` to the given capacity if the current length is larger than `len`
    fn shrink(&mut self, len: usize) -> (r: Result<(), Self::Error>)
        ensures
            Self::infallible() || Self::pop_never_fails() ==> r is Ok,
            len >= old(self)@.len() ==> r is Ok && final(self)@ == old(self)@,
            r is Ok ==> final(self)@ == old(self)@.subrange(0, if len <= old(self)@.len() { len as int } else { old(self)@.len() as int }),
            r is Err ==> truncated(old(self)@, final(self)@, len as int),
            final(self).max_len() == old(self).max_len(),
    ;

    /// Pushes an `element` to the front of `self`
    fn push_front(&mut self, element: T) -> (r: Result<(), Self::Error>)
        ensures
            Self::infallible() || fits(old(self).max_len(), old(self)@.len() + 1int) ==> r is Ok,
            old(self).max_len() == Some(old(self)@.len()) ==> r is Err,
            r is Ok ==> final(self)@ == seq![element] + old(self)@,
            r is Err ==> final(self)@ == old(self)@ && old(self).max_len() == Some(old(self)@.len()),
            final(self).max_len() == old(self).max_len(),
    ;

    /// Pushes some `elements` to the front of `self`
    fn push_n_front<Source: ArrayRef<T>>(&mut self, elements: &Source) -> (r: Result<(), Self::Error>) where T: Clone,
        ensures
            Self::infallible() || fits(old(self).max_len(), (old(self)@.len() + elements@.len()) as int) ==> r is Ok,
            fits(old(self).max_len(), old(self)@.len() as int) && !fits(
                old(self).max_len(),
                (old(self)@.len() + elements@.len()) as int,
            ) ==> r is Err,
            r is Ok ==> prepended_clones(old(self)@, elements@, final(self)@),
            r is Err ==> final(self)@.len() < old(self)@.len() + elements@.len() && old(self).max_len() == Some(
                final(self)@.len(),
            ) && appended_clones(old(self)@, elements@, final(self)@, final(self)@.len() - old(self)@.len()),
            final(self).max_len() == old(self).max_len(),
    ;

    /// Pushes an `element` to the back of `self`
    fn push_back(&mut self, element: T) -> (r: Result<(), Self::Error>)
        ensures
            Self::infallible() || fits(old(self).max_len(), old(self)@.len() + 1int) ==> r is Ok,
            old(self).max_len() == Some(old(self)@.len()) ==> r is Err,
            r is Ok ==> final(self)@ == old(self)@.push(element),
            r is Err ==> final(self)@ == old(self)@ && old(self).max_len() == Some(old(self)@.len()),
            final(self).max_len() == old(self).max_len(),
    ;

    /// Pushes some `elements` to the back of `self`
    fn push_n_back<Source: ArrayRef<T>>(&mut self, elements: &Source) -> (r: Result<(), Self::Error>) where T: Clone,
        ensures
            Self::infallible() || fits(old(self).max_len(), (old(self)@.len() + elements@.len()) as int) ==> r is Ok,
            fits(old(self).max_len(), old(self)@.len() as int) && !fits(
                old(self).max_len(),
                (old(self)@.len() + elements@.len()) as int,
            ) ==> r is Err,
            r is Ok ==> appended_clones(old(self)@, elements@, final(self)@, elements@.len() as int),
            r is Err ==> final(self)@.len() < old(self)@.len() + elements@.len() && old(self).max_len() == Some(
                final(self)@.len(),
            ) && appended_clones(old(self)@, elements@, final(self)@, final(self)@.len() - old(self)@.len()),
            final(self).max_len() == old(self).max_len(),
    ;

    /// Pops an `element` from the front of `self`
    fn pop_front(&mut self) -> (r: Result<Option<T>, Self::Error>)
        ensures
            Self::infallible() || Self::pop_never_fails() ==> r is Ok,
            r is Ok && old(self)@.len() == 0 ==> r->Ok_0 is None && final(self)@ == old(self)@,
            r is Ok && old(self)@.len() > 0 ==> r->Ok_0 == Some(old(self)@[0]) && final(self)@ == old(self)@.drop_first(),
            r is Err ==> final(self)@ == rotate_left_mod(old(self)@, 1),
            final(self).max_len() == old(self).max_len(),
    ;

    /// Pops multiple `elements` from the front of `self`
    fn pop_n_front(&mut self, len: usize) -> (r: Result<Option<Self>, Self::Error>)
        ensures
            old(self)@.len() < len ==> r is Ok && r->Ok_0 is None && final(self)@ == rotate_left_mod(old(self)@, len as int),
            old(self)@.len() >= len && Self::infallible() ==> r is Ok,
            old(self)@.len() >= len && r is Ok ==> r->Ok_0 is Some,
            old(self)@.len() >= len && Self::alloc_never_succeeds() ==> r is Err && final(self)@ == rotate_left_mod(
                old(self)@,
                len as int,
            ),
            r is Ok && r->Ok_0 is Some ==> r->Ok_0->Some_0@ == old(self)@.subrange(0, len as int) && final(self)@
                == old(self)@.subrange(len as int, old(self)@.len() as int),
            r is Err ==> old(self)@.len() >= len && truncated(
                rotate_left_mod(old(self)@, len as int),
                final(self)@,
                old(self)@.len() - len,
            ),
            final(self).max_len() == old(self).max_len(),
    ;

    /// Pops an `element` from the back of `self`
    fn pop_back(&mut self) -> (r: Result<Option<T>, Self::Error>)
        ensures
            Self::infallible() || Self::pop_never_fails() ==> r is Ok,
            r is Ok ==> popped(old(self)@, r->Ok_0, final(self)@),
            r is Err ==> final(self)@ == old(self)@,
            final(self).max_len() == old(self).max_len(),
    ;

    /// Pops multiple `elements` from the back of `self`
    fn pop_n_back(&mut self, len: usize) -> (r: Result<Option<Self>, Self::Error>)
        ensures
            old(self)@.len() < len ==> r is Ok && r->Ok_0 is None && final(self)@ == old(self)@,
            old(self)@.len() >= len && Self::infallible() ==> r is Ok,
            old(self)@.len() >= len && r is Ok ==> r->Ok_0 is Some,
            old(self)@.len() >= len && Self::alloc_never_succeeds() ==> r is Err && final(self)@ == old(self)@,
            r is Ok && r->Ok_0 is Some ==> r->Ok_0->Some_0@ == old(self)@.subrange(
                old(self)@.len() - len,
                old(self)@.len() as int,
            ) && final(self)@ == old(self)@.subrange(0, old(self)@.len() - len),
            r is Err ==> old(self)@.len() >= len && truncated(old(self)@, final(self)@, old(self)@.len() - len),
            final(self).max_len() == old(self).max_len(),
    ;
}

/// An infallible/panicking variant of `ArrayAlloc`
///
///  - Note: This trait adopts Rust's "panic on allocation failure" policy: each method performs the checked operation
///    and aborts where it fails. Each method therefore requires an input on which the checked operation is
///    guaranteed to succeed. It is implemented for every `ArrayAlloc` type.
pub trait ArrayAllocPanic<T>: ArrayMut<T> + Sized {
    /// Whether every operation of this type is guaranteed to succeed
    spec fn never_fails() -> bool;

    /// Whether removing an element from the back is guaranteed to succeed
    spec fn pops_never_fail() -> bool;

    /// Creates a newly allocated instance of `Self`
    fn alloc_new() -> (r: Self)
        requires
            Self::never_fails(),
        ensures
            r@ == Seq::<T>::empty(),
    ;

    /// Clones `source` into a newly allocated instance of `Self`
    fn alloc_clone<Source: ArrayRef<T>>(source: &Source) -> (r: Self) where T: Clone,
        requires
            Self::never_fails(),
        ensures
            appended_clones(Seq::<T>::empty(), source@, r@, source@.len() as int),
    ;

    /// Grows `self` to the given capacity if the current length is smaller than `len` and inits new elements using
    /// `init`
    fn grow_with<F: Fn() -> T>(&mut self, len: usize, init: F)
        requires
            Self::never_fails() || fits(old(self).max_len(), len as int),
            call_requires(init, ()),
        ensures
            final(self)@.subrange(0, old(self)@.len() as int) == old(self)@,
            final(self)@.len() == if len <= old(self)@.len() { old(self)@.len() } else { len as nat },
            forall|i: int|
                old(self)@.len() <= i < final(self)@.len() ==> call_ensures(init, (), #[trigger] final(self)@[i]),
    ;

    /// Grows `self` to the given capacity if the current length is smaller than `len` and inits new elements using
    /// `Default`
    fn grow(&mut self, len: usize) where T: Default,
        requires
            Self::never_fails() || fits(old(self).max_len(), len as int),
        ensures
            final(self)@.subrange(0, old(self)@.len() as int) == old(self)@,
            final(self)@.len() == if len <= old(self)@.len() { old(self)@.len() } else { len as nat },
            forall|i: int|
                old(self)@.len() <= i < final(self)@.len() ==> call_ensures(T::default, (), #[trigger] final(self)@[i]),
    ;

    /// Shrinks `self` to the given capacity if the current length is larger than `len`
    fn shrink(&mut self, len: usize)
        requires
            Self::pops_never_fail(),
        ensures
            final(self)@ == old(self)@.subrange(0, if len <= old(self)@.len() { len as int } else { old(self)@.len() as int }),
    ;

    /// Pushes an `element` to the front of `self`
    fn push_front(&mut self, element: T)
        requires
            Self::never_fails() || fits(old(self).max_len(), old(self)@.len() + 1int),
        ensures
            final(self)@ == seq![element] + old(self)@,
    ;

    /// Pushes some `elements` to the front of `self`
    fn push_n_front<Source: ArrayRef<T>>(&mut self, elements: &Source) where T: Clone,
        requires
            Self::never_fails() || fits(old(self).max_len(), (old(self)@.len() + elements@.len()) as int),
        ensures
            prepended_clones(old(self)@, elements@, final(self)@),
    ;

    /// Pushes an `element` to the back of `self`
    fn push_back(&mut self, element: T)
        requires
            Self::never_fails() || fits(old(self).max_len(), old(self)@.len() + 1int),
        ensures
            final(self)@ == old(self)@.push(element),
    ;

    /// Pushes some `elements` to the back of `self`
    fn push_n_back<Source: ArrayRef<T>>(&mut self, elements: &Source) where T: Clone,
        requires
            Self::never_fails() || fits(old(self).max_len(), (old(self)@.len() + elements@.len()) as int),
        ensures
            appended_clones(old(self)@, elements@, final(self)@, elements@.len() as int),
    ;

    /// Pops an `element` from the front of `self`
    fn pop_front(&mut self) -> (r: Option<T>)
        requires
            Self::pops_never_fail(),
        ensures
            old(self)@.len() == 0 ==> r is None && final(self)@ == old(self)@,
            old(self)@.len() > 0 ==> r == Some(old(self)@[0]) && final(self)@ == old(self)@.drop_first(),
    ;

    /// Pops multiple `elements` from the front of `self`
    fn pop_n_front(&mut self, len: usize) -> (r: Option<Self>)
        requires
            Self::never_fails() || old(self)@.len() < len,
        ensures
            old(self)@.len() < len ==> r is None && final(self)@ == rotate_left_mod(old(self)@, len as int),
            old(self)@.len() >= len ==> r is Some && r->Some_0@ == old(self)@.subrange(0, len as int) && final(self)@
                == old(self)@.subrange(len as int, old(self)@.len() as int),
    ;

    /// Pops an `element` from the back of `self`
    fn pop_back(&mut self) -> (r: Option<T>)
        requires
            Self::pops_never_fail(),
        ensures
            popped(old(self)@, r, final(self)@),
    ;

    /// Pops multiple `elements` from the back of `self`
    fn pop_n_back(&mut self, len: usize) -> (r: Option<Self>)
        requires
            Self::never_fails() || old(self)@.len() < len,
        ensures
            old(self)@.len() < len ==> r is None && final(self)@ == old(self)@,
            old(self)@.len() >= len ==> r is Some && r->Some_0@ == old(self)@.subrange(
                old(self)@.len() - len,
                old(self)@.len() as int,
            ) && final(self)@ == old(self)@.subrange(0, old(self)@.len() - len),
    ;
}

impl<T, A: ArrayAlloc<T>> ArrayAllocPanic<T> for A {
    open spec fn never_fails() -> bool {
        <A as ArrayAlloc<T>>::infallible()
    }

    open spec fn pops_never_fail() -> bool {
        <A as ArrayAlloc<T>>::infallible() || <A as ArrayAlloc<T>>::pop_never_fails()
    }

    fn alloc_new() -> (r: Self) {
        <Self as ArrayAlloc<T>>::alloc_new().expect("Allocation error")
    }

    fn alloc_clone<Source: ArrayRef<T>>(elements: &Source) -> (r: Self) where T: Clone {
        <Self as ArrayAlloc<T>>::alloc_clone(elements).expect("Allocation error")
    }

    fn grow_with<F: Fn() -> T>(&mut self, len: usize, init: F) {
        <Self as ArrayAlloc<T>>::grow_with(self, len, init).expect("Allocation error")
    }

    fn grow(&mut self, len: usize) where T: Default {
        <Self as ArrayAlloc<T>>::grow(self, len).expect("Allocation error")
    }

    fn shrink(&mut self, len: usize) {
        <Self as ArrayAlloc<T>>::shrink(self, len).expect("Allocation error")
    }

    fn push_front(&mut self, element: T) {
        <Self as ArrayAlloc<T>>::push_front(self, element).expect("Allocation error")
    }

    fn push_n_front<Source: ArrayRef<T>>(&mut self, elements: &Source) where T: Clone {
        <Self as ArrayAlloc<T>>::push_n_front(self, elements).expect("Allocation error")
    }

    fn push_back(&mut self, element: T) {
        <Self as ArrayAlloc<T>>::push_back(self, element).expect("Allocation error")
    }

    fn push_n_back<Source: ArrayRef<T>>(&mut self, elements: &Source) where T: Clone {
        <Self as ArrayAlloc<T>>::push_n_back(self, elements).expect("Allocation error")
    }

    fn pop_front(&mut self) -> (r: Option<T>) {
        <Self as ArrayAlloc<T>>::pop_front(self).expect("Allocation error")
    }

    fn pop_n_front(&mut self, len: usize) -> (r: Option<Self>) {
        <Self as ArrayAlloc<T>>::pop_n_front(self, len).expect("Allocation error")
    }

    fn pop_back(&mut self) -> (r: Option<T>) {
        <Self as ArrayAlloc<T>>::pop_back(self).expect("Allocation error")
    }

    fn pop_n_back(&mut self, len: usize) -> (r: Option<Self>) {
        <Self as ArrayAlloc<T>>::pop_n_back(self, len).expect("Allocation error")
    }
}

impl<T> CanAlloc<T> for Vec<T> {
    type Error = WillPanic;

    open spec fn infallible() -> bool {
        true
    }

    open spec fn pop_never_fails() -> bool {
        true
    }

    open spec fn alloc_never_succeeds() -> bool {
        false
    }

    fn alloc_new() -> (r: Result<Self, Self::Error>) {
        Ok(Vec::new())
    }

    fn push(&mut self, element: T) -> (r: Result<(), Self::Error>) {
        Vec::push(self, element);
        Ok(())
    }

    fn pop(&mut self) -> (r: Result<Option<T>, Self::Error>) {
        Ok(Vec::pop(self))
    }
}

} // verus!
