use vstd::prelude::*;
use crate::misc::{BufferTooSmall, RangeBoundsExt};
use crate::storage::{reverse_slice, rotate_slice_left, Storage, StorageMut};
use crate::traits::{appended_clones, fits, ArrayAlloc, ArrayMut, ArrayRef, CanAlloc};
use core::slice::{Iter as SliceIter, IterMut as SliceIterMut};

verus! {

/// A wrapper for array types that exposes checked APIs only
///
/// `Default`, `Clone`, `Copy`, the comparisons and `Hash` pass through to the wrapped storage.
#[derive(Default, Clone, Copy, PartialEq, Eq, PartialOrd, Ord, Hash)]
pub struct Array<Wrapped> {
    /// The wrapped element
    wrapped: Wrapped,
}

impl<Wrapped: Storage> View for Array<Wrapped> {
    type V = Seq<Wrapped::Elem>;

    open spec fn view(&self) -> Seq<Wrapped::Elem> {
        self.inner().contents()
    }
}

impl<Wrapped> Array<Wrapped> {
    /// The wrapped storage
    pub closed spec fn inner(&self) -> Wrapped {
        self.wrapped
    }

    /// Wraps an `array`
    pub fn new(array: Wrapped) -> (r: Self)
        ensures
            r.inner() == array,
    {
        Self { wrapped: array }
    }

    /// Returns the wrapped array
    pub fn into_inner(self) -> (r: Wrapped)
        ensures
            r == self.inner(),
    {
        self.wrapped
    }
}

impl<Wrapped: Storage> ArrayRef<Wrapped::Elem> for Array<Wrapped> {
    fn as_slice(&self) -> (r: &[Wrapped::Elem]) {
        self.wrapped.slice()
    }

    fn len(&self) -> (r: usize) {
        self.as_slice().len()
    }

    fn is_empty(&self) -> (r: bool) {
        self.as_slice().is_empty()
    }

    fn get(&self, index: usize) -> (r: Option<&Wrapped::Elem>) {
        self.as_slice().get(index)
    }

    fn get_n<R: RangeBoundsExt>(&self, range: R) -> (r: Option<Array<&[Wrapped::Elem]>>) {
        let slice = self.as_slice();
        match range.into_absolute(0, slice.len()) {
            Some(range) => if range.end <= slice.len() {
                Some(Array::new(&slice[range]))
            } else {
                None
            },
            None => None,
        }
    }

    fn first(&self) -> (r: Option<&Wrapped::Elem>) {
        self.as_slice().first()
    }

    fn last(&self) -> (r: Option<&Wrapped::Elem>) {
        self.as_slice().last()
    }

    fn iter(&self) -> (r: SliceIter<'_, Wrapped::Elem>) {
        self.as_slice().iter()
    }

    fn clone_to<Target: StorageMut<Elem = Wrapped::Elem>>(&self, target: &mut Target) -> (r: Result<
        (),
        BufferTooSmall,
    >) where Wrapped::Elem: Clone {
        // Validate length
        if self.len() > target.slice().len() {
            return Err(BufferTooSmall);
        }

        // Clone the source elements to target
        let source = self.as_slice();
        let dest = target.slice_mut();
        let ghost before = dest@;
        let mut i: usize = 0;
        while i < source.len()
            invariant
                source@ == self@,
                source@.len() <= before.len(),
                dest@.len() == before.len(),
                0 <= i <= source@.len(),
                forall|j: int| 0 <= j < i ==> cloned(source@[j], #[trigger] dest@[j]),
                forall|j: int| i <= j < before.len() ==> #[trigger] dest@[j] == before[j],
            decreases source@.len() - i,
        {
            dest[i] = source[i].clone();
            i = i + 1;
        }
        Ok(())
    }
}

/// The iterator of `std` over mutable references to the elements of a slice
#[verifier::external_type_specification]
#[verifier::external_body]
#[verifier::reject_recursive_types(Member)]
pub struct ExIterMut<'a, Member: 'a>(SliceIterMut<'a, Member>);

/// Relies on `<[Item]>::iter_mut`: the iterator can change elements but not the length of the slice.
#[verifier::external_body]
fn slice_iter_mut<'a, Item>(slice: &'a mut [Item]) -> (r: SliceIterMut<'a, Item>)
    ensures
        final(slice)@.len() == old(slice)@.len(),
{
    slice.iter_mut()
}

impl<Wrapped: Storage> Storage for Array<Wrapped> {
    type Elem = Wrapped::Elem;

    open spec fn contents(&self) -> Seq<Wrapped::Elem> {
        self@
    }

    fn slice(&self) -> (r: &[Wrapped::Elem]) {
        self.wrapped.slice()
    }
}

impl<Wrapped: StorageMut> StorageMut for Array<Wrapped> {
    open spec fn capacity(&self) -> Option<nat> {
        self.inner().capacity()
    }

    fn slice_mut(&mut self) -> (r: &mut [Wrapped::Elem]) {
        self.wrapped.slice_mut()
    }
}

impl<Wrapped: StorageMut> ArrayMut<Wrapped::Elem> for Array<Wrapped> {
    open spec fn max_len(&self) -> Option<nat> {
        self.inner().capacity()
    }

    fn as_slice_mut(&mut self) -> (r: &mut [Wrapped::Elem]) {
        self.wrapped.slice_mut()
    }

    fn get_mut(&mut self, index: usize) -> (r: Option<&mut Wrapped::Elem>) {
        let slice = self.as_slice_mut();
        if index < slice.len() {
            let (_, tail) = slice.split_at_mut(index);
            tail.first_mut()
        } else {
            None
        }
    }

    fn get_n_mut<R: RangeBoundsExt>(&mut self, range: R) -> (r: Option<Array<&mut [Wrapped::Elem]>>) {
        let slice = self.as_slice_mut();
        let len = slice.len();
        match range.into_absolute(0, len) {
            Some(range) => if range.end <= len {
                let (_, tail) = slice.split_at_mut(range.start);
                let (middle, _) = tail.split_at_mut(range.end - range.start);
                Some(Array::new(middle))
            } else {
                None
            },
            None => None,
        }
    }

    fn first_mut(&mut self) -> (r: Option<&mut Wrapped::Elem>) {
        self.as_slice_mut().first_mut()
    }

    fn last_mut(&mut self) -> (r: Option<&mut Wrapped::Elem>) {
        self.as_slice_mut().last_mut()
    }

    fn iter_mut(&mut self) -> (r: SliceIterMut<'_, Wrapped::Elem>) {
        slice_iter_mut(self.as_slice_mut())
    }

    fn rotate_left(&mut self, count: usize) {
        // Avoid division by zero
        if self.is_empty() {
            return;
        }
        let count = count % self.len();
        rotate_slice_left(self.as_slice_mut(), count);
    }

    fn rotate_right(&mut self, count: usize) {
        // Avoid division by zero
        if self.is_empty() {
            return;
        }
        let len = self.len();
        let count = count % len;
        rotate_slice_left(self.as_slice_mut(), len - count);
    }

    fn reverse(&mut self) {
        reverse_slice(self.as_slice_mut())
    }
}

impl<T, Wrapped: CanAlloc<T>> ArrayAlloc<T> for Array<Wrapped> {
    type Error = <Wrapped as CanAlloc<T>>::Error;

    open spec fn infallible() -> bool {
        <Wrapped as CanAlloc<T>>::infallible()
    }

    open spec fn pop_never_fails() -> bool {
        <Wrapped as CanAlloc<T>>::pop_never_fails()
    }

    open spec fn alloc_never_succeeds() -> bool {
        <Wrapped as CanAlloc<T>>::alloc_never_succeeds()
    }

    fn alloc_new() -> (r: Result<Self, Self::Error>) {
        match Wrapped::alloc_new() {
            Ok(wrapped) => Ok(Self::new(wrapped)),
            Err(e) => Err(e),
        }
    }

    fn alloc_clone<Source: ArrayRef<T>>(elements: &Source) -> (r: Result<Self, Self::Error>) where
        T: Clone,
    {
        let mut this = match Self::alloc_new() {
            Ok(this) => this,
            Err(e) => return Err(e),
        };
        match this.push_n_back(elements) {
            Ok(()) => Ok(this),
            Err(e) => Err(e),
        }
    }

    fn grow_with<F: Fn() -> T>(&mut self, len: usize, init: F) -> (r: Result<(), Self::Error>) {
        let ghost start = self@;
        let missing = len.saturating_sub(self.len());
        let mut i: usize = 0;
        while i < missing
            invariant
                start == old(self)@,
                self.max_len() == old(self).max_len(),
                fits(self.max_len(), start.len() as int) ==> fits(self.max_len(), self@.len() as int),
                call_requires(init, ()),
                missing == if len <= start.len() { 0 } else { len - start.len() },
                i <= missing,
                self@.len() == start.len() + i,
                self@.subrange(0, start.len() as int) == start,
                forall|j: int| start.len() <= j < self@.len() ==> call_ensures(init, (), #[trigger] self@[j]),
            decreases missing - i,
        {
            let element = init();
            let ghost before = self@;
            match self.push_back(element) {
                Ok(()) => {},
                Err(e) => return Err(e),
            }
            assert(self@.subrange(0, start.len() as int) =~= before.subrange(0, start.len() as int));
            i = i + 1;
        }
        Ok(())
    }

    fn grow(&mut self, len: usize) -> (r: Result<(), Self::Error>) where T: Default {
        let init = || -> (r: T)
            ensures
                call_ensures(T::default, (), r),
            { T::default() };
        self.grow_with(len, init)
    }

    fn shrink(&mut self, len: usize) -> (r: Result<(), Self::Error>) {
        let ghost start = self@;
        let excess = self.len().saturating_sub(len);
        let mut i: usize = 0;
        while i < excess
            invariant
                start == old(self)@,
                self.max_len() == old(self).max_len(),
                excess == if start.len() <= len { 0 } else { start.len() - len },
                i <= excess,
                self@ == start.subrange(0, start.len() - i),
            decreases excess - i,
        {
            match self.wrapped.pop() {
                Ok(_) => {},
                Err(e) => return Err(e),
            }
            i = i + 1;
        }
        Ok(())
    }

    fn push_front(&mut self, element: T) -> (r: Result<(), Self::Error>) {
        let ghost start = self@;
        match self.push_back(element) {
            Ok(()) => {},
            Err(e) => return Err(e),
        }
        self.rotate_right(1);
        proof {
            let s = start.push(element);
            let total = s.len() as int;
            assert(1int % total == if total == 1 { 0int } else { 1int }) by (nonlinear_arith)
                requires total >= 1;
            assert(self@ =~= seq![element] + start);
        }
        Ok(())
    }

    fn push_n_front<Source: ArrayRef<T>>(&mut self, elements: &Source) -> (r: Result<(), Self::Error>) where
        T: Clone,
    {
        let ghost start = self@;
        match self.push_n_back(elements) {
            Ok(()) => {},
            Err(e) => return Err(e),
        }
        let ghost pushed = self@;
        self.rotate_right(elements.len());
        proof {
            let n = elements@.len() as int;
            let total = pushed.len() as int;
            if total > 0 {
                assert(n % total == if n == total { 0int } else { n }) by (nonlinear_arith)
                    requires 0 <= n <= total, total > 0;
                assert(self@.subrange(n, self@.len() as int) =~= start);
                assert forall|i: int| 0 <= i < n implies cloned(elements@[i], #[trigger] self@[i]) by {
                    assert(self@[i] == pushed[start.len() + i]);
                }
            } else {
                assert(self@.subrange(n, self@.len() as int) =~= start);
            }
        }
        Ok(())
    }

    fn push_back(&mut self, element: T) -> (r: Result<(), Self::Error>) {
        self.wrapped.push(element)
    }

    fn push_n_back<Source: ArrayRef<T>>(&mut self, elements: &Source) -> (r: Result<(), Self::Error>) where
        T: Clone,
    {
        let ghost start = self@;
        let source = elements.as_slice();
        assert(self@.subrange(0, start.len() as int) =~= start);
        let mut i: usize = 0;
        while i < source.len()
            invariant
                start == old(self)@,
                self.max_len() == old(self).max_len(),
                fits(self.max_len(), start.len() as int) ==> fits(self.max_len(), self@.len() as int),
                source@ == elements@,
                i <= source@.len(),
                appended_clones(start, source@, self@, i as int),
            decreases source@.len() - i,
        {
            let element = source[i].clone();
            let ghost before = self@;
            match self.push_back(element) {
                Ok(()) => {},
                Err(e) => return Err(e),
            }
            assert(self@.subrange(0, start.len() as int) =~= before.subrange(0, start.len() as int));
            i = i + 1;
        }
        Ok(())
    }

    fn pop_front(&mut self) -> (r: Result<Option<T>, Self::Error>) {
        let ghost start = self@;
        self.rotate_left(1);
        proof {
            if start.len() > 0 {
                let total = start.len() as int;
                assert(1int % total == if total == 1 { 0int } else { 1int }) by (nonlinear_arith)
                    requires total >= 1;
            }
        }
        let r = self.pop_back();
        proof {
            if start.len() > 0 && r is Ok {
                assert(self@ =~= start.drop_first());
            }
        }
        r
    }

    fn pop_n_front(&mut self, len: usize) -> (r: Result<Option<Self>, Self::Error>) {
        let ghost start = self@;
        self.rotate_left(len);
        proof {
            let n = len as int;
            let total = start.len() as int;
            if total > 0 && n <= total {
                assert(n % total == if n == total { 0int } else { n }) by (nonlinear_arith)
                    requires 0 <= n <= total, total > 0;
            }
        }
        let ghost rotated = self@;
        let r = self.pop_n_back(len);
        proof {
            if len <= start.len() && r is Ok && r->Ok_0 is Some {
                assert(r->Ok_0->Some_0@ =~= start.subrange(0, len as int));
                assert(self@ =~= start.subrange(len as int, start.len() as int));
            }
        }
        r
    }

    fn pop_back(&mut self) -> (r: Result<Option<T>, Self::Error>) {
        self.wrapped.pop()
    }

    fn pop_n_back(&mut self, len: usize) -> (r: Result<Option<Self>, Self::Error>) {
        // Don't mutate `self` if the operation cannot succeed
        if self.len() < len {
            return Ok(None);
        }
        let ghost start = self@;
        let total = self.len();

        // Move element by element into the new array
        assert(start.subrange(0, total as int) =~= start);
        let mut popped = match Self::alloc_new() {
            Ok(popped) => popped,
            Err(e) => return Err(e),
        };
        let mut i: usize = 0;
        while i < len
            invariant
                start == old(self)@,
                self.max_len() == old(self).max_len(),
                !Self::alloc_never_succeeds(),
                total == start.len(),
                len <= total,
                i <= len,
                self@ == start.subrange(0, total - i),
                popped@ == start.subrange(total - i, total as int).reverse(),
            decreases len - i,
        {
            let element = match self.pop_back() {
                Ok(element) => element.expect("an element below the popped length"),
                Err(e) => return Err(e),
            };
            assert(self@ =~= start.subrange(0, total - (i + 1)));
            let ghost before = popped@;
            match popped.push_back(element) {
                Ok(()) => {},
                Err(e) => return Err(e),
            }
            assert(popped@ =~= start.subrange(total - (i + 1), total as int).reverse());
            i = i + 1;
        }

        // Reverse the order in the new array and return it
        popped.reverse();
        assert(popped@ =~= start.subrange(total - len, total as int));
        Ok(Some(popped))
    }
}

} // verus!
