use vstd::prelude::*;

verus! {

/// Contiguous storage that can be viewed as a slice
pub trait Storage {
    type Elem;

    /// The elements the storage currently exposes
    spec fn contents(&self) -> Seq<Self::Elem>;

    fn slice(&self) -> (r: &[Self::Elem])
        ensures
            r@ == self.contents(),
    ;
}

/// Contiguous storage that can be viewed as a mutable slice
pub trait StorageMut: Storage {
    /// The most elements the storage can hold, or `None` where it grows without bound
    spec fn capacity(&self) -> Option<nat>;

    fn slice_mut(&mut self) -> (r: &mut [Self::Elem])
        ensures
            r@ == old(self).contents(),
            final(r)@ == final(self).contents(),
            final(self).capacity() == old(self).capacity(),
    ;
}

impl<T> Storage for Vec<T> {
    type Elem = T;

    open spec fn contents(&self) -> Seq<T> {
        self@
    }

    fn slice(&self) -> (r: &[T]) {
        self.as_slice()
    }
}

impl<T> StorageMut for Vec<T> {
    open spec fn capacity(&self) -> Option<nat> {
        None
    }

    fn slice_mut(&mut self) -> (r: &mut [T]) {
        self.as_mut_slice()
    }
}

impl<'a, T> Storage for &'a [T] {
    type Elem = T;

    open spec fn contents(&self) -> Seq<T> {
        (**self)@
    }

    fn slice(&self) -> (r: &[T]) {
        *self
    }
}

impl<'a, T> Storage for &'a mut [T] {
    type Elem = T;

    open spec fn contents(&self) -> Seq<T> {
        (**self)@
    }

    fn slice(&self) -> (r: &[T]) {
        &**self
    }
}

impl<'a, T> StorageMut for &'a mut [T] {
    open spec fn capacity(&self) -> Option<nat> {
        Some((**self)@.len())
    }

    fn slice_mut(&mut self) -> (r: &mut [T]) {
        let len = self.len();
        let (whole, _) = split_slice_mut(&mut **self, len);
        whole
    }
}

impl<T, const N: usize> Storage for [T; N] {
    type Elem = T;

    open spec fn contents(&self) -> Seq<T> {
        self@
    }

    fn slice(&self) -> (r: &[T]) {
        self.as_slice()
    }
}

impl<T, const N: usize> StorageMut for [T; N] {
    open spec fn capacity(&self) -> Option<nat> {
        Some(N as nat)
    }

    fn slice_mut(&mut self) -> (r: &mut [T]) {
        self.as_mut_slice()
    }
}

/// Relies on `<[Slot; LEN]>::as_mut_slice`: a slice over all elements of the array, through which they can change.
pub assume_specification<Slot, const LEN: usize>[ <[Slot; LEN]>::as_mut_slice ](array: &mut [Slot; LEN]) -> (r: &mut [Slot])
    ensures
        r@ == old(array)@,
        final(r)@ == final(array)@,
;

/// The sequence `s` rotated left by `k` places: the first `k` elements move to the end
pub open spec fn rotated_left<T>(s: Seq<T>, k: int) -> Seq<T> {
    s.subrange(k, s.len() as int) + s.subrange(0, k)
}

/// Relies on `<[Elt]>::swap`: the elements at `a` and `b` trade places; it panics when either index is out of
/// bounds.
pub assume_specification<Elt>[ <[Elt]>::swap ](slice: &mut [Elt], a: usize, b: usize)
    requires
        a < old(slice)@.len(),
        b < old(slice)@.len(),
    ensures
        final(slice)@ == old(slice)@.update(a as int, old(slice)@[b as int]).update(b as int, old(slice)@[a as int]),
;

/// Relies on `<[Piece]>::split_at_mut`: the two halves of `slice` around `mid`; as for every mutable slice, the
/// length of either half stays the same while it is borrowed. It panics when `mid` exceeds the length.
#[verifier::external_body]
pub fn split_slice_mut<'a, Piece>(slice: &'a mut [Piece], mid: usize) -> (r: (&'a mut [Piece], &'a mut [Piece]))
    requires
        mid <= old(slice)@.len(),
    ensures
        r.0@ == old(slice)@.subrange(0, mid as int),
        r.1@ == old(slice)@.subrange(mid as int, old(slice)@.len() as int),
        final(slice)@ == final(r.0)@ + final(r.1)@,
        final(r.0)@.len() == mid,
        final(r.1)@.len() == old(slice)@.len() - mid,
{
    slice.split_at_mut(mid)
}

/// Reverses the elements of `slice` in `[lo, hi)`, leaving the others in place
fn reverse_range<U>(slice: &mut [U], lo: usize, hi: usize)
    requires
        lo <= hi <= old(slice)@.len(),
    ensures
        final(slice)@.len() == old(slice)@.len(),
        forall|i: int| lo <= i < hi ==> #[trigger] final(slice)@[i] == old(slice)@[lo + hi - 1 - i],
        forall|i: int| 0 <= i < lo || hi <= i < old(slice)@.len() ==> #[trigger] final(slice)@[i] == old(slice)@[i],
{
    let ghost start = slice@;
    let mut a: usize = lo;
    let mut b: usize = hi;
    while b - a > 1
        invariant
            lo <= a <= b <= hi,
            a - lo == hi - b,
            hi <= start.len(),
            slice@.len() == start.len(),
            forall|i: int| lo <= i < a || b <= i < hi ==> #[trigger] slice@[i] == start[lo + hi - 1 - i],
            forall|i: int| a <= i < b || 0 <= i < lo || hi <= i < start.len() ==> #[trigger] slice@[i] == start[i],
        decreases b - a,
    {
        slice.swap(a, b - 1);
        a = a + 1;
        b = b - 1;
    }
}

/// Rotates `slice` left by `mid` places: the first `mid` elements move to the end
pub fn rotate_slice_left<U>(slice: &mut [U], mid: usize)
    requires
        mid <= old(slice)@.len(),
    ensures
        final(slice)@ == rotated_left(old(slice)@, mid as int),
{
    let ghost start = slice@;
    let len = slice.len();
    reverse_range(slice, 0, mid);
    reverse_range(slice, mid, len);
    reverse_range(slice, 0, len);
    assert(slice@ =~= rotated_left(start, mid as int));
}

/// Reverses the order of the elements of `slice`
pub fn reverse_slice<U>(slice: &mut [U])
    ensures
        final(slice)@ == old(slice)@.reverse(),
{
    let ghost start = slice@;
    let len = slice.len();
    reverse_range(slice, 0, len);
    assert(slice@ =~= start.reverse());
}

} // verus!