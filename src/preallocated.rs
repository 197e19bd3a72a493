use vstd::prelude::*;
use crate::misc::BufferTooSmall;
use crate::storage::{split_slice_mut, Storage, StorageMut};
use crate::traits::CanAlloc;

verus! {

/// The number of used elements of a buffer of length `len` when `used` were claimed
pub open spec fn in_use(used: usize, len: nat) -> int {
    if used <= len { used as int } else { len as int }
}

/// A wrapper that implements `CanAlloc` over a preallocated buffer
pub struct Preallocated<Buffer> {
    /// The wrapped buffer
    buffer: Buffer,
    /// The amount of elements used
    used: usize,
}

impl<Buffer> Preallocated<Buffer> {
    /// The wrapped buffer
    pub closed spec fn buffer(&self) -> Buffer {
        self.buffer
    }

    /// The amount of elements claimed as used, which may exceed the buffer's length
    pub closed spec fn used(&self) -> usize {
        self.used
    }

    /// Create a new `Preallocated` instance by wrapping `buffer`
    pub fn new(buffer: Buffer) -> (r: Self)
        ensures
            r.buffer() == buffer,
            r.used() == 0,
    {
        Self::new_with_used(buffer, 0)
    }

    /// Create a new `Preallocated` instance by wrapping `buffer` and sets the amount of used elements to `used`
    ///
    /// __Discussion:__ If `used` is greater than `buffer.len()`, it will be silently capped to `buffer.len()` wherever
    /// necessary
    pub fn new_with_used(buffer: Buffer, used: usize) -> (r: Self)
        ensures
            r.buffer() == buffer,
            r.used() == used,
    {
        Self { buffer, used }
    }

    /// Returns the wrapped buffer
    pub fn into_inner(self) -> (r: Buffer)
        ensures
            r == self.buffer(),
    {
        self.buffer
    }
}

impl<Buffer: Storage> Storage for Preallocated<Buffer> {
    type Elem = Buffer::Elem;

    open spec fn contents(&self) -> Seq<Buffer::Elem> {
        self.buffer().contents().subrange(0, in_use(self.used(), self.buffer().contents().len()))
    }

    fn slice(&self) -> (r: &[Buffer::Elem]) {
        // Cap `used` to the buffer size because we cannot ensure that the buffer has not been resized somewhere else
        let buffer = self.buffer.slice();
        let used = if self.used <= buffer.len() { self.used } else { buffer.len() };

        // Take the used subslice
        &buffer[0..used]
    }
}

impl<Buffer: StorageMut> StorageMut for Preallocated<Buffer> {
    open spec fn capacity(&self) -> Option<nat> {
        Some(self.buffer().contents().len())
    }

    fn slice_mut(&mut self) -> (r: &mut [Buffer::Elem]) {
        // Cap `used` to the buffer size because we cannot ensure that the buffer has not been resized somewhere else
        let used = self.used;
        let buffer = self.buffer.slice_mut();
        let used = if used <= buffer.len() { used } else { buffer.len() };

        // Take the used subslice
        let (head, _) = split_slice_mut(buffer, used);
        head
    }
}

impl<T: Default, Buffer: StorageMut<Elem = T>> CanAlloc<T> for Preallocated<Buffer> {
    type Error = BufferTooSmall;

    open spec fn infallible() -> bool {
        false
    }

    open spec fn pop_never_fails() -> bool {
        true
    }

    open spec fn alloc_never_succeeds() -> bool {
        true
    }

    /// __Warning:__ This function will always fail because we cannot create a preallocated out of nothing
    fn alloc_new() -> (r: Result<Self, Self::Error>)
        ensures
            r is Err,
    {
        Err(BufferTooSmall)
    }

    fn push(&mut self, element: T) -> (r: Result<(), Self::Error>)
        ensures
            r is Err <==> old(self).contents().len() == old(self).buffer().contents().len(),
            r is Ok ==> final(self).buffer().contents() == old(self).buffer().contents().update(
                old(self).contents().len() as int,
                element,
            ),
            r is Err ==> final(self).buffer() == old(self).buffer(),
    {
        // Cap `used` to the buffer size because we cannot ensure that the buffer has not been resized somewhere else
        let len = self.buffer.slice().len();
        let used = if self.used <= len { self.used } else { len };
        self.used = used;

        // Ensure that the buffer is not full
        if used >= len {
            return Err(BufferTooSmall);
        }
        let next = used + 1;

        // Append the element
        let buffer = self.buffer.slice_mut();
        buffer[used] = element;
        self.used = next;
        proof {
            assert(self.contents() =~= old(self).contents().push(element));
        }
        Ok(())
    }

    fn pop(&mut self) -> (r: Result<Option<T>, Self::Error>)
        ensures
            r is Ok,
            old(self).contents().len() == 0 ==> final(self).buffer() == old(self).buffer(),
            old(self).contents().len() > 0 ==> final(self).buffer().contents() == old(self).buffer().contents().update(
                old(self).contents().len() - 1,
                final(self).buffer().contents()[old(self).contents().len() - 1],
            ),
            old(self).contents().len() > 0 ==> call_ensures(
                T::default,
                (),
                final(self).buffer().contents()[old(self).contents().len() - 1],
            ),
    {
        // Cap `used` to the buffer size because we cannot ensure that the buffer has not been resized somewhere else
        let len = self.buffer.slice().len();
        let used = if self.used <= len { self.used } else { len };
        self.used = used;

        // Validate that the used buffer is not empty
        let last = match used.checked_sub(1) {
            Some(last) => last,
            None => return Ok(None),
        };

        // Take the last element and replace it with a default element
        let mut element = T::default();
        let buffer = self.buffer.slice_mut();
        core::mem::swap(&mut buffer[last], &mut element);
        self.used = last;
        proof {
            assert(self.contents() =~= old(self).contents().drop_last());
        }
        Ok(Some(element))
    }
}

} // verus!
