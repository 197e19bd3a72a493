use vstd::prelude::*;
use crate::traits::{
    appended_clones, prepended_clones, rotate_left_mod, rotate_right_mod, ArrayAlloc, ArrayMut, ArrayRef,
};
use crate::wrapper::Array;
use arbitrary::{Arbitrary, Unstructured};

verus! {

/// The number of distinct calls
pub const CALL_KINDS: usize = 31;

/// The unstructured input bytes that calls are decoded from
#[verifier::external_type_specification]
#[verifier::external_body]
pub struct ExUnstructured<'a>(Unstructured<'a>);

/// The error of decoding a value from unstructured input bytes
#[verifier::external_type_specification]
#[verifier::external_body]
pub struct ExArbitraryError(arbitrary::Error);

/// An error while decoding calls from unstructured input bytes
pub struct DecodeError(pub arbitrary::Error);

/// Relies on `Unstructured::int_in_range`: an integer in `[start, end]`, never an error; it panics on an empty range.
#[verifier::external_body]
fn int_in_range(u: &mut Unstructured<'_>, start: usize, end: usize) -> (r: Result<usize, DecodeError>)
    requires
        start <= end,
    ensures
        r is Ok,
        start <= r->Ok_0 <= end,
{
    u.int_in_range(start..=end).map_err(DecodeError)
}

/// Relies on `<usize as Arbitrary>::arbitrary`: any integer, drawn from the input bytes (zero bytes where they run
/// out), never an error.
#[verifier::external_body]
fn arbitrary_usize(u: &mut Unstructured<'_>) -> (r: Result<usize, DecodeError>)
    ensures
        r is Ok,
{
    usize::arbitrary(u).map_err(DecodeError)
}

/// Relies on `<u8 as Arbitrary>::arbitrary`: any byte, drawn from the input bytes (zero where they run out), never an
/// error.
#[verifier::external_body]
fn arbitrary_u8(u: &mut Unstructured<'_>) -> (r: Result<u8, DecodeError>)
    ensures
        r is Ok,
{
    u8::arbitrary(u).map_err(DecodeError)
}

/// Relies on `<Vec<u8> as Arbitrary>::arbitrary`: any byte vector, drawn from the input bytes; it collects byte
/// decodings, which never fail, so it is never an error.
#[verifier::external_body]
fn arbitrary_bytes(u: &mut Unstructured<'_>) -> (r: Result<Vec<u8>, DecodeError>)
    ensures
        r is Ok,
{
    Vec::<u8>::arbitrary(u).map_err(DecodeError)
}

/// The smaller of `len` and `max`
fn cap(len: usize, max: usize) -> (r: usize)
    ensures
        r == if len <= max { len } else { max },
{
    if len <= max { len } else { max }
}

/// The number of elements that growing `before` to `len` adds
pub open spec fn missing(before: Seq<u8>, len: usize) -> nat {
    if len <= before.len() { 0 } else { (len - before.len()) as nat }
}

/// Clones of bytes appended to `old` are the bytes themselves
proof fn lemma_byte_clones_appended(old: Seq<u8>, source: Seq<u8>, new: Seq<u8>)
    requires
        appended_clones(old, source, new, source.len() as int),
    ensures
        new == old + source,
{
    assert forall|j: int| 0 <= j < new.len() implies #[trigger] new[j] == (old + source)[j] by {
        if j < old.len() {
            assert(new.subrange(0, old.len() as int)[j] == new[j]);
        } else {
            assert(cloned(source[j - old.len()], new[old.len() + (j - old.len())]));
        }
    }
    assert(new =~= old + source);
}

/// Clones of bytes prepended to `old` are the bytes themselves
proof fn lemma_byte_clones_prepended(old: Seq<u8>, source: Seq<u8>, new: Seq<u8>)
    requires
        prepended_clones(old, source, new),
    ensures
        new == source + old,
{
    assert forall|i: int| 0 <= i < source.len() implies #[trigger] new[i] == source[i] by {
        assert(cloned(source[i], new[i]));
    }
    assert(new =~= source + old);
}

/// Bytes cloned over the start of `old` are the bytes themselves
proof fn lemma_byte_clones_written(source: Seq<u8>, old: Seq<u8>, new: Seq<u8>)
    requires
        new.len() == old.len(),
        source.len() > old.len() ==> new == old,
        source.len() <= old.len() ==> forall|i: int| 0 <= i < source.len() ==> cloned(source[i], #[trigger] new[i]),
        forall|i: int| source.len() <= i < old.len() ==> #[trigger] new[i] == old[i],
    ensures
        new == if source.len() > old.len() { old } else { source + old.subrange(source.len() as int, old.len() as int) },
{
    if source.len() <= old.len() {
        assert forall|j: int| 0 <= j < new.len() implies #[trigger] new[j] == (source + old.subrange(
            source.len() as int,
            old.len() as int,
        ))[j] by {
            if j < source.len() {
                assert(cloned(source[j], new[j]));
            }
        }
        assert(new =~= source + old.subrange(source.len() as int, old.len() as int));
    }
}

/// An `Array*` fn call on a byte array
pub trait ArrayFnCall: Sized {
    /// Whether the call may turn an array holding `before` into one holding `after`
    spec fn permits(&self, before: Seq<u8>, after: Seq<u8>) -> bool;

    /// Whether the call may be left as `next` after running on an array that held `before`
    spec fn settles(&self, before: Seq<u8>, next: Self) -> bool;

    /// Calls `self` on `array`
    fn call(&mut self, array: &mut Array<Vec<u8>>)
        ensures
            old(self).permits(old(array)@, final(array)@),
            old(self).settles(old(array)@, *final(self)),
    ;

    /// The call as a value of the closed set of calls
    fn into_call(self) -> (r: ArrayCall)
        ensures
            forall|before: Seq<u8>, after: Seq<u8>| #[trigger] r.permits(before, after) == self.permits(before, after),
    ;
}

/// Views the elements as a slice
pub struct ArgsAsSlice;

impl ArgsAsSlice {
    /// Whether the call may turn an array holding `before` into one holding `after`
    pub open spec fn allows(&self, before: Seq<u8>, after: Seq<u8>) -> bool {
        after == before
    }

    /// Whether the call may be left as `next` after running on an array that held `before`
    pub open spec fn keeps(&self, before: Seq<u8>, next: Self) -> bool {
        next == *self
    }
}

impl ArrayFnCall for ArgsAsSlice {
    open spec fn permits(&self, before: Seq<u8>, after: Seq<u8>) -> bool {
        self.allows(before, after)
    }

    open spec fn settles(&self, before: Seq<u8>, next: Self) -> bool {
        self.keeps(before, next)
    }

    fn call(&mut self, array: &mut Array<Vec<u8>>) {
        array.as_slice();
    }

    fn into_call(self) -> (r: ArrayCall) {
        ArrayCall::AsSlice(self)
    }
}

/// Reads the length
pub struct ArgsLen;

impl ArgsLen {
    /// Whether the call may turn an array holding `before` into one holding `after`
    pub open spec fn allows(&self, before: Seq<u8>, after: Seq<u8>) -> bool {
        after == before
    }

    /// Whether the call may be left as `next` after running on an array that held `before`
    pub open spec fn keeps(&self, before: Seq<u8>, next: Self) -> bool {
        next == *self
    }
}

impl ArrayFnCall for ArgsLen {
    open spec fn permits(&self, before: Seq<u8>, after: Seq<u8>) -> bool {
        self.allows(before, after)
    }

    open spec fn settles(&self, before: Seq<u8>, next: Self) -> bool {
        self.keeps(before, next)
    }

    fn call(&mut self, array: &mut Array<Vec<u8>>) {
        array.len();
    }

    fn into_call(self) -> (r: ArrayCall) {
        ArrayCall::Len(self)
    }
}

/// Checks for emptiness
pub struct ArgsIsEmpty;

impl ArgsIsEmpty {
    /// Whether the call may turn an array holding `before` into one holding `after`
    pub open spec fn allows(&self, before: Seq<u8>, after: Seq<u8>) -> bool {
        after == before
    }

    /// Whether the call may be left as `next` after running on an array that held `before`
    pub open spec fn keeps(&self, before: Seq<u8>, next: Self) -> bool {
        next == *self
    }
}

impl ArrayFnCall for ArgsIsEmpty {
    open spec fn permits(&self, before: Seq<u8>, after: Seq<u8>) -> bool {
        self.allows(before, after)
    }

    open spec fn settles(&self, before: Seq<u8>, next: Self) -> bool {
        self.keeps(before, next)
    }

    fn call(&mut self, array: &mut Array<Vec<u8>>) {
        array.is_empty();
    }

    fn into_call(self) -> (r: ArrayCall) {
        ArrayCall::IsEmpty(self)
    }
}

/// Reads one element
pub struct ArgsGet {
    /// The index to read
    pub index: usize,
}

impl ArgsGet {
    /// Whether the call may turn an array holding `before` into one holding `after`
    pub open spec fn allows(&self, before: Seq<u8>, after: Seq<u8>) -> bool {
        after == before
    }

    /// Whether the call may be left as `next` after running on an array that held `before`
    pub open spec fn keeps(&self, before: Seq<u8>, next: Self) -> bool {
        next == *self
    }
}

impl ArrayFnCall for ArgsGet {
    open spec fn permits(&self, before: Seq<u8>, after: Seq<u8>) -> bool {
        self.allows(before, after)
    }

    open spec fn settles(&self, before: Seq<u8>, next: Self) -> bool {
        self.keeps(before, next)
    }

    fn call(&mut self, array: &mut Array<Vec<u8>>) {
        array.get(self.index);
    }

    fn into_call(self) -> (r: ArrayCall) {
        ArrayCall::Get(self)
    }
}

/// Views a subrange
pub struct ArgsGetN {
    /// The start of the range
    pub start: usize,
    /// The end of the range
    pub end: usize,
}

impl ArgsGetN {
    /// Whether the call may turn an array holding `before` into one holding `after`
    pub open spec fn allows(&self, before: Seq<u8>, after: Seq<u8>) -> bool {
        after == before
    }

    /// Whether the call may be left as `next` after running on an array that held `before`
    pub open spec fn keeps(&self, before: Seq<u8>, next: Self) -> bool {
        next == *self
    }
}

impl ArrayFnCall for ArgsGetN {
    open spec fn permits(&self, before: Seq<u8>, after: Seq<u8>) -> bool {
        self.allows(before, after)
    }

    open spec fn settles(&self, before: Seq<u8>, next: Self) -> bool {
        self.keeps(before, next)
    }

    fn call(&mut self, array: &mut Array<Vec<u8>>) {
        array.get_n(self.start..self.end);
    }

    fn into_call(self) -> (r: ArrayCall) {
        ArrayCall::GetN(self)
    }
}

/// Reads the first element
pub struct ArgsFirst;

impl ArgsFirst {
    /// Whether the call may turn an array holding `before` into one holding `after`
    pub open spec fn allows(&self, before: Seq<u8>, after: Seq<u8>) -> bool {
        after == before
    }

    /// Whether the call may be left as `next` after running on an array that held `before`
    pub open spec fn keeps(&self, before: Seq<u8>, next: Self) -> bool {
        next == *self
    }
}

impl ArrayFnCall for ArgsFirst {
    open spec fn permits(&self, before: Seq<u8>, after: Seq<u8>) -> bool {
        self.allows(before, after)
    }

    open spec fn settles(&self, before: Seq<u8>, next: Self) -> bool {
        self.keeps(before, next)
    }

    fn call(&mut self, array: &mut Array<Vec<u8>>) {
        array.first();
    }

    fn into_call(self) -> (r: ArrayCall) {
        ArrayCall::First(self)
    }
}

/// Reads the last element
pub struct ArgsLast;

impl ArgsLast {
    /// Whether the call may turn an array holding `before` into one holding `after`
    pub open spec fn allows(&self, before: Seq<u8>, after: Seq<u8>) -> bool {
        after == before
    }

    /// Whether the call may be left as `next` after running on an array that held `before`
    pub open spec fn keeps(&self, before: Seq<u8>, next: Self) -> bool {
        next == *self
    }
}

impl ArrayFnCall for ArgsLast {
    open spec fn permits(&self, before: Seq<u8>, after: Seq<u8>) -> bool {
        self.allows(before, after)
    }

    open spec fn settles(&self, before: Seq<u8>, next: Self) -> bool {
        self.keeps(before, next)
    }

    fn call(&mut self, array: &mut Array<Vec<u8>>) {
        array.last();
    }

    fn into_call(self) -> (r: ArrayCall) {
        ArrayCall::Last(self)
    }
}

/// Creates an iterator over the elements
pub struct ArgsIter;

impl ArgsIter {
    /// Whether the call may turn an array holding `before` into one holding `after`
    pub open spec fn allows(&self, before: Seq<u8>, after: Seq<u8>) -> bool {
        after == before
    }

    /// Whether the call may be left as `next` after running on an array that held `before`
    pub open spec fn keeps(&self, before: Seq<u8>, next: Self) -> bool {
        next == *self
    }
}

impl ArrayFnCall for ArgsIter {
    open spec fn permits(&self, before: Seq<u8>, after: Seq<u8>) -> bool {
        self.allows(before, after)
    }

    open spec fn settles(&self, before: Seq<u8>, next: Self) -> bool {
        self.keeps(before, next)
    }

    fn call(&mut self, array: &mut Array<Vec<u8>>) {
        array.iter();
    }

    fn into_call(self) -> (r: ArrayCall) {
        ArrayCall::Iter(self)
    }
}

/// Clones the elements into `target`
pub struct ArgsCloneTo {
    /// The array cloned into
    pub target: Array<Vec<u8>>,
}

impl ArgsCloneTo {
    /// Whether the call may turn an array holding `before` into one holding `after`
    pub open spec fn allows(&self, before: Seq<u8>, after: Seq<u8>) -> bool {
        after == before
    }

    /// Whether the call may be left as `next` after running on an array that held `before`
    pub open spec fn keeps(&self, before: Seq<u8>, next: Self) -> bool {
        next.target@ == if before.len() > self.target@.len() {
            self.target@
        } else {
            before + self.target@.subrange(before.len() as int, self.target@.len() as int)
        }
    }
}

impl ArrayFnCall for ArgsCloneTo {
    open spec fn permits(&self, before: Seq<u8>, after: Seq<u8>) -> bool {
        self.allows(before, after)
    }

    open spec fn settles(&self, before: Seq<u8>, next: Self) -> bool {
        self.keeps(before, next)
    }

    fn call(&mut self, array: &mut Array<Vec<u8>>) {
        let ghost target = self.target@;
        let _ = array.clone_to(&mut self.target);
        proof {
            lemma_byte_clones_written(array@, target, self.target@);
        }
    }

    fn into_call(self) -> (r: ArrayCall) {
        ArrayCall::CloneTo(self)
    }
}

/// Views the elements as a mutable slice
pub struct ArgsAsSliceMut;

impl ArgsAsSliceMut {
    /// Whether the call may turn an array holding `before` into one holding `after`
    pub open spec fn allows(&self, before: Seq<u8>, after: Seq<u8>) -> bool {
        after == before
    }

    /// Whether the call may be left as `next` after running on an array that held `before`
    pub open spec fn keeps(&self, before: Seq<u8>, next: Self) -> bool {
        next == *self
    }
}

impl ArrayFnCall for ArgsAsSliceMut {
    open spec fn permits(&self, before: Seq<u8>, after: Seq<u8>) -> bool {
        self.allows(before, after)
    }

    open spec fn settles(&self, before: Seq<u8>, next: Self) -> bool {
        self.keeps(before, next)
    }

    fn call(&mut self, array: &mut Array<Vec<u8>>) {
        array.as_slice_mut();
    }

    fn into_call(self) -> (r: ArrayCall) {
        ArrayCall::AsSliceMut(self)
    }
}

/// Borrows one element mutably
pub struct ArgsGetMut {
    /// The index to borrow
    pub index: usize,
}

impl ArgsGetMut {
    /// Whether the call may turn an array holding `before` into one holding `after`
    pub open spec fn allows(&self, before: Seq<u8>, after: Seq<u8>) -> bool {
        after == before
    }

    /// Whether the call may be left as `next` after running on an array that held `before`
    pub open spec fn keeps(&self, before: Seq<u8>, next: Self) -> bool {
        next == *self
    }
}

impl ArrayFnCall for ArgsGetMut {
    open spec fn permits(&self, before: Seq<u8>, after: Seq<u8>) -> bool {
        self.allows(before, after)
    }

    open spec fn settles(&self, before: Seq<u8>, next: Self) -> bool {
        self.keeps(before, next)
    }

    fn call(&mut self, array: &mut Array<Vec<u8>>) {
        array.get_mut(self.index);
        assert(array@ =~= old(array)@);
    }

    fn into_call(self) -> (r: ArrayCall) {
        ArrayCall::GetMut(self)
    }
}

/// Borrows a subrange mutably
pub struct ArgsGetNMut {
    /// The start of the range
    pub start: usize,
    /// The end of the range
    pub end: usize,
}

impl ArgsGetNMut {
    /// Whether the call may turn an array holding `before` into one holding `after`
    pub open spec fn allows(&self, before: Seq<u8>, after: Seq<u8>) -> bool {
        after == before
    }

    /// Whether the call may be left as `next` after running on an array that held `before`
    pub open spec fn keeps(&self, before: Seq<u8>, next: Self) -> bool {
        next == *self
    }
}

impl ArrayFnCall for ArgsGetNMut {
    open spec fn permits(&self, before: Seq<u8>, after: Seq<u8>) -> bool {
        self.allows(before, after)
    }

    open spec fn settles(&self, before: Seq<u8>, next: Self) -> bool {
        self.keeps(before, next)
    }

    fn call(&mut self, array: &mut Array<Vec<u8>>) {
        if let Some(view) = array.get_n_mut(self.start..self.end) {
            let _ = view.into_inner();
        }
        assert(array@ =~= old(array)@);
    }

    fn into_call(self) -> (r: ArrayCall) {
        ArrayCall::GetNMut(self)
    }
}

/// Borrows the first element mutably
pub struct ArgsFirstMut;

impl ArgsFirstMut {
    /// Whether the call may turn an array holding `before` into one holding `after`
    pub open spec fn allows(&self, before: Seq<u8>, after: Seq<u8>) -> bool {
        after == before
    }

    /// Whether the call may be left as `next` after running on an array that held `before`
    pub open spec fn keeps(&self, before: Seq<u8>, next: Self) -> bool {
        next == *self
    }
}

impl ArrayFnCall for ArgsFirstMut {
    open spec fn permits(&self, before: Seq<u8>, after: Seq<u8>) -> bool {
        self.allows(before, after)
    }

    open spec fn settles(&self, before: Seq<u8>, next: Self) -> bool {
        self.keeps(before, next)
    }

    fn call(&mut self, array: &mut Array<Vec<u8>>) {
        array.first_mut();
        assert(array@ =~= old(array)@);
    }

    fn into_call(self) -> (r: ArrayCall) {
        ArrayCall::FirstMut(self)
    }
}

/// Borrows the last element mutably
pub struct ArgsLastMut;

impl ArgsLastMut {
    /// Whether the call may turn an array holding `before` into one holding `after`
    pub open spec fn allows(&self, before: Seq<u8>, after: Seq<u8>) -> bool {
        after == before
    }

    /// Whether the call may be left as `next` after running on an array that held `before`
    pub open spec fn keeps(&self, before: Seq<u8>, next: Self) -> bool {
        next == *self
    }
}

impl ArrayFnCall for ArgsLastMut {
    open spec fn permits(&self, before: Seq<u8>, after: Seq<u8>) -> bool {
        self.allows(before, after)
    }

    open spec fn settles(&self, before: Seq<u8>, next: Self) -> bool {
        self.keeps(before, next)
    }

    fn call(&mut self, array: &mut Array<Vec<u8>>) {
        array.last_mut();
        assert(array@ =~= old(array)@);
    }

    fn into_call(self) -> (r: ArrayCall) {
        ArrayCall::LastMut(self)
    }
}

/// Creates an iterator over mutable references to the elements
pub struct ArgsIterMut;

impl ArgsIterMut {
    /// Whether the call may turn an array holding `before` into one holding `after`
    pub open spec fn allows(&self, before: Seq<u8>, after: Seq<u8>) -> bool {
        after.len() == before.len()
    }

    /// Whether the call may be left as `next` after running on an array that held `before`
    pub open spec fn keeps(&self, before: Seq<u8>, next: Self) -> bool {
        next == *self
    }
}

impl ArrayFnCall for ArgsIterMut {
    open spec fn permits(&self, before: Seq<u8>, after: Seq<u8>) -> bool {
        self.allows(before, after)
    }

    open spec fn settles(&self, before: Seq<u8>, next: Self) -> bool {
        self.keeps(before, next)
    }

    fn call(&mut self, array: &mut Array<Vec<u8>>) {
        array.iter_mut();
    }

    fn into_call(self) -> (r: ArrayCall) {
        ArrayCall::IterMut(self)
    }
}

/// Rotates the elements left
pub struct ArgsRotateLeft {
    /// The number of places to rotate by
    pub steps: usize,
}

impl ArgsRotateLeft {
    /// Whether the call may turn an array holding `before` into one holding `after`
    pub open spec fn allows(&self, before: Seq<u8>, after: Seq<u8>) -> bool {
        after == rotate_left_mod(before, self.steps as int)
    }

    /// Whether the call may be left as `next` after running on an array that held `before`
    pub open spec fn keeps(&self, before: Seq<u8>, next: Self) -> bool {
        next == *self
    }
}

impl ArrayFnCall for ArgsRotateLeft {
    open spec fn permits(&self, before: Seq<u8>, after: Seq<u8>) -> bool {
        self.allows(before, after)
    }

    open spec fn settles(&self, before: Seq<u8>, next: Self) -> bool {
        self.keeps(before, next)
    }

    fn call(&mut self, array: &mut Array<Vec<u8>>) {
        array.rotate_left(self.steps);
    }

    fn into_call(self) -> (r: ArrayCall) {
        ArrayCall::RotateLeft(self)
    }
}

/// Rotates the elements right
pub struct ArgsRotateRight {
    /// The number of places to rotate by
    pub steps: usize,
}

impl ArgsRotateRight {
    /// Whether the call may turn an array holding `before` into one holding `after`
    pub open spec fn allows(&self, before: Seq<u8>, after: Seq<u8>) -> bool {
        after == rotate_right_mod(before, self.steps as int)
    }

    /// Whether the call may be left as `next` after running on an array that held `before`
    pub open spec fn keeps(&self, before: Seq<u8>, next: Self) -> bool {
        next == *self
    }
}

impl ArrayFnCall for ArgsRotateRight {
    open spec fn permits(&self, before: Seq<u8>, after: Seq<u8>) -> bool {
        self.allows(before, after)
    }

    open spec fn settles(&self, before: Seq<u8>, next: Self) -> bool {
        self.keeps(before, next)
    }

    fn call(&mut self, array: &mut Array<Vec<u8>>) {
        array.rotate_right(self.steps);
    }

    fn into_call(self) -> (r: ArrayCall) {
        ArrayCall::RotateRight(self)
    }
}

/// Reverses the elements
pub struct ArgsReverse;

impl ArgsReverse {
    /// Whether the call may turn an array holding `before` into one holding `after`
    pub open spec fn allows(&self, before: Seq<u8>, after: Seq<u8>) -> bool {
        after == before.reverse()
    }

    /// Whether the call may be left as `next` after running on an array that held `before`
    pub open spec fn keeps(&self, before: Seq<u8>, next: Self) -> bool {
        next == *self
    }
}

impl ArrayFnCall for ArgsReverse {
    open spec fn permits(&self, before: Seq<u8>, after: Seq<u8>) -> bool {
        self.allows(before, after)
    }

    open spec fn settles(&self, before: Seq<u8>, next: Self) -> bool {
        self.keeps(before, next)
    }

    fn call(&mut self, array: &mut Array<Vec<u8>>) {
        array.reverse();
    }

    fn into_call(self) -> (r: ArrayCall) {
        ArrayCall::Reverse(self)
    }
}

/// Replaces the array with a newly allocated one
pub struct ArgsAllocNew;

impl ArgsAllocNew {
    /// Whether the call may turn an array holding `before` into one holding `after`
    pub open spec fn allows(&self, before: Seq<u8>, after: Seq<u8>) -> bool {
        after == Seq::<u8>::empty()
    }

    /// Whether the call may be left as `next` after running on an array that held `before`
    pub open spec fn keeps(&self, before: Seq<u8>, next: Self) -> bool {
        next == *self
    }
}

impl ArrayFnCall for ArgsAllocNew {
    open spec fn permits(&self, before: Seq<u8>, after: Seq<u8>) -> bool {
        self.allows(before, after)
    }

    open spec fn settles(&self, before: Seq<u8>, next: Self) -> bool {
        self.keeps(before, next)
    }

    fn call(&mut self, array: &mut Array<Vec<u8>>) {
        if let Ok(new) = <Array<Vec<u8>> as ArrayAlloc<u8>>::alloc_new() {
            *array = new;
        }
    }

    fn into_call(self) -> (r: ArrayCall) {
        ArrayCall::AllocNew(self)
    }
}

/// Replaces the array with a clone of `source`
pub struct ArgsClone {
    /// The array to clone
    pub source: Array<Vec<u8>>,
}

impl ArgsClone {
    /// Whether the call may turn an array holding `before` into one holding `after`
    pub open spec fn allows(&self, before: Seq<u8>, after: Seq<u8>) -> bool {
        after == self.source@
    }

    /// Whether the call may be left as `next` after running on an array that held `before`
    pub open spec fn keeps(&self, before: Seq<u8>, next: Self) -> bool {
        next == *self
    }
}

impl ArrayFnCall for ArgsClone {
    open spec fn permits(&self, before: Seq<u8>, after: Seq<u8>) -> bool {
        self.allows(before, after)
    }

    open spec fn settles(&self, before: Seq<u8>, next: Self) -> bool {
        self.keeps(before, next)
    }

    fn call(&mut self, array: &mut Array<Vec<u8>>) {
        if let Ok(new) = <Array<Vec<u8>> as ArrayAlloc<u8>>::alloc_clone(&self.source) {
            proof {
                lemma_byte_clones_appended(Seq::<u8>::empty(), self.source@, new@);
                assert(Seq::<u8>::empty() + self.source@ =~= self.source@);
            }
            *array = new;
        }
    }

    fn into_call(self) -> (r: ArrayCall) {
        ArrayCall::Clone(self)
    }
}

/// Grows the array with copies of `init`
pub struct ArgsGrowWith {
    /// The length to grow to
    pub len: usize,
    /// The value of the new elements
    pub init: u8,
}

impl ArgsGrowWith {
    /// Whether the call may turn an array holding `before` into one holding `after`
    pub open spec fn allows(&self, before: Seq<u8>, after: Seq<u8>) -> bool {
        after == before + Seq::new(missing(before, self.len), |_i: int| self.init)
    }

    /// Whether the call may be left as `next` after running on an array that held `before`
    pub open spec fn keeps(&self, before: Seq<u8>, next: Self) -> bool {
        next == *self
    }
}

impl ArrayFnCall for ArgsGrowWith {
    open spec fn permits(&self, before: Seq<u8>, after: Seq<u8>) -> bool {
        self.allows(before, after)
    }

    open spec fn settles(&self, before: Seq<u8>, next: Self) -> bool {
        self.keeps(before, next)
    }

    fn call(&mut self, array: &mut Array<Vec<u8>>) {
        let init = self.init;
        let _ = array.grow_with(self.len, || -> (r: u8)
            ensures
                r == init,
            { init });
        assert(array@ =~= old(array)@ + Seq::new(missing(old(array)@, self.len), |_i: int| self.init));
    }

    fn into_call(self) -> (r: ArrayCall) {
        ArrayCall::GrowWith(self)
    }
}

/// Grows the array with default elements
pub struct ArgsGrow {
    /// The length to grow to
    pub len: usize,
}

impl ArgsGrow {
    /// Whether the call may turn an array holding `before` into one holding `after`
    pub open spec fn allows(&self, before: Seq<u8>, after: Seq<u8>) -> bool {
        after == before + Seq::new(missing(before, self.len), |_i: int| 0u8)
    }

    /// Whether the call may be left as `next` after running on an array that held `before`
    pub open spec fn keeps(&self, before: Seq<u8>, next: Self) -> bool {
        next == *self
    }
}

impl ArrayFnCall for ArgsGrow {
    open spec fn permits(&self, before: Seq<u8>, after: Seq<u8>) -> bool {
        self.allows(before, after)
    }

    open spec fn settles(&self, before: Seq<u8>, next: Self) -> bool {
        self.keeps(before, next)
    }

    fn call(&mut self, array: &mut Array<Vec<u8>>) {
        let _ = array.grow(self.len);
        assert(array@ =~= old(array)@ + Seq::new(missing(old(array)@, self.len), |_i: int| 0u8));
    }

    fn into_call(self) -> (r: ArrayCall) {
        ArrayCall::Grow(self)
    }
}

/// Shrinks the array
pub struct ArgsShrink {
    /// The length to shrink to
    pub len: usize,
}

impl ArgsShrink {
    /// Whether the call may turn an array holding `before` into one holding `after`
    pub open spec fn allows(&self, before: Seq<u8>, after: Seq<u8>) -> bool {
        after == before.subrange(0, if self.len <= before.len() { self.len as int } else { before.len() as int })
    }

    /// Whether the call may be left as `next` after running on an array that held `before`
    pub open spec fn keeps(&self, before: Seq<u8>, next: Self) -> bool {
        next == *self
    }
}

impl ArrayFnCall for ArgsShrink {
    open spec fn permits(&self, before: Seq<u8>, after: Seq<u8>) -> bool {
        self.allows(before, after)
    }

    open spec fn settles(&self, before: Seq<u8>, next: Self) -> bool {
        self.keeps(before, next)
    }

    fn call(&mut self, array: &mut Array<Vec<u8>>) {
        let _ = array.shrink(self.len);
    }

    fn into_call(self) -> (r: ArrayCall) {
        ArrayCall::Shrink(self)
    }
}

/// Pushes an element to the front
pub struct ArgsPushFront {
    /// The element to push
    pub element: u8,
}

impl ArgsPushFront {
    /// Whether the call may turn an array holding `before` into one holding `after`
    pub open spec fn allows(&self, before: Seq<u8>, after: Seq<u8>) -> bool {
        after == seq![self.element] + before
    }

    /// Whether the call may be left as `next` after running on an array that held `before`
    pub open spec fn keeps(&self, before: Seq<u8>, next: Self) -> bool {
        next == *self
    }
}

impl ArrayFnCall for ArgsPushFront {
    open spec fn permits(&self, before: Seq<u8>, after: Seq<u8>) -> bool {
        self.allows(before, after)
    }

    open spec fn settles(&self, before: Seq<u8>, next: Self) -> bool {
        self.keeps(before, next)
    }

    fn call(&mut self, array: &mut Array<Vec<u8>>) {
        let _ = array.push_front(self.element);
    }

    fn into_call(self) -> (r: ArrayCall) {
        ArrayCall::PushFront(self)
    }
}

/// Pushes the elements of `source` to the front
pub struct ArgsPushNFront {
    /// The elements to push
    pub source: Array<Vec<u8>>,
}

impl ArgsPushNFront {
    /// Whether the call may turn an array holding `before` into one holding `after`
    pub open spec fn allows(&self, before: Seq<u8>, after: Seq<u8>) -> bool {
        after == self.source@ + before
    }

    /// Whether the call may be left as `next` after running on an array that held `before`
    pub open spec fn keeps(&self, before: Seq<u8>, next: Self) -> bool {
        next == *self
    }
}

impl ArrayFnCall for ArgsPushNFront {
    open spec fn permits(&self, before: Seq<u8>, after: Seq<u8>) -> bool {
        self.allows(before, after)
    }

    open spec fn settles(&self, before: Seq<u8>, next: Self) -> bool {
        self.keeps(before, next)
    }

    fn call(&mut self, array: &mut Array<Vec<u8>>) {
        let _ = array.push_n_front(&self.source);
        proof {
            lemma_byte_clones_prepended(old(array)@, self.source@, array@);
        }
    }

    fn into_call(self) -> (r: ArrayCall) {
        ArrayCall::PushNFront(self)
    }
}

/// Pushes an element to the back
pub struct ArgsPushBack {
    /// The element to push
    pub element: u8,
}

impl ArgsPushBack {
    /// Whether the call may turn an array holding `before` into one holding `after`
    pub open spec fn allows(&self, before: Seq<u8>, after: Seq<u8>) -> bool {
        after == before.push(self.element)
    }

    /// Whether the call may be left as `next` after running on an array that held `before`
    pub open spec fn keeps(&self, before: Seq<u8>, next: Self) -> bool {
        next == *self
    }
}

impl ArrayFnCall for ArgsPushBack {
    open spec fn permits(&self, before: Seq<u8>, after: Seq<u8>) -> bool {
        self.allows(before, after)
    }

    open spec fn settles(&self, before: Seq<u8>, next: Self) -> bool {
        self.keeps(before, next)
    }

    fn call(&mut self, array: &mut Array<Vec<u8>>) {
        let _ = array.push_back(self.element);
    }

    fn into_call(self) -> (r: ArrayCall) {
        ArrayCall::PushBack(self)
    }
}

/// Pushes the elements of `source` to the back
pub struct ArgsPushNBack {
    /// The elements to push
    pub source: Array<Vec<u8>>,
}

impl ArgsPushNBack {
    /// Whether the call may turn an array holding `before` into one holding `after`
    pub open spec fn allows(&self, before: Seq<u8>, after: Seq<u8>) -> bool {
        after == before + self.source@
    }

    /// Whether the call may be left as `next` after running on an array that held `before`
    pub open spec fn keeps(&self, before: Seq<u8>, next: Self) -> bool {
        next == *self
    }
}

impl ArrayFnCall for ArgsPushNBack {
    open spec fn permits(&self, before: Seq<u8>, after: Seq<u8>) -> bool {
        self.allows(before, after)
    }

    open spec fn settles(&self, before: Seq<u8>, next: Self) -> bool {
        self.keeps(before, next)
    }

    fn call(&mut self, array: &mut Array<Vec<u8>>) {
        let _ = array.push_n_back(&self.source);
        proof {
            lemma_byte_clones_appended(old(array)@, self.source@, array@);
        }
    }

    fn into_call(self) -> (r: ArrayCall) {
        ArrayCall::PushNBack(self)
    }
}

/// Pops an element from the front
pub struct ArgsPopFront;

impl ArgsPopFront {
    /// Whether the call may turn an array holding `before` into one holding `after`
    pub open spec fn allows(&self, before: Seq<u8>, after: Seq<u8>) -> bool {
        after == if before.len() == 0 { before } else { before.drop_first() }
    }

    /// Whether the call may be left as `next` after running on an array that held `before`
    pub open spec fn keeps(&self, before: Seq<u8>, next: Self) -> bool {
        next == *self
    }
}

impl ArrayFnCall for ArgsPopFront {
    open spec fn permits(&self, before: Seq<u8>, after: Seq<u8>) -> bool {
        self.allows(before, after)
    }

    open spec fn settles(&self, before: Seq<u8>, next: Self) -> bool {
        self.keeps(before, next)
    }

    fn call(&mut self, array: &mut Array<Vec<u8>>) {
        let _ = array.pop_front();
    }

    fn into_call(self) -> (r: ArrayCall) {
        ArrayCall::PopFront(self)
    }
}

/// Pops elements from the front
pub struct ArgsPopNFront {
    /// The number of elements to pop
    pub len: usize,
}

impl ArgsPopNFront {
    /// Whether the call may turn an array holding `before` into one holding `after`
    pub open spec fn allows(&self, before: Seq<u8>, after: Seq<u8>) -> bool {
        after == if before.len() < self.len { rotate_left_mod(before, self.len as int) } else { before.subrange(self.len as int, before.len() as int) }
    }

    /// Whether the call may be left as `next` after running on an array that held `before`
    pub open spec fn keeps(&self, before: Seq<u8>, next: Self) -> bool {
        next == *self
    }
}

impl ArrayFnCall for ArgsPopNFront {
    open spec fn permits(&self, before: Seq<u8>, after: Seq<u8>) -> bool {
        self.allows(before, after)
    }

    open spec fn settles(&self, before: Seq<u8>, next: Self) -> bool {
        self.keeps(before, next)
    }

    fn call(&mut self, array: &mut Array<Vec<u8>>) {
        let _ = array.pop_n_front(self.len);
    }

    fn into_call(self) -> (r: ArrayCall) {
        ArrayCall::PopNFront(self)
    }
}

/// Pops an element from the back
pub struct ArgsPopBack;

impl ArgsPopBack {
    /// Whether the call may turn an array holding `before` into one holding `after`
    pub open spec fn allows(&self, before: Seq<u8>, after: Seq<u8>) -> bool {
        after == if before.len() == 0 { before } else { before.drop_last() }
    }

    /// Whether the call may be left as `next` after running on an array that held `before`
    pub open spec fn keeps(&self, before: Seq<u8>, next: Self) -> bool {
        next == *self
    }
}

impl ArrayFnCall for ArgsPopBack {
    open spec fn permits(&self, before: Seq<u8>, after: Seq<u8>) -> bool {
        self.allows(before, after)
    }

    open spec fn settles(&self, before: Seq<u8>, next: Self) -> bool {
        self.keeps(before, next)
    }

    fn call(&mut self, array: &mut Array<Vec<u8>>) {
        let _ = array.pop_back();
    }

    fn into_call(self) -> (r: ArrayCall) {
        ArrayCall::PopBack(self)
    }
}

/// Pops elements from the back
pub struct ArgsPopNBack {
    /// The number of elements to pop
    pub len: usize,
}

impl ArgsPopNBack {
    /// Whether the call may turn an array holding `before` into one holding `after`
    pub open spec fn allows(&self, before: Seq<u8>, after: Seq<u8>) -> bool {
        after == if before.len() < self.len { before } else { before.subrange(0, before.len() - self.len) }
    }

    /// Whether the call may be left as `next` after running on an array that held `before`
    pub open spec fn keeps(&self, before: Seq<u8>, next: Self) -> bool {
        next == *self
    }
}

impl ArrayFnCall for ArgsPopNBack {
    open spec fn permits(&self, before: Seq<u8>, after: Seq<u8>) -> bool {
        self.allows(before, after)
    }

    open spec fn settles(&self, before: Seq<u8>, next: Self) -> bool {
        self.keeps(before, next)
    }

    fn call(&mut self, array: &mut Array<Vec<u8>>) {
        let _ = array.pop_n_back(self.len);
    }

    fn into_call(self) -> (r: ArrayCall) {
        ArrayCall::PopNBack(self)
    }
}

/// Every `Array*` fn call, each with its arguments
pub enum ArrayCall {
    AsSlice(ArgsAsSlice),
    Len(ArgsLen),
    IsEmpty(ArgsIsEmpty),
    Get(ArgsGet),
    GetN(ArgsGetN),
    First(ArgsFirst),
    Last(ArgsLast),
    Iter(ArgsIter),
    CloneTo(ArgsCloneTo),
    AsSliceMut(ArgsAsSliceMut),
    GetMut(ArgsGetMut),
    GetNMut(ArgsGetNMut),
    FirstMut(ArgsFirstMut),
    LastMut(ArgsLastMut),
    IterMut(ArgsIterMut),
    RotateLeft(ArgsRotateLeft),
    RotateRight(ArgsRotateRight),
    Reverse(ArgsReverse),
    AllocNew(ArgsAllocNew),
    Clone(ArgsClone),
    GrowWith(ArgsGrowWith),
    Grow(ArgsGrow),
    Shrink(ArgsShrink),
    PushFront(ArgsPushFront),
    PushNFront(ArgsPushNFront),
    PushBack(ArgsPushBack),
    PushNBack(ArgsPushNBack),
    PopFront(ArgsPopFront),
    PopNFront(ArgsPopNFront),
    PopBack(ArgsPopBack),
    PopNBack(ArgsPopNBack),
}

impl ArrayCall {
    /// Whether the call may turn an array holding `before` into one holding `after`
    pub open spec fn permits(&self, before: Seq<u8>, after: Seq<u8>) -> bool {
        match self {
            ArrayCall::AsSlice(c) => c.allows(before, after),
            ArrayCall::Len(c) => c.allows(before, after),
            ArrayCall::IsEmpty(c) => c.allows(before, after),
            ArrayCall::Get(c) => c.allows(before, after),
            ArrayCall::GetN(c) => c.allows(before, after),
            ArrayCall::First(c) => c.allows(before, after),
            ArrayCall::Last(c) => c.allows(before, after),
            ArrayCall::Iter(c) => c.allows(before, after),
            ArrayCall::CloneTo(c) => c.allows(before, after),
            ArrayCall::AsSliceMut(c) => c.allows(before, after),
            ArrayCall::GetMut(c) => c.allows(before, after),
            ArrayCall::GetNMut(c) => c.allows(before, after),
            ArrayCall::FirstMut(c) => c.allows(before, after),
            ArrayCall::LastMut(c) => c.allows(before, after),
            ArrayCall::IterMut(c) => c.allows(before, after),
            ArrayCall::RotateLeft(c) => c.allows(before, after),
            ArrayCall::RotateRight(c) => c.allows(before, after),
            ArrayCall::Reverse(c) => c.allows(before, after),
            ArrayCall::AllocNew(c) => c.allows(before, after),
            ArrayCall::Clone(c) => c.allows(before, after),
            ArrayCall::GrowWith(c) => c.allows(before, after),
            ArrayCall::Grow(c) => c.allows(before, after),
            ArrayCall::Shrink(c) => c.allows(before, after),
            ArrayCall::PushFront(c) => c.allows(before, after),
            ArrayCall::PushNFront(c) => c.allows(before, after),
            ArrayCall::PushBack(c) => c.allows(before, after),
            ArrayCall::PushNBack(c) => c.allows(before, after),
            ArrayCall::PopFront(c) => c.allows(before, after),
            ArrayCall::PopNFront(c) => c.allows(before, after),
            ArrayCall::PopBack(c) => c.allows(before, after),
            ArrayCall::PopNBack(c) => c.allows(before, after),
        }
    }

    /// Whether the call may be left as `next` after running on an array that held `before`
    pub open spec fn settles(&self, before: Seq<u8>, next: ArrayCall) -> bool {
        match self {
            ArrayCall::AsSlice(c) => match next {
                ArrayCall::AsSlice(m) => c.keeps(before, m),
                _ => false,
            },
            ArrayCall::Len(c) => match next {
                ArrayCall::Len(m) => c.keeps(before, m),
                _ => false,
            },
            ArrayCall::IsEmpty(c) => match next {
                ArrayCall::IsEmpty(m) => c.keeps(before, m),
                _ => false,
            },
            ArrayCall::Get(c) => match next {
                ArrayCall::Get(m) => c.keeps(before, m),
                _ => false,
            },
            ArrayCall::GetN(c) => match next {
                ArrayCall::GetN(m) => c.keeps(before, m),
                _ => false,
            },
            ArrayCall::First(c) => match next {
                ArrayCall::First(m) => c.keeps(before, m),
                _ => false,
            },
            ArrayCall::Last(c) => match next {
                ArrayCall::Last(m) => c.keeps(before, m),
                _ => false,
            },
            ArrayCall::Iter(c) => match next {
                ArrayCall::Iter(m) => c.keeps(before, m),
                _ => false,
            },
            ArrayCall::CloneTo(c) => match next {
                ArrayCall::CloneTo(m) => c.keeps(before, m),
                _ => false,
            },
            ArrayCall::AsSliceMut(c) => match next {
                ArrayCall::AsSliceMut(m) => c.keeps(before, m),
                _ => false,
            },
            ArrayCall::GetMut(c) => match next {
                ArrayCall::GetMut(m) => c.keeps(before, m),
                _ => false,
            },
            ArrayCall::GetNMut(c) => match next {
                ArrayCall::GetNMut(m) => c.keeps(before, m),
                _ => false,
            },
            ArrayCall::FirstMut(c) => match next {
                ArrayCall::FirstMut(m) => c.keeps(before, m),
                _ => false,
            },
            ArrayCall::LastMut(c) => match next {
                ArrayCall::LastMut(m) => c.keeps(before, m),
                _ => false,
            },
            ArrayCall::IterMut(c) => match next {
                ArrayCall::IterMut(m) => c.keeps(before, m),
                _ => false,
            },
            ArrayCall::RotateLeft(c) => match next {
                ArrayCall::RotateLeft(m) => c.keeps(before, m),
                _ => false,
            },
            ArrayCall::RotateRight(c) => match next {
                ArrayCall::RotateRight(m) => c.keeps(before, m),
                _ => false,
            },
            ArrayCall::Reverse(c) => match next {
                ArrayCall::Reverse(m) => c.keeps(before, m),
                _ => false,
            },
            ArrayCall::AllocNew(c) => match next {
                ArrayCall::AllocNew(m) => c.keeps(before, m),
                _ => false,
            },
            ArrayCall::Clone(c) => match next {
                ArrayCall::Clone(m) => c.keeps(before, m),
                _ => false,
            },
            ArrayCall::GrowWith(c) => match next {
                ArrayCall::GrowWith(m) => c.keeps(before, m),
                _ => false,
            },
            ArrayCall::Grow(c) => match next {
                ArrayCall::Grow(m) => c.keeps(before, m),
                _ => false,
            },
            ArrayCall::Shrink(c) => match next {
                ArrayCall::Shrink(m) => c.keeps(before, m),
                _ => false,
            },
            ArrayCall::PushFront(c) => match next {
                ArrayCall::PushFront(m) => c.keeps(before, m),
                _ => false,
            },
            ArrayCall::PushNFront(c) => match next {
                ArrayCall::PushNFront(m) => c.keeps(before, m),
                _ => false,
            },
            ArrayCall::PushBack(c) => match next {
                ArrayCall::PushBack(m) => c.keeps(before, m),
                _ => false,
            },
            ArrayCall::PushNBack(c) => match next {
                ArrayCall::PushNBack(m) => c.keeps(before, m),
                _ => false,
            },
            ArrayCall::PopFront(c) => match next {
                ArrayCall::PopFront(m) => c.keeps(before, m),
                _ => false,
            },
            ArrayCall::PopNFront(c) => match next {
                ArrayCall::PopNFront(m) => c.keeps(before, m),
                _ => false,
            },
            ArrayCall::PopBack(c) => match next {
                ArrayCall::PopBack(m) => c.keeps(before, m),
                _ => false,
            },
            ArrayCall::PopNBack(c) => match next {
                ArrayCall::PopNBack(m) => c.keeps(before, m),
                _ => false,
            },
        }
    }

    /// Calls `self` on `array`
    pub fn call(&mut self, array: &mut Array<Vec<u8>>)
        ensures
            old(self).permits(old(array)@, final(array)@),
            old(self).settles(old(array)@, *final(self)),
    {
        match self {
            ArrayCall::AsSlice(c) => c.call(array),
            ArrayCall::Len(c) => c.call(array),
            ArrayCall::IsEmpty(c) => c.call(array),
            ArrayCall::Get(c) => c.call(array),
            ArrayCall::GetN(c) => c.call(array),
            ArrayCall::First(c) => c.call(array),
            ArrayCall::Last(c) => c.call(array),
            ArrayCall::Iter(c) => c.call(array),
            ArrayCall::CloneTo(c) => c.call(array),
            ArrayCall::AsSliceMut(c) => c.call(array),
            ArrayCall::GetMut(c) => c.call(array),
            ArrayCall::GetNMut(c) => c.call(array),
            ArrayCall::FirstMut(c) => c.call(array),
            ArrayCall::LastMut(c) => c.call(array),
            ArrayCall::IterMut(c) => c.call(array),
            ArrayCall::RotateLeft(c) => c.call(array),
            ArrayCall::RotateRight(c) => c.call(array),
            ArrayCall::Reverse(c) => c.call(array),
            ArrayCall::AllocNew(c) => c.call(array),
            ArrayCall::Clone(c) => c.call(array),
            ArrayCall::GrowWith(c) => c.call(array),
            ArrayCall::Grow(c) => c.call(array),
            ArrayCall::Shrink(c) => c.call(array),
            ArrayCall::PushFront(c) => c.call(array),
            ArrayCall::PushNFront(c) => c.call(array),
            ArrayCall::PushBack(c) => c.call(array),
            ArrayCall::PushNBack(c) => c.call(array),
            ArrayCall::PopFront(c) => c.call(array),
            ArrayCall::PopNFront(c) => c.call(array),
            ArrayCall::PopBack(c) => c.call(array),
            ArrayCall::PopNBack(c) => c.call(array),
        }
    }
}

/// A type erased `Array*` fn call
pub struct AnyArrayFnCall {
    /// The call itself
    call: ArrayCall,
}

impl AnyArrayFnCall {
    /// The wrapped call
    pub closed spec fn erased(&self) -> ArrayCall {
        self.call
    }

    /// Creates a new type erased array fn call
    pub fn new<T: ArrayFnCall>(call: T) -> (r: Self)
        ensures
            forall|before: Seq<u8>, after: Seq<u8>|
                #[trigger] r.erased().permits(before, after) == call.permits(before, after),
    {
        Self { call: call.into_call() }
    }

    /// Applies the call to `array`; the call itself is left as it settles
    pub fn call(&mut self, array: &mut Array<Vec<u8>>)
        ensures
            old(self).erased().permits(old(array)@, final(array)@),
            old(self).erased().settles(old(array)@, final(self).erased()),
    {
        self.call.call(array)
    }
}

/// All possible array fn calls
pub struct ArrayFnCalls {
    /// All calls
    pub calls: Vec<AnyArrayFnCall>,
}

impl ArgsCloneTo {
    /// Decodes the arguments from `u`
    pub fn arbitrary(u: &mut Unstructured<'_>) -> (r: Result<Self, DecodeError>)
    ensures
        r is Ok,
    {
        Ok(Self { target: Array::new(arbitrary_bytes(u)?) })
    }
}

impl ArgsClone {
    /// Decodes the arguments from `u`
    pub fn arbitrary(u: &mut Unstructured<'_>) -> (r: Result<Self, DecodeError>)
    ensures
        r is Ok,
    {
        Ok(Self { source: Array::new(arbitrary_bytes(u)?) })
    }
}

impl ArgsGrowWith {
    /// Decodes the arguments from `u`, with the length capped to `alloc_max`
    pub fn arbitrary(u: &mut Unstructured<'_>, alloc_max: usize) -> (r: Result<Self, DecodeError>)
    ensures
        r is Ok,
        r->Ok_0.len <= alloc_max,
    {
        Ok(Self { len: cap(arbitrary_usize(u)?, alloc_max), init: arbitrary_u8(u)? })
    }
}

impl ArgsGrow {
    /// Decodes the arguments from `u`, with the length capped to `alloc_max`
    pub fn arbitrary(u: &mut Unstructured<'_>, alloc_max: usize) -> (r: Result<Self, DecodeError>)
    ensures
        r is Ok,
        r->Ok_0.len <= alloc_max,
    {
        Ok(Self { len: cap(arbitrary_usize(u)?, alloc_max) })
    }
}

impl ArgsPushNFront {
    /// Decodes the arguments from `u`
    pub fn arbitrary(u: &mut Unstructured<'_>) -> (r: Result<Self, DecodeError>)
    ensures
        r is Ok,
    {
        Ok(Self { source: Array::new(arbitrary_bytes(u)?) })
    }
}

impl ArgsPushNBack {
    /// Decodes the arguments from `u`
    pub fn arbitrary(u: &mut Unstructured<'_>) -> (r: Result<Self, DecodeError>)
    ensures
        r is Ok,
    {
        Ok(Self { source: Array::new(arbitrary_bytes(u)?) })
    }
}

/// The position of `call` in the list of all calls
pub open spec fn position(call: ArrayCall) -> int {
    match call {
        ArrayCall::AsSlice(_) => 0,
        ArrayCall::Len(_) => 1,
        ArrayCall::IsEmpty(_) => 2,
        ArrayCall::Get(_) => 3,
        ArrayCall::GetN(_) => 4,
        ArrayCall::First(_) => 5,
        ArrayCall::Last(_) => 6,
        ArrayCall::Iter(_) => 7,
        ArrayCall::CloneTo(_) => 8,
        ArrayCall::AsSliceMut(_) => 9,
        ArrayCall::GetMut(_) => 10,
        ArrayCall::GetNMut(_) => 11,
        ArrayCall::FirstMut(_) => 12,
        ArrayCall::LastMut(_) => 13,
        ArrayCall::IterMut(_) => 14,
        ArrayCall::RotateLeft(_) => 15,
        ArrayCall::RotateRight(_) => 16,
        ArrayCall::Reverse(_) => 17,
        ArrayCall::AllocNew(_) => 18,
        ArrayCall::Clone(_) => 19,
        ArrayCall::GrowWith(_) => 20,
        ArrayCall::Grow(_) => 21,
        ArrayCall::Shrink(_) => 22,
        ArrayCall::PushFront(_) => 23,
        ArrayCall::PushNFront(_) => 24,
        ArrayCall::PushBack(_) => 25,
        ArrayCall::PushNBack(_) => 26,
        ArrayCall::PopFront(_) => 27,
        ArrayCall::PopNFront(_) => 28,
        ArrayCall::PopBack(_) => 29,
        ArrayCall::PopNBack(_) => 30,
    }
}

/// Whether the lengths that `call` may allocate up to are at most `max`
pub open spec fn capped(call: ArrayCall, max: usize) -> bool {
    match call {
        ArrayCall::GrowWith(args) => args.len <= max,
        ArrayCall::Grow(args) => args.len <= max,
        _ => true,
    }
}

impl AnyArrayFnCall {
    /// The name of the call
    pub fn name(&self) -> &'static str {
        match &self.call {
            ArrayCall::AsSlice(_) => "ArgsAsSlice",
            ArrayCall::Len(_) => "ArgsLen",
            ArrayCall::IsEmpty(_) => "ArgsIsEmpty",
            ArrayCall::Get(_) => "ArgsGet",
            ArrayCall::GetN(_) => "ArgsGetN",
            ArrayCall::First(_) => "ArgsFirst",
            ArrayCall::Last(_) => "ArgsLast",
            ArrayCall::Iter(_) => "ArgsIter",
            ArrayCall::CloneTo(_) => "ArgsCloneTo",
            ArrayCall::AsSliceMut(_) => "ArgsAsSliceMut",
            ArrayCall::GetMut(_) => "ArgsGetMut",
            ArrayCall::GetNMut(_) => "ArgsGetNMut",
            ArrayCall::FirstMut(_) => "ArgsFirstMut",
            ArrayCall::LastMut(_) => "ArgsLastMut",
            ArrayCall::IterMut(_) => "ArgsIterMut",
            ArrayCall::RotateLeft(_) => "ArgsRotateLeft",
            ArrayCall::RotateRight(_) => "ArgsRotateRight",
            ArrayCall::Reverse(_) => "ArgsReverse",
            ArrayCall::AllocNew(_) => "ArgsAllocNew",
            ArrayCall::Clone(_) => "ArgsClone",
            ArrayCall::GrowWith(_) => "ArgsGrowWith",
            ArrayCall::Grow(_) => "ArgsGrow",
            ArrayCall::Shrink(_) => "ArgsShrink",
            ArrayCall::PushFront(_) => "ArgsPushFront",
            ArrayCall::PushNFront(_) => "ArgsPushNFront",
            ArrayCall::PushBack(_) => "ArgsPushBack",
            ArrayCall::PushNBack(_) => "ArgsPushNBack",
            ArrayCall::PopFront(_) => "ArgsPopFront",
            ArrayCall::PopNFront(_) => "ArgsPopNFront",
            ArrayCall::PopBack(_) => "ArgsPopBack",
            ArrayCall::PopNBack(_) => "ArgsPopNBack",
        }
    }

    /// Decodes the call at position `kind` in the list of all calls from `u`
    fn arbitrary_of_kind(kind: usize, u: &mut Unstructured<'_>, alloc_max: usize) -> (r: Result<Self, DecodeError>)
        requires
            kind < CALL_KINDS,
        ensures
            r is Ok,
            position(r->Ok_0.erased()) == kind,
            capped(r->Ok_0.erased(), alloc_max),
    {
        let call = if kind == 0 {
            ArrayCall::AsSlice(ArgsAsSlice)
        } else if kind == 1 {
            ArrayCall::Len(ArgsLen)
        } else if kind == 2 {
            ArrayCall::IsEmpty(ArgsIsEmpty)
        } else if kind == 3 {
            ArrayCall::Get(ArgsGet { index: arbitrary_usize(u)? })
        } else if kind == 4 {
            ArrayCall::GetN(ArgsGetN { start: arbitrary_usize(u)?, end: arbitrary_usize(u)? })
        } else if kind == 5 {
            ArrayCall::First(ArgsFirst)
        } else if kind == 6 {
            ArrayCall::Last(ArgsLast)
        } else if kind == 7 {
            ArrayCall::Iter(ArgsIter)
        } else if kind == 8 {
            ArrayCall::CloneTo(ArgsCloneTo::arbitrary(u)?)
        } else if kind == 9 {
            ArrayCall::AsSliceMut(ArgsAsSliceMut)
        } else if kind == 10 {
            ArrayCall::GetMut(ArgsGetMut { index: arbitrary_usize(u)? })
        } else if kind == 11 {
            ArrayCall::GetNMut(ArgsGetNMut { start: arbitrary_usize(u)?, end: arbitrary_usize(u)? })
        } else if kind == 12 {
            ArrayCall::FirstMut(ArgsFirstMut)
        } else if kind == 13 {
            ArrayCall::LastMut(ArgsLastMut)
        } else if kind == 14 {
            ArrayCall::IterMut(ArgsIterMut)
        } else if kind == 15 {
            ArrayCall::RotateLeft(ArgsRotateLeft { steps: arbitrary_usize(u)? })
        } else if kind == 16 {
            ArrayCall::RotateRight(ArgsRotateRight { steps: arbitrary_usize(u)? })
        } else if kind == 17 {
            ArrayCall::Reverse(ArgsReverse)
        } else if kind == 18 {
            ArrayCall::AllocNew(ArgsAllocNew)
        } else if kind == 19 {
            ArrayCall::Clone(ArgsClone::arbitrary(u)?)
        } else if kind == 20 {
            ArrayCall::GrowWith(ArgsGrowWith::arbitrary(u, alloc_max)?)
        } else if kind == 21 {
            ArrayCall::Grow(ArgsGrow::arbitrary(u, alloc_max)?)
        } else if kind == 22 {
            ArrayCall::Shrink(ArgsShrink { len: arbitrary_usize(u)? })
        } else if kind == 23 {
            ArrayCall::PushFront(ArgsPushFront { element: arbitrary_u8(u)? })
        } else if kind == 24 {
            ArrayCall::PushNFront(ArgsPushNFront::arbitrary(u)?)
        } else if kind == 25 {
            ArrayCall::PushBack(ArgsPushBack { element: arbitrary_u8(u)? })
        } else if kind == 26 {
            ArrayCall::PushNBack(ArgsPushNBack::arbitrary(u)?)
        } else if kind == 27 {
            ArrayCall::PopFront(ArgsPopFront)
        } else if kind == 28 {
            ArrayCall::PopNFront(ArgsPopNFront { len: arbitrary_usize(u)? })
        } else if kind == 29 {
            ArrayCall::PopBack(ArgsPopBack)
        } else {
            ArrayCall::PopNBack(ArgsPopNBack { len: arbitrary_usize(u)? })
        };
        Ok(Self { call })
    }
}

impl ArrayFnCalls {
    /// The positions of the calls in the list of all calls
    pub closed spec fn kinds(&self) -> Seq<int> {
        self.calls@.map_values(|c: AnyArrayFnCall| position(c.erased()))
    }

    /// Decodes every call exactly once, in an order drawn from `u`; the lengths that calls may allocate up to are
    /// capped to `alloc_max`
    pub fn arbitrary(u: &mut Unstructured<'_>, alloc_max: usize) -> (r: Result<Self, DecodeError>)
        ensures
            r is Ok,
            r is Ok ==> r->Ok_0.calls@.len() == CALL_KINDS,
            r is Ok ==> forall|i: int|
                0 <= i < CALL_KINDS ==> 0 <= #[trigger] position(r->Ok_0.calls@[i].erased()) < CALL_KINDS,
            r is Ok ==> forall|i: int, j: int|
                0 <= i < j < CALL_KINDS ==> position(#[trigger] r->Ok_0.calls@[i].erased()) != position(
                    #[trigger] r->Ok_0.calls@[j].erased(),
                ),
            r is Ok ==> forall|i: int| 0 <= i < CALL_KINDS ==> capped(#[trigger] r->Ok_0.calls@[i].erased(), alloc_max),
    {
        // The positions of the calls that are still to be decoded
        let mut constructors: Vec<usize> = Vec::new();
        let mut k: usize = 0;
        while k < CALL_KINDS
            invariant
                k <= CALL_KINDS,
                constructors@ == Seq::new(k as nat, |i: int| i as usize),
            decreases CALL_KINDS - k,
        {
            constructors.push(k);
            k = k + 1;
        }

        // Construct the calls in an arbitrary order
        let mut calls: Vec<AnyArrayFnCall> = Vec::new();
        while constructors.len() > 0
            invariant
                calls@.len() + constructors@.len() == CALL_KINDS,
                forall|i: int| 0 <= i < constructors@.len() ==> #[trigger] constructors@[i] < CALL_KINDS,
                forall|i: int, j: int|
                    0 <= i < j < constructors@.len() ==> #[trigger] constructors@[i] != #[trigger] constructors@[j],
                forall|i: int| 0 <= i < calls@.len() ==> 0 <= #[trigger] position(calls@[i].erased()) < CALL_KINDS,
                forall|i: int| 0 <= i < calls@.len() ==> capped(#[trigger] calls@[i].erased(), alloc_max),
                forall|i: int, j: int|
                    0 <= i < j < calls@.len() ==> position(#[trigger] calls@[i].erased()) != position(
                        #[trigger] calls@[j].erased(),
                    ),
                forall|i: int, j: int|
                    0 <= i < calls@.len() && 0 <= j < constructors@.len() ==> position(#[trigger] calls@[i].erased())
                        != #[trigger] constructors@[j],
            decreases constructors@.len(),
        {
            // Select an nth constructor and call it
            let nth = int_in_range(u, 0, constructors.len() - 1)?;
            let ghost before = constructors@;
            let kind = constructors.remove(nth);
            assert forall|j: int| 0 <= j < constructors@.len() implies #[trigger] constructors@[j] != kind by {
                if j < nth {
                    assert(constructors@[j] == before[j]);
                } else {
                    assert(constructors@[j] == before[j + 1]);
                }
            }
            let call = AnyArrayFnCall::arbitrary_of_kind(kind, u, alloc_max)?;
            calls.push(call);
        }
        Ok(Self { calls })
    }
}

} // verus!
