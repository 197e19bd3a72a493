use vstd::prelude::*;
use crate::storage::rotated_left;
use crate::traits::{popped, rotate_left_mod, rotate_right_mod};

verus! {

/// The sequence reached from `s` by pushing each element of `items` onto the back, in order
pub open spec fn pushed_back_all<T>(s: Seq<T>, items: Seq<T>) -> Seq<T>
    decreases items.len(),
{
    if items.len() == 0 {
        s
    } else {
        pushed_back_all(s.push(items[0]), items.drop_first())
    }
}

/// Pushing the elements of `items` one by one onto the back of `s` appends them in order
pub proof fn lemma_pushed_back_all<T>(s: Seq<T>, items: Seq<T>)
    ensures
        pushed_back_all(s, items) == s + items,
    decreases items.len(),
{
    if items.len() > 0 {
        lemma_pushed_back_all(s.push(items[0]), items.drop_first());
        assert(s.push(items[0]) + items.drop_first() =~= s + items);
    } else {
        assert(s + items =~= s);
    }
}

/// Back round-trip: removing from the back right after pushing `x` onto the back of `s` yields `x` and gives `s`
/// back.
pub proof fn lemma_push_pop_back<T>(s: Seq<T>, x: T, value: Option<T>, rest: Seq<T>)
    requires
        popped(s.push(x), value, rest),
    ensures
        value == Some(x),
        rest == s,
{
    assert(s.push(x).drop_last() =~= s);
}

/// Front/back synthesis: after pushing `items` in order onto the back of an empty array, popping `k` elements from
/// the front yields the first `k` items in order, and the array keeps the others.
pub proof fn lemma_front_back_synthesis<T>(items: Seq<T>, k: nat, taken: Seq<T>, rest: Seq<T>)
    requires
        k <= items.len(),
        taken == pushed_back_all(Seq::<T>::empty(), items).subrange(0, k as int),
        rest == pushed_back_all(Seq::<T>::empty(), items).subrange(k as int, items.len() as int),
    ensures
        taken == items.subrange(0, k as int),
        rest == items.subrange(k as int, items.len() as int),
{
    lemma_pushed_back_all(Seq::<T>::empty(), items);
    assert(Seq::<T>::empty() + items =~= items);
}

/// Rotating a sequence left by `k` and then left by the rest of its length gives it back
proof fn lemma_rotated_left_back<T>(s: Seq<T>, k: int)
    requires
        0 <= k <= s.len(),
    ensures
        rotated_left(rotated_left(s, k), s.len() - k) == s,
{
    let t = rotated_left(s, k);
    assert(rotated_left(t, s.len() - k) =~= s);
}

/// Rotation inverse law: rotating left by `n` and then right by `n` restores the contents; on an empty sequence
/// both rotations change nothing.
pub proof fn lemma_rotate_inverse<T>(s: Seq<T>, n: int)
    requires
        n >= 0,
    ensures
        rotate_right_mod(rotate_left_mod(s, n), n) == s,
        s.len() == 0 ==> rotate_left_mod(s, n) == s && rotate_right_mod(s, n) == s,
{
    if s.len() > 0 {
        let len = s.len() as int;
        let k = n % len;
        assert(0 <= k < len) by (nonlinear_arith)
            requires len > 0, k == n % len;
        lemma_rotated_left_back(s, k);
        assert(rotate_left_mod(s, n).len() == s.len());
    }
}

} // verus!
