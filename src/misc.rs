use vstd::prelude::*;
use std::ops::{Range, RangeFrom, RangeFull, RangeInclusive, RangeTo, RangeToInclusive};

verus! {

/// An error indicating that a buffer is too small
#[derive(Debug, Clone, Copy, PartialEq, Eq, PartialOrd, Ord, Hash)]
pub struct BufferTooSmall;

/// An error which indicates that an implementation will always panic instead of returning an error
///
/// It has no values: a `Result<_, WillPanic>` is always `Ok`.
pub type WillPanic = core::convert::Infallible;

/// One end of a range expression
#[derive(Debug, Clone, Copy, PartialEq, Eq)]
pub enum Endpoint {
    Included(usize),
    Excluded(usize),
    Unbounded,
}

/// The absolute start that `bound` denotes, if it can be represented
pub open spec fn start_of(bound: Endpoint, default_start: usize) -> Option<int> {
    match bound {
        Endpoint::Included(s) => Some(s as int),
        Endpoint::Excluded(s) => if s < usize::MAX { Some(s + 1) } else { None },
        Endpoint::Unbounded => Some(default_start as int),
    }
}

/// The absolute (exclusive) end that `bound` denotes, if it can be represented
pub open spec fn end_of(bound: Endpoint, default_end: usize) -> Option<int> {
    match bound {
        Endpoint::Excluded(e) => Some(e as int),
        Endpoint::Included(e) => if e < usize::MAX { Some(e + 1) } else { None },
        Endpoint::Unbounded => Some(default_end as int),
    }
}

/// The half-open interval `[start, end)` that the two bounds denote, or `None` when a bound overflows or the
/// start lies past the end
pub open spec fn absolute(
    start: Endpoint,
    end: Endpoint,
    default_start: usize,
    default_end: usize,
) -> Option<(int, int)> {
    match (start_of(start, default_start), end_of(end, default_end)) {
        (Some(s), Some(e)) => if s <= e { Some((s, e)) } else { None },
        _ => None,
    }
}

/// Resolves a pair of bounds into an absolute half-open range
pub fn resolve_bounds(start: Endpoint, end: Endpoint, default_start: usize, default_end: usize) -> (r: Option<Range<usize>>)
    ensures
        match absolute(start, end, default_start, default_end) {
            Some((s, e)) => r is Some && r->Some_0.start == s && r->Some_0.end == e,
            None => r is None,
        },
{
    let s = match start {
        Endpoint::Included(s) => s,
        Endpoint::Excluded(s) => match s.checked_add(1) {
            Some(s) => s,
            None => return None,
        },
        Endpoint::Unbounded => default_start,
    };
    let e = match end {
        Endpoint::Excluded(e) => e,
        Endpoint::Included(e) => match e.checked_add(1) {
            Some(e) => e,
            None => return None,
        },
        Endpoint::Unbounded => default_end,
    };
    if s <= e {
        Some(s..e)
    } else {
        None
    }
}

/// An extension to range expressions over `usize`
pub trait RangeBoundsExt: Sized {
    /// The start bound of `self`
    spec fn lower(&self) -> Endpoint;

    /// The end bound of `self`
    spec fn upper(&self) -> Endpoint;

    /// Computes an absolute range from `self` using `default_start` and `default_end` as hints if the range is
    /// (partially) open
    fn into_absolute(self, default_start: usize, default_end: usize) -> (r: Option<Range<usize>>)
        ensures
            match absolute(self.lower(), self.upper(), default_start, default_end) {
                Some((s, e)) => r is Some && r->Some_0.start == s && r->Some_0.end == e,
                None => r is None,
            },
    ;
}

impl RangeBoundsExt for (Endpoint, Endpoint) {
    open spec fn lower(&self) -> Endpoint {
        self.0
    }

    open spec fn upper(&self) -> Endpoint {
        self.1
    }

    fn into_absolute(self, default_start: usize, default_end: usize) -> (r: Option<Range<usize>>) {
        resolve_bounds(self.0, self.1, default_start, default_end)
    }
}

impl RangeBoundsExt for Range<usize> {
    open spec fn lower(&self) -> Endpoint {
        Endpoint::Included(self.start)
    }

    open spec fn upper(&self) -> Endpoint {
        Endpoint::Excluded(self.end)
    }

    fn into_absolute(self, default_start: usize, default_end: usize) -> (r: Option<Range<usize>>) {
        resolve_bounds(Endpoint::Included(self.start), Endpoint::Excluded(self.end), default_start, default_end)
    }
}

impl RangeBoundsExt for RangeInclusive<usize> {
    open spec fn lower(&self) -> Endpoint {
        Endpoint::Included(self@.start)
    }

    /// An exhausted range (one that iteration has used up) ends before `end`; iteration only ever exhausts a range
    /// whose start does not lie past its end
    open spec fn upper(&self) -> Endpoint {
        if self@.exhausted && self@.start <= self@.end {
            Endpoint::Excluded(self@.end)
        } else {
            Endpoint::Included(self@.end)
        }
    }

    fn into_absolute(self, default_start: usize, default_end: usize) -> (r: Option<Range<usize>>) {
        let start = *self.start();
        let end = *self.end();
        let upper = if start <= end && !self.contains(&end) {
            Endpoint::Excluded(end)
        } else {
            Endpoint::Included(end)
        };
        resolve_bounds(Endpoint::Included(start), upper, default_start, default_end)
    }
}

/// Relies on `RangeInclusive::start`: the lower bound the range was built with.
pub assume_specification<Point>[ RangeInclusive::<Point>::start ](range: &RangeInclusive<Point>) -> (r: &Point)
    ensures
        *r == range@.start,
;

/// Relies on `RangeInclusive::end`: the upper bound the range was built with, whether or not it is exhausted.
pub assume_specification<Point>[ RangeInclusive::<Point>::end ](range: &RangeInclusive<Point>) -> (r: &Point)
    ensures
        *r == range@.end,
;

impl RangeBoundsExt for RangeFrom<usize> {
    open spec fn lower(&self) -> Endpoint {
        Endpoint::Included(self.start)
    }

    open spec fn upper(&self) -> Endpoint {
        Endpoint::Unbounded
    }

    fn into_absolute(self, default_start: usize, default_end: usize) -> (r: Option<Range<usize>>) {
        resolve_bounds(Endpoint::Included(self.start), Endpoint::Unbounded, default_start, default_end)
    }
}

impl RangeBoundsExt for RangeTo<usize> {
    open spec fn lower(&self) -> Endpoint {
        Endpoint::Unbounded
    }

    open spec fn upper(&self) -> Endpoint {
        Endpoint::Excluded(self.end)
    }

    fn into_absolute(self, default_start: usize, default_end: usize) -> (r: Option<Range<usize>>) {
        resolve_bounds(Endpoint::Unbounded, Endpoint::Excluded(self.end), default_start, default_end)
    }
}

impl RangeBoundsExt for RangeToInclusive<usize> {
    open spec fn lower(&self) -> Endpoint {
        Endpoint::Unbounded
    }

    open spec fn upper(&self) -> Endpoint {
        Endpoint::Included(self.end)
    }

    fn into_absolute(self, default_start: usize, default_end: usize) -> (r: Option<Range<usize>>) {
        resolve_bounds(Endpoint::Unbounded, Endpoint::Included(self.end), default_start, default_end)
    }
}

impl RangeBoundsExt for RangeFull {
    open spec fn lower(&self) -> Endpoint {
        Endpoint::Unbounded
    }

    open spec fn upper(&self) -> Endpoint {
        Endpoint::Unbounded
    }

    fn into_absolute(self, default_start: usize, default_end: usize) -> (r: Option<Range<usize>>) {
        resolve_bounds(Endpoint::Unbounded, Endpoint::Unbounded, default_start, default_end)
    }
}

/// The type `a..` of `std`, whose field is public
#[verifier::external_type_specification]
pub struct ExRangeFrom<Idx>(RangeFrom<Idx>);

/// The type `..b` of `std`, whose field is public
#[verifier::external_type_specification]
pub struct ExRangeTo<Idx>(RangeTo<Idx>);

/// The type `..=b` of `std`, whose field is public
#[verifier::external_type_specification]
pub struct ExRangeToInclusive<Idx>(RangeToInclusive<Idx>);

/// The type `..` of `std`
#[verifier::external_type_specification]
pub struct ExRangeFull(RangeFull);

} // verus!
