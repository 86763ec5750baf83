//! Selecting a contiguous run of a queue's elements with Rust's range syntax.
use core::ops::{Range, RangeFrom, RangeFull, RangeInclusive, RangeTo, RangeToInclusive};
use vstd::prelude::*;

verus! {

/// Declares `RangeFrom` (`a..`); its field is read.
#[verifier::external_type_specification]
#[verifier::reject_recursive_types(Idx)]
pub struct ExRangeFrom<Idx>(RangeFrom<Idx>);

/// Declares `RangeTo` (`..b`); its field is read.
#[verifier::external_type_specification]
#[verifier::reject_recursive_types(Idx)]
pub struct ExRangeTo<Idx>(RangeTo<Idx>);

/// Declares `RangeToInclusive` (`..=b`); its field is read.
#[verifier::external_type_specification]
#[verifier::reject_recursive_types(Idx)]
pub struct ExRangeToInclusive<Idx>(RangeToInclusive<Idx>);

/// Declares `RangeFull` (`..`).
#[verifier::external_type_specification]
pub struct ExRangeFull(RangeFull);

/// Relies on `RangeInclusive::start`: it returns the lower bound the range was built with.
pub assume_specification<Idx>[ RangeInclusive::<Idx>::start ](r: &RangeInclusive<Idx>) -> (s: &Idx)
    ensures
        *s == r@.start,
;

/// Relies on `RangeInclusive::end`: it returns the upper bound the range was built with.
pub assume_specification<Idx>[ RangeInclusive::<Idx>::end ](r: &RangeInclusive<Idx>) -> (e: &Idx)
    ensures
        *e == r@.end,
;

/// A selector of a contiguous run of elements out of `len`, as the half-open range
/// `[lower(len), upper(len))`.
pub trait RangeSelector {
    /// The selector names a run inside `[0, len]`.
    spec fn fits(&self, len: nat) -> bool;

    /// The first selected index.
    spec fn lower(&self, len: nat) -> int;

    /// One past the last selected index.
    spec fn upper(&self, len: nat) -> int;

    /// The selected run as a half-open range.
    fn resolve(&self, len: usize) -> (r: Range<usize>)
        requires
            self.fits(len as nat),
        ensures
            r.start == self.lower(len as nat),
            r.end == self.upper(len as nat),
            r.start <= r.end <= len,
    ;
}

impl RangeSelector for Range<usize> {
    open spec fn fits(&self, len: nat) -> bool {
        self.start <= self.end <= len
    }

    open spec fn lower(&self, len: nat) -> int {
        self.start as int
    }

    open spec fn upper(&self, len: nat) -> int {
        self.end as int
    }

    fn resolve(&self, len: usize) -> (r: Range<usize>) {
        Range { start: self.start, end: self.end }
    }
}

impl RangeSelector for RangeFrom<usize> {
    open spec fn fits(&self, len: nat) -> bool {
        self.start <= len
    }

    open spec fn lower(&self, len: nat) -> int {
        self.start as int
    }

    open spec fn upper(&self, len: nat) -> int {
        len as int
    }

    fn resolve(&self, len: usize) -> (r: Range<usize>) {
        Range { start: self.start, end: len }
    }
}

impl RangeSelector for RangeTo<usize> {
    open spec fn fits(&self, len: nat) -> bool {
        self.end <= len
    }

    open spec fn lower(&self, len: nat) -> int {
        0
    }

    open spec fn upper(&self, len: nat) -> int {
        self.end as int
    }

    fn resolve(&self, len: usize) -> (r: Range<usize>) {
        Range { start: 0, end: self.end }
    }
}

impl RangeSelector for RangeFull {
    open spec fn fits(&self, len: nat) -> bool {
        true
    }

    open spec fn lower(&self, len: nat) -> int {
        0
    }

    open spec fn upper(&self, len: nat) -> int {
        len as int
    }

    fn resolve(&self, len: usize) -> (r: Range<usize>) {
        Range { start: 0, end: len }
    }
}

impl RangeSelector for RangeInclusive<usize> {
    open spec fn fits(&self, len: nat) -> bool {
        !self@.exhausted && self@.start <= self@.end + 1 <= len
    }

    open spec fn lower(&self, len: nat) -> int {
        self@.start as int
    }

    open spec fn upper(&self, len: nat) -> int {
        self@.end + 1
    }

    fn resolve(&self, len: usize) -> (r: Range<usize>) {
        Range { start: *self.start(), end: *self.end() + 1 }
    }
}

impl RangeSelector for RangeToInclusive<usize> {
    open spec fn fits(&self, len: nat) -> bool {
        self.end + 1 <= len
    }

    open spec fn lower(&self, len: nat) -> int {
        0
    }

    open spec fn upper(&self, len: nat) -> int {
        self.end + 1
    }

    fn resolve(&self, len: usize) -> (r: Range<usize>) {
        Range { start: 0, end: self.end + 1 }
    }
}

} // verus!
