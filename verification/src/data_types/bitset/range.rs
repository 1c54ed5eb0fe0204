//! The shapes in which a call addresses bits, and how each resolves to an
//! interval of bit indices.

use vstd::prelude::*;
use core::ops::{Range, RangeFrom, RangeFull, RangeInclusive, RangeTo, RangeToInclusive};

verus! {

/// One bit or a contiguous run of bits.
#[derive(Debug, Clone, Copy, PartialEq, Eq, Structural)]
pub enum RangeSpec {
    /// The single bit at the index.
    Point(usize),
    /// Every stored bit: `..`.
    Unbounded,
    /// From the start to the capacity: `start..`.
    From(usize),
    /// The bits below the end: `..end`.
    To(usize),
    /// From the start to below the end: `start..end`.
    Between(usize, usize),
    /// The bits up to and including the end: `..=end`.
    ToInclusive(usize),
    /// From the start up to and including the end: `start..=end`.
    BetweenInclusive(usize, usize),
}

impl RangeSpec {
    /// The start, the end and whether the end itself belongs to the
    /// interval, for a vector of `capacity_bits` bits. A point is the
    /// inclusive interval from the index to itself.
    pub open spec fn resolved(self, capacity_bits: usize) -> (usize, usize, bool) {
        match self {
            RangeSpec::Point(i) => (i, i, true),
            RangeSpec::Unbounded => (0, capacity_bits, false),
            RangeSpec::From(s) => (s, capacity_bits, false),
            RangeSpec::To(e) => (0, e, false),
            RangeSpec::Between(s, e) => (s, e, false),
            RangeSpec::ToInclusive(e) => (0, e, true),
            RangeSpec::BetweenInclusive(s, e) => (s, e, true),
        }
    }

    /// The first bit of the interval.
    pub open spec fn first(self) -> int {
        match self {
            RangeSpec::Point(i) => i as int,
            RangeSpec::From(s) => s as int,
            RangeSpec::Between(s, _) => s as int,
            RangeSpec::BetweenInclusive(s, _) => s as int,
            _ => 0,
        }
    }

    /// The first bit after the interval, on a vector of `capacity` bits: an
    /// inclusive end `e` addresses bit `e` itself, so there it is `e + 1`.
    pub open spec fn past_end(self, capacity: int) -> int {
        match self {
            RangeSpec::Point(i) => i + 1,
            RangeSpec::Unbounded => capacity,
            RangeSpec::From(_) => capacity,
            RangeSpec::To(e) => e as int,
            RangeSpec::Between(_, e) => e as int,
            RangeSpec::ToInclusive(e) => e + 1,
            RangeSpec::BetweenInclusive(_, e) => e + 1,
        }
    }

    /// The capacity that the shape asks for whatever the vector holds: the
    /// first bit after the interval, or nothing where the interval ends with
    /// the vector.
    pub open spec fn demand(self) -> int {
        match self {
            RangeSpec::Unbounded => 0,
            RangeSpec::From(_) => 0,
            _ => self.past_end(0),
        }
    }

    /// Resolves the shape against a vector of `capacity_bits` bits.
    pub fn resolve(&self, capacity_bits: usize) -> (r: (usize, usize, bool))
        ensures
            r == self.resolved(capacity_bits),
    {
        match *self {
            RangeSpec::Point(i) => (i, i, true),
            RangeSpec::Unbounded => (0, capacity_bits, false),
            RangeSpec::From(s) => (s, capacity_bits, false),
            RangeSpec::To(e) => (0, e, false),
            RangeSpec::Between(s, e) => (s, e, false),
            RangeSpec::ToInclusive(e) => (0, e, true),
            RangeSpec::BetweenInclusive(s, e) => (s, e, true),
        }
    }
}

/// What can address bits of a vector: an index, one of the range
/// expressions, or a [`RangeSpec`] itself.
pub trait IndexRange {
    /// The shape that this value stands for.
    spec fn shape(&self) -> RangeSpec;

    /// Gives the shape that this value stands for.
    fn range_spec(&self) -> (r: RangeSpec)
        ensures
            r == self.shape(),
    ;
}

impl IndexRange for RangeSpec {
    open spec fn shape(&self) -> RangeSpec {
        *self
    }

    fn range_spec(&self) -> (r: RangeSpec) {
        *self
    }
}

impl IndexRange for usize {
    open spec fn shape(&self) -> RangeSpec {
        RangeSpec::Point(*self)
    }

    fn range_spec(&self) -> (r: RangeSpec) {
        RangeSpec::Point(*self)
    }
}

impl IndexRange for Range<usize> {
    open spec fn shape(&self) -> RangeSpec {
        RangeSpec::Between(self.start, self.end)
    }

    fn range_spec(&self) -> (r: RangeSpec) {
        RangeSpec::Between(self.start, self.end)
    }
}

/// `core::ops::RangeFull`, the type of `..`: a struct without fields.
#[verifier::external_type_specification]
pub struct ExRangeFull(RangeFull);

/// `core::ops::RangeFrom`, the type of `start..`, with its public field
/// `start`.
#[verifier::external_type_specification]
#[verifier::reject_recursive_types(Idx)]
pub struct ExRangeFrom<Idx>(RangeFrom<Idx>);

/// `core::ops::RangeTo`, the type of `..end`, with its public field `end`.
#[verifier::external_type_specification]
#[verifier::reject_recursive_types(Idx)]
pub struct ExRangeTo<Idx>(RangeTo<Idx>);

/// `core::ops::RangeToInclusive`, the type of `..=end`, with its public
/// field `end`.
#[verifier::external_type_specification]
#[verifier::reject_recursive_types(Idx)]
pub struct ExRangeToInclusive<Idx>(RangeToInclusive<Idx>);

/// `core::ops::RangeInclusive::start` gives the lower bound of the range:
/// the bound that the range was made with, which its view calls `start`.
pub assume_specification<Idx>[ RangeInclusive::<Idx>::start ](r: &RangeInclusive<Idx>) -> (s: &Idx)
    ensures
        *s == r@.start,
;

/// `core::ops::RangeInclusive::end` gives the upper bound of the range:
/// the bound that the range was made with, which its view calls `end`.
pub assume_specification<Idx>[ RangeInclusive::<Idx>::end ](r: &RangeInclusive<Idx>) -> (e: &Idx)
    ensures
        *e == r@.end,
;

impl IndexRange for RangeInclusive<usize> {
    open spec fn shape(&self) -> RangeSpec {
        RangeSpec::BetweenInclusive(self@.start, self@.end)
    }

    fn range_spec(&self) -> (r: RangeSpec) {
        RangeSpec::BetweenInclusive(*self.start(), *self.end())
    }
}

impl IndexRange for RangeFull {
    open spec fn shape(&self) -> RangeSpec {
        RangeSpec::Unbounded
    }

    fn range_spec(&self) -> (r: RangeSpec) {
        RangeSpec::Unbounded
    }
}

impl IndexRange for RangeFrom<usize> {
    open spec fn shape(&self) -> RangeSpec {
        RangeSpec::From(self.start)
    }

    fn range_spec(&self) -> (r: RangeSpec) {
        RangeSpec::From(self.start)
    }
}

impl IndexRange for RangeTo<usize> {
    open spec fn shape(&self) -> RangeSpec {
        RangeSpec::To(self.end)
    }

    fn range_spec(&self) -> (r: RangeSpec) {
        RangeSpec::To(self.end)
    }
}

impl IndexRange for RangeToInclusive<usize> {
    open spec fn shape(&self) -> RangeSpec {
        RangeSpec::ToInclusive(self.end)
    }

    fn range_spec(&self) -> (r: RangeSpec) {
        RangeSpec::ToInclusive(self.end)
    }
}

} // verus!
