//! Laws that relate the operations on bit vectors to one another.

use vstd::prelude::*;
use super::model::{
    all_clear, and_bits, and_not_bits, bit_at, flip_one, flip_span, grown, or_bits, same_bits,
    set_one, set_span, subset_bits, superset_bits, whole_words, xor_bits,
};
use super::BitSet;

verus! {

/// The vector after the single-bit write of `v` to each index of
/// `start..end`, in ascending order.
pub open spec fn set_each(bits: Seq<bool>, start: int, end: int, v: bool) -> Seq<bool>
    decreases end - start,
{
    if start >= end {
        bits
    } else {
        set_each(set_one(bits, start, v), start + 1, end, v)
    }
}

/// The vector after the single-bit inversion of each index of `start..end`,
/// in ascending order.
pub open spec fn flip_each(bits: Seq<bool>, start: int, end: int) -> Seq<bool>
    decreases end - start,
{
    if start >= end {
        bits
    } else {
        flip_each(flip_one(bits, start), start + 1, end)
    }
}

/// Growth in two steps is growth to the larger target.
proof fn lemma_grown_twice(bits: Seq<bool>, n: int, m: int)
    requires
        bits.len() % 8 == 0,
        n <= m,
    ensures
        grown(grown(bits, n), m) == grown(bits, m),
        grown(bits, n).len() % 8 == 0,
        grown(bits, n).len() <= grown(bits, m).len(),
{
    assert(grown(grown(bits, n), m) =~= grown(bits, m));
}

/// Ranged and bit-by-bit writes agree, on sequences of whole words.
proof fn lemma_set_span_is_set_each(bits: Seq<bool>, start: int, end: int, v: bool)
    requires
        bits.len() % 8 == 0,
        0 <= start,
    ensures
        same_bits(set_span(bits, start, end, v), set_each(bits, start, end, v)),
        start < end ==> set_span(bits, start, end, v) == set_each(bits, start, end, v),
    decreases end - start,
{
    if start >= end {
        assert forall|i: int| #[trigger]
            bit_at(set_span(bits, start, end, v), i) == bit_at(bits, i) by {}
    } else {
        let next = set_one(bits, start, v);
        lemma_grown_twice(bits, start + 1, end);
        lemma_set_span_is_set_each(next, start + 1, end, v);
        if start + 1 < end {
            assert(set_span(bits, start, end, v) =~= set_span(next, start + 1, end, v));
        } else {
            assert(set_span(bits, start, end, v) =~= next);
        }
    }
}

/// Ranged and bit-by-bit inversions agree, on sequences of whole words.
proof fn lemma_flip_span_is_flip_each(bits: Seq<bool>, start: int, end: int)
    requires
        bits.len() % 8 == 0,
        0 <= start,
    ensures
        same_bits(flip_span(bits, start, end), flip_each(bits, start, end)),
        start < end ==> flip_span(bits, start, end) == flip_each(bits, start, end),
    decreases end - start,
{
    if start >= end {
        assert forall|i: int| #[trigger]
            bit_at(flip_span(bits, start, end), i) == bit_at(bits, i) by {}
    } else {
        let next = flip_one(bits, start);
        lemma_grown_twice(bits, start + 1, end);
        lemma_flip_span_is_flip_each(next, start + 1, end);
        if start + 1 < end {
            assert(flip_span(bits, start, end) =~= flip_span(next, start + 1, end));
        } else {
            assert(flip_span(bits, start, end) =~= next);
        }
    }
}

/// A ranged write of `v` to `start..end` leaves the bits that writing `v`
/// to each index of the interval, one bit at a time, leaves: whether the
/// interval lies in one word, spans several, starts or ends on a word
/// boundary, or is empty. Where the interval holds a bit, the two results
/// are the same vector, capacity included; for an empty one the ranged
/// write may have grown the vector, by false bits only.
pub proof fn law_set_range_is_bit_by_bit(a: BitSet, start: usize, end: usize, v: bool)
    ensures
        same_bits(
            set_span(a@, start as int, end as int, v),
            set_each(a@, start as int, end as int, v),
        ),
        start < end ==> set_span(a@, start as int, end as int, v) == set_each(
            a@,
            start as int,
            end as int,
            v,
        ),
{
    lemma_set_span_is_set_each(a@, start as int, end as int, v);
}

/// A ranged clear of `start..end` leaves the bits that clearing each index
/// of the interval, one bit at a time, leaves.
pub proof fn law_clear_range_is_bit_by_bit(a: BitSet, start: usize, end: usize)
    ensures
        same_bits(
            set_span(a@, start as int, end as int, false),
            set_each(a@, start as int, end as int, false),
        ),
        start < end ==> set_span(a@, start as int, end as int, false) == set_each(
            a@,
            start as int,
            end as int,
            false,
        ),
{
    lemma_set_span_is_set_each(a@, start as int, end as int, false);
}

/// A ranged inversion of `start..end` leaves the bits that inverting each
/// index of the interval, one bit at a time, leaves.
pub proof fn law_flip_range_is_bit_by_bit(a: BitSet, start: usize, end: usize)
    ensures
        same_bits(flip_span(a@, start as int, end as int), flip_each(a@, start as int, end as int)),
        start < end ==> flip_span(a@, start as int, end as int) == flip_each(
            a@,
            start as int,
            end as int,
        ),
{
    lemma_flip_span_is_flip_each(a@, start as int, end as int);
}

/// Growth never shrinks a vector, reaches its target, and changes no bit
/// of the zero-padded stream.
pub proof fn law_growth(a: BitSet, n: usize)
    ensures
        grown(a@, n as int).len() >= a@.len(),
        grown(a@, n as int).len() >= n,
        grown(a@, n as int).len() == if n <= a@.len() {
            a@.len() as int
        } else {
            whole_words(n as int)
        },
        same_bits(grown(a@, n as int), a@),
{
    assert forall|i: int| #[trigger] bit_at(grown(a@, n as int), i) == bit_at(a@, i) by {}
}

/// `a AND b` is `b AND a`.
pub proof fn law_and_commutes(a: BitSet, b: BitSet)
    ensures
        and_bits(a@, b@) == and_bits(b@, a@),
{
    assert(and_bits(a@, b@) =~= and_bits(b@, a@));
}

/// `a OR b` is `b OR a`.
pub proof fn law_or_commutes(a: BitSet, b: BitSet)
    ensures
        or_bits(a@, b@) == or_bits(b@, a@),
{
    assert(or_bits(a@, b@) =~= or_bits(b@, a@));
}

/// `a XOR a` has no bit set.
pub proof fn law_xor_self_is_clear(a: BitSet)
    ensures
        all_clear(xor_bits(a@, a@)),
        xor_bits(a@, a@).len() == a@.len(),
{
}

/// The bits of `a` outside `b`, joined with the bits of `a` inside `b`, are
/// `a` again: bit for bit within `a`'s length, and with no bit set beyond.
pub proof fn law_split_and_rejoin(a: BitSet, b: BitSet)
    ensures
        same_bits(or_bits(and_not_bits(a@, b@), and_bits(a@, b@)), a@),
        forall|i: int|
            0 <= i < a@.len() ==> #[trigger] or_bits(and_not_bits(a@, b@), and_bits(a@, b@))[i]
                == a@[i],
{
    let joined = or_bits(and_not_bits(a@, b@), and_bits(a@, b@));
    assert forall|i: int| #[trigger] bit_at(joined, i) == bit_at(a@, i) by {
        if 0 <= i < joined.len() {
            assert(bit_at(and_not_bits(a@, b@), i) == (bit_at(a@, i) && !bit_at(b@, i)));
            assert(bit_at(and_bits(a@, b@), i) == (bit_at(a@, i) && bit_at(b@, i)));
        }
    }
    assert forall|i: int| 0 <= i < a@.len() implies #[trigger] joined[i] == a@[i] by {
        assert(bit_at(joined, i) == bit_at(a@, i));
    }
}

/// `a` is a subset of `b` exactly when `b` is a superset of `a`.
pub proof fn law_subset_mirrors_superset(a: BitSet, b: BitSet)
    ensures
        subset_bits(a@, b@) == superset_bits(b@, a@),
{
}

/// Two vectors that are subsets of each other are equal, as `==` has it:
/// their zero-padded streams agree.
pub proof fn law_mutual_subsets_are_equal(a: BitSet, b: BitSet)
    requires
        subset_bits(a@, b@),
        subset_bits(b@, a@),
    ensures
        same_bits(a@, b@),
{
    assert forall|i: int| #[trigger] bit_at(a@, i) == bit_at(b@, i) by {
        if bit_at(a@, i) {
            assert(bit_at(b@, i));
        }
        if bit_at(b@, i) {
            assert(bit_at(a@, i));
        }
    }
}

/// Equality of bit vectors is an equivalence: every vector equals itself,
/// equality does not depend on the side, and vectors equal to the same
/// vector are equal.
pub proof fn law_equality_is_an_equivalence(a: BitSet, b: BitSet, c: BitSet)
    ensures
        same_bits(a@, a@),
        same_bits(a@, b@) == same_bits(b@, a@),
        same_bits(a@, b@) && same_bits(b@, c@) ==> same_bits(a@, c@),
{
    if same_bits(a@, b@) {
        assert forall|i: int| #[trigger] bit_at(b@, i) == bit_at(a@, i) by {
            assert(bit_at(a@, i) == bit_at(b@, i));
        }
        if same_bits(b@, c@) {
            assert forall|i: int| #[trigger] bit_at(a@, i) == bit_at(c@, i) by {
                assert(bit_at(a@, i) == bit_at(b@, i));
                assert(bit_at(b@, i) == bit_at(c@, i));
            }
        }
    }
    if same_bits(b@, a@) {
        assert forall|i: int| #[trigger] bit_at(a@, i) == bit_at(b@, i) by {
            assert(bit_at(b@, i) == bit_at(a@, i));
        }
    }
}

} // verus!
