//! Set algebra on bit vectors: the four in-place combinations, their
//! non-failing copies, the set predicates and equality.

use vstd::prelude::*;
use vstd::std_specs::cmp::PartialEqSpecImpl;
use super::model::{
    and_bits, and_not_bits, bit_at, disjoint_bits, longer, or_bits, same_bits, subset_bits,
    superset_bits, xor_bits,
};
use super::words::{lemma_bit_of_ops, lemma_zero_word, lemma_word_extensional, word_bit};
use super::{BitSet, BitSetError};

verus! {

/// How two words combine.
#[derive(Clone, Copy)]
enum Combine {
    Both,
    Either,
    Differ,
    Without,
}

/// The vector that `op` makes of `a` and `b`, each padded with false bits
/// to the longer of the two.
spec fn combined(a: Seq<bool>, b: Seq<bool>, op: Combine) -> Seq<bool> {
    Seq::new(
        longer(a, b),
        |i: int|
            match op {
                Combine::Both => bit_at(a, i) && bit_at(b, i),
                Combine::Either => bit_at(a, i) || bit_at(b, i),
                Combine::Differ => bit_at(a, i) != bit_at(b, i),
                Combine::Without => bit_at(a, i) && !bit_at(b, i),
            },
    )
}

impl BitSet {
    /// Combines `other` into this vector word by word, after growth to
    /// `other`'s capacity; words that `other` lacks count as zero.
    fn combine(&mut self, other: &BitSet, op: Combine) -> (r: Result<(), BitSetError>)
        ensures
            r.is_ok() <==> (other@.len() <= old(self)@.len() || !old(self).is_frozen()),
            r.is_ok() ==> final(self)@ == combined(old(self)@, other@, op),
            r.is_err() ==> *final(self) == *old(self),
            r.is_err() ==> r == Err::<(), BitSetError>(BitSetError::AttemptToGrowFrozen),
            final(self).is_frozen() == old(self).is_frozen(),
            old(self).is_frozen() ==> final(self)@.len() == old(self)@.len(),
    {
        let target: usize = other.capacity();
        match self.grow_to_size(target) {
            Err(e) => {
                return Err(e);
            },
            Ok(()) => {},
        }
        let ghost want = combined(old(self)@, other@, op);
        let n: usize = self.len();
        let mut w: usize = 0;
        while w < n
            invariant
                w <= n,
                n * 8 == self@.len(),
                self@.len() == want.len(),
                want == combined(old(self)@, other@, op),
                self.is_frozen() == old(self).is_frozen(),
                forall|j: int|
                    0 <= j < want.len() ==> self@[j] == if j / 8 < w {
                        want[j]
                    } else {
                        bit_at(old(self)@, j)
                    },
            decreases n - w,
        {
            let a: u8 = self.word_or_zero(w);
            let b: u8 = other.word_or_zero(w);
            let new: u8 = match op {
                Combine::Both => a & b,
                Combine::Either => a | b,
                Combine::Differ => a ^ b,
                Combine::Without => a & !b,
            };
            let ghost before = self@;
            self.store_word(w, new);
            proof {
                assert forall|j: int| 0 <= j < want.len() implies self@[j] == if j / 8 < w + 1 {
                    want[j]
                } else {
                    bit_at(old(self)@, j)
                } by {
                    assert(before[j] == if j / 8 < w {
                        want[j]
                    } else {
                        bit_at(old(self)@, j)
                    });
                    if j / 8 == w {
                        let k = j % 8;
                        assert(j == 8 * w + k);
                        lemma_bit_of_ops(a, b, k);
                        lemma_bit_of_ops(b, b, k);
                        lemma_bit_of_ops(a, !b, k);
                        assert(word_bit(a, k) == before[j]);
                    }
                }
            }
            w += 1;
        }
        assert(self@ =~= want);
        Ok(())
    }

    /// Keeps the bits that are also set in `set`. The vector first grows to
    /// `set`'s capacity; a frozen vector that would have to grow is left as
    /// it is, and the call fails.
    pub fn and(&mut self, set: &BitSet) -> (r: Result<(), BitSetError>)
        ensures
            r.is_ok() <==> (set@.len() <= old(self)@.len() || !old(self).is_frozen()),
            r.is_ok() ==> final(self)@ == and_bits(old(self)@, set@),
            r.is_err() ==> *final(self) == *old(self),
            r.is_err() ==> r == Err::<(), BitSetError>(BitSetError::AttemptToGrowFrozen),
            final(self).is_frozen() == old(self).is_frozen(),
            old(self).is_frozen() ==> final(self)@.len() == old(self)@.len(),
    {
        let r = self.combine(set, Combine::Both);
        proof {
            if r.is_ok() {
                assert(self@ =~= and_bits(old(self)@, set@));
            }
        }
        r
    }

    /// Adds the bits that are set in `set`. The vector first grows to
    /// `set`'s capacity; a frozen vector that would have to grow is left as
    /// it is, and the call fails.
    pub fn or(&mut self, set: &BitSet) -> (r: Result<(), BitSetError>)
        ensures
            r.is_ok() <==> (set@.len() <= old(self)@.len() || !old(self).is_frozen()),
            r.is_ok() ==> final(self)@ == or_bits(old(self)@, set@),
            r.is_err() ==> *final(self) == *old(self),
            r.is_err() ==> r == Err::<(), BitSetError>(BitSetError::AttemptToGrowFrozen),
            final(self).is_frozen() == old(self).is_frozen(),
            old(self).is_frozen() ==> final(self)@.len() == old(self)@.len(),
    {
        let r = self.combine(set, Combine::Either);
        proof {
            if r.is_ok() {
                assert(self@ =~= or_bits(old(self)@, set@));
            }
        }
        r
    }

    /// Keeps the bits that are set in exactly one of the two. The vector
    /// first grows to `set`'s capacity; a frozen vector that would have to
    /// grow is left as it is, and the call fails.
    pub fn xor(&mut self, set: &BitSet) -> (r: Result<(), BitSetError>)
        ensures
            r.is_ok() <==> (set@.len() <= old(self)@.len() || !old(self).is_frozen()),
            r.is_ok() ==> final(self)@ == xor_bits(old(self)@, set@),
            r.is_err() ==> *final(self) == *old(self),
            r.is_err() ==> r == Err::<(), BitSetError>(BitSetError::AttemptToGrowFrozen),
            final(self).is_frozen() == old(self).is_frozen(),
            old(self).is_frozen() ==> final(self)@.len() == old(self)@.len(),
    {
        let r = self.combine(set, Combine::Differ);
        proof {
            if r.is_ok() {
                assert(self@ =~= xor_bits(old(self)@, set@));
            }
        }
        r
    }

    /// Removes the bits that are set in `set`. The vector first grows to
    /// `set`'s capacity; a frozen vector that would have to grow is left as
    /// it is, and the call fails.
    pub fn and_not(&mut self, set: &BitSet) -> (r: Result<(), BitSetError>)
        ensures
            r.is_ok() <==> (set@.len() <= old(self)@.len() || !old(self).is_frozen()),
            r.is_ok() ==> final(self)@ == and_not_bits(old(self)@, set@),
            r.is_err() ==> *final(self) == *old(self),
            r.is_err() ==> r == Err::<(), BitSetError>(BitSetError::AttemptToGrowFrozen),
            final(self).is_frozen() == old(self).is_frozen(),
            old(self).is_frozen() ==> final(self)@.len() == old(self)@.len(),
    {
        let r = self.combine(set, Combine::Without);
        proof {
            if r.is_ok() {
                assert(self@ =~= and_not_bits(old(self)@, set@));
            }
        }
        r
    }

    /// An unfrozen copy of this vector combined with `other`; it cannot
    /// fail, whatever the freeze state of this vector.
    fn cloned_combine(&self, other: &BitSet, op: Combine) -> (r: BitSet)
        ensures
            r@ == combined(self@, other@, op),
            !r.is_frozen(),
    {
        let mut r: BitSet = self.clone();
        r.unfreeze();
        let outcome = r.combine(other, op);
        assert(outcome.is_ok());
        r
    }

    /// The AND of the two vectors as a new, unfrozen vector.
    #[must_use]
    pub fn cloned_and(&self, set: &BitSet) -> (r: BitSet)
        ensures
            r@ == and_bits(self@, set@),
            !r.is_frozen(),
    {
        let r = self.cloned_combine(set, Combine::Both);
        assert(r@ =~= and_bits(self@, set@));
        r
    }

    /// The OR of the two vectors as a new, unfrozen vector.
    #[must_use]
    pub fn cloned_or(&self, set: &BitSet) -> (r: BitSet)
        ensures
            r@ == or_bits(self@, set@),
            !r.is_frozen(),
    {
        let r = self.cloned_combine(set, Combine::Either);
        assert(r@ =~= or_bits(self@, set@));
        r
    }

    /// The XOR of the two vectors as a new, unfrozen vector.
    #[must_use]
    pub fn cloned_xor(&self, set: &BitSet) -> (r: BitSet)
        ensures
            r@ == xor_bits(self@, set@),
            !r.is_frozen(),
    {
        let r = self.cloned_combine(set, Combine::Differ);
        assert(r@ =~= xor_bits(self@, set@));
        r
    }

    /// The bits of this vector that are not in `set`, as a new, unfrozen
    /// vector.
    #[must_use]
    pub fn cloned_and_not(&self, set: &BitSet) -> (r: BitSet)
        ensures
            r@ == and_not_bits(self@, set@),
            !r.is_frozen(),
    {
        let r = self.cloned_combine(set, Combine::Without);
        assert(r@ =~= and_not_bits(self@, set@));
        r
    }

    /// The longer of the two lengths, in words.
    fn longer_len(&self, other: &BitSet) -> (n: usize)
        ensures
            n * 8 == longer(self@, other@),
    {
        let a: usize = self.len();
        let b: usize = other.len();
        if a >= b {
            a
        } else {
            b
        }
    }

    /// Whether no bit is set in both vectors.
    #[must_use]
    pub fn is_disjoint(&self, other: &BitSet) -> (r: bool)
        ensures
            r == disjoint_bits(self@, other@),
    {
        let n: usize = self.longer_len(other);
        let mut w: usize = 0;
        while w < n
            invariant
                w <= n,
                forall|j: int| 0 <= j < 8 * w ==> !(#[trigger] bit_at(self@, j) && bit_at(other@, j)),
            decreases n - w,
        {
            let a: u8 = self.word_or_zero(w);
            let b: u8 = other.word_or_zero(w);
            proof {
                lemma_zero_word(a & b);
                assert forall|k: int| 0 <= k < 8 implies word_bit(a & b, k) == (bit_at(
                    self@,
                    8 * w + k,
                ) && bit_at(other@, 8 * w + k)) by {
                    lemma_bit_of_ops(a, b, k);
                }
            }
            if a & b != 0 {
                proof {
                    let k = choose|k: int| 0 <= k < 8 && word_bit(a & b, k);
                    assert(bit_at(self@, 8 * w + k) && bit_at(other@, 8 * w + k));
                }
                return false;
            }
            proof {
                assert forall|j: int| 0 <= j < 8 * (w + 1) implies !(#[trigger] bit_at(self@, j)
                    && bit_at(other@, j)) by {
                    if j >= 8 * w {
                        let k = j - 8 * w;
                        assert(!word_bit(a & b, k));
                    }
                }
            }
            w += 1;
        }
        proof {
            assert forall|j: int| !(#[trigger] bit_at(self@, j) && bit_at(other@, j)) by {}
        }
        true
    }

    /// Whether every bit set in this vector is set in `other`: whether
    /// removing `other`'s bits from it leaves nothing.
    #[must_use]
    pub fn is_subset(&self, other: &BitSet) -> (r: bool)
        ensures
            r == subset_bits(self@, other@),
    {
        let n: usize = self.longer_len(other);
        let mut w: usize = 0;
        while w < n
            invariant
                w <= n,
                forall|j: int| 0 <= j < 8 * w ==> (#[trigger] bit_at(self@, j) ==> bit_at(other@, j)),
            decreases n - w,
        {
            let a: u8 = self.word_or_zero(w);
            let b: u8 = other.word_or_zero(w);
            proof {
                lemma_zero_word(a & !b);
                assert forall|k: int| 0 <= k < 8 implies word_bit(a & !b, k) == (bit_at(
                    self@,
                    8 * w + k,
                ) && !bit_at(other@, 8 * w + k)) by {
                    lemma_bit_of_ops(b, b, k);
                    lemma_bit_of_ops(a, !b, k);
                }
            }
            if a & !b != 0 {
                proof {
                    let k = choose|k: int| 0 <= k < 8 && word_bit(a & !b, k);
                    assert(bit_at(self@, 8 * w + k) && !bit_at(other@, 8 * w + k));
                }
                return false;
            }
            proof {
                assert forall|j: int| 0 <= j < 8 * (w + 1) && #[trigger] bit_at(self@, j) implies bit_at(
                    other@,
                    j,
                ) by {
                    if j >= 8 * w {
                        let k = j - 8 * w;
                        assert(!word_bit(a & !b, k));
                    }
                }
            }
            w += 1;
        }
        proof {
            assert forall|j: int| #[trigger] bit_at(self@, j) implies bit_at(other@, j) by {}
        }
        true
    }

    /// Whether every bit set in `other` is set in this vector.
    #[must_use]
    pub fn is_superset(&self, other: &BitSet) -> (r: bool)
        ensures
            r == superset_bits(self@, other@),
    {
        other.is_subset(self)
    }
}

impl PartialEq for BitSet {
    /// Equality of the zero-padded bit streams: the lengths and the freeze
    /// states do not count.
    fn eq(&self, other: &Self) -> (r: bool) {
        let n: usize = self.longer_len(other);
        let mut w: usize = 0;
        while w < n
            invariant
                w <= n,
                n * 8 == longer(self@, other@),
                forall|j: int| 0 <= j < 8 * w ==> #[trigger] bit_at(self@, j) == bit_at(other@, j),
            decreases n - w,
        {
            let a: u8 = self.word_or_zero(w);
            let b: u8 = other.word_or_zero(w);
            proof {
                lemma_word_extensional(a, b);
            }
            if a != b {
                proof {
                    let k = choose|k: int| 0 <= k < 8 && word_bit(a, k) != word_bit(b, k);
                    assert(bit_at(self@, 8 * w + k) != bit_at(other@, 8 * w + k));
                }
                return false;
            }
            proof {
                assert forall|j: int| 0 <= j < 8 * (w + 1) implies #[trigger] bit_at(self@, j)
                    == bit_at(other@, j) by {
                    if j >= 8 * w {
                        let k = j - 8 * w;
                        assert(word_bit(a, k) == word_bit(b, k));
                    }
                }
            }
            w += 1;
        }
        proof {
            assert forall|j: int| #[trigger] bit_at(self@, j) == bit_at(other@, j) by {}
        }
        true
    }
}

impl PartialEqSpecImpl for BitSet {
    open spec fn obeys_eq_spec() -> bool {
        true
    }

    open spec fn eq_spec(&self, other: &Self) -> bool {
        same_bits(self@, other@)
    }
}

impl Eq for BitSet {

}

} // verus!
