//! The operators `&`, `|`, `^` and `!` on bit vectors. The binary ones
//! never fail: they work on an unfrozen copy of the left operand.

use vstd::prelude::*;
use vstd::std_specs::ops::{BitAndSpecImpl, BitOrSpecImpl, BitXorSpecImpl, NotSpecImpl};
use core::ops::{BitAnd, BitOr, BitXor, Not};
use super::model::{and_bits, not_bits, or_bits, xor_bits};
use super::words::lemma_bit_of_ops;
use super::BitSet;

verus! {

impl BitSet {
    /// Inverts every stored bit; the length and the freeze state stay.
    fn invert(&mut self)
        ensures
            final(self)@ == not_bits(old(self)@),
            final(self).is_frozen() == old(self).is_frozen(),
    {
        let n: usize = self.len();
        let mut w: usize = 0;
        while w < n
            invariant
                w <= n,
                n == self.word_seq().len(),
                self@.len() == old(self)@.len(),
                self.is_frozen() == old(self).is_frozen(),
                forall|j: int|
                    0 <= j < self@.len() ==> self@[j] == if j / 8 < w {
                        !old(self)@[j]
                    } else {
                        old(self)@[j]
                    },
            decreases n - w,
        {
            let cur: u8 = self.word(w);
            let ghost before = self@;
            self.store_word(w, !cur);
            proof {
                assert forall|j: int| 0 <= j < self@.len() implies self@[j] == if j / 8 < w + 1 {
                    !old(self)@[j]
                } else {
                    old(self)@[j]
                } by {
                    assert(before[j] == if j / 8 < w {
                        !old(self)@[j]
                    } else {
                        old(self)@[j]
                    });
                    if j / 8 == w {
                        lemma_bit_of_ops(cur, cur, j % 8);
                    }
                }
            }
            w += 1;
        }
        assert(self@ =~= not_bits(old(self)@));
    }
}

impl BitAnd for BitSet {
    type Output = BitSet;

    /// The AND of the two vectors as a new, unfrozen vector.
    fn bitand(self, rhs: BitSet) -> (r: BitSet)
        ensures
            r@ == and_bits(self@, rhs@),
            !r.is_frozen(),
    {
        self.cloned_and(&rhs)
    }
}

/// What `bitand` returns is stated by its own `ensures`, over the views:
/// two vectors with the same bits need not be the same value, so none is
/// singled out as the result.
impl BitAndSpecImpl for BitSet {
    open spec fn obeys_bitand_spec() -> bool {
        false
    }

    open spec fn bitand_req(self, rhs: BitSet) -> bool {
        true
    }

    open spec fn bitand_spec(self, rhs: BitSet) -> BitSet {
        choose|r: BitSet| r@ == and_bits(self@, rhs@) && !r.is_frozen()
    }
}

impl BitAnd<&BitSet> for BitSet {
    type Output = BitSet;

    /// The AND of the vector and the borrowed one as a new, unfrozen vector.
    fn bitand(self, rhs: &BitSet) -> (r: BitSet)
        ensures
            r@ == and_bits(self@, rhs@),
            !r.is_frozen(),
    {
        self.cloned_and(rhs)
    }
}

/// What `bitand` returns is stated by its own `ensures`, over the views:
/// two vectors with the same bits need not be the same value, so none is
/// singled out as the result.
impl BitAndSpecImpl<&BitSet> for BitSet {
    open spec fn obeys_bitand_spec() -> bool {
        false
    }

    open spec fn bitand_req(self, rhs: &BitSet) -> bool {
        true
    }

    open spec fn bitand_spec(self, rhs: &BitSet) -> BitSet {
        choose|r: BitSet| r@ == and_bits(self@, rhs@) && !r.is_frozen()
    }
}

impl BitOr for BitSet {
    type Output = BitSet;

    /// The OR of the two vectors as a new, unfrozen vector.
    fn bitor(self, rhs: BitSet) -> (r: BitSet)
        ensures
            r@ == or_bits(self@, rhs@),
            !r.is_frozen(),
    {
        self.cloned_or(&rhs)
    }
}

/// What `bitor` returns is stated by its own `ensures`, over the views:
/// two vectors with the same bits need not be the same value, so none is
/// singled out as the result.
impl BitOrSpecImpl for BitSet {
    open spec fn obeys_bitor_spec() -> bool {
        false
    }

    open spec fn bitor_req(self, rhs: BitSet) -> bool {
        true
    }

    open spec fn bitor_spec(self, rhs: BitSet) -> BitSet {
        choose|r: BitSet| r@ == or_bits(self@, rhs@) && !r.is_frozen()
    }
}

impl BitOr<&BitSet> for BitSet {
    type Output = BitSet;

    /// The OR of the vector and the borrowed one as a new, unfrozen vector.
    fn bitor(self, rhs: &BitSet) -> (r: BitSet)
        ensures
            r@ == or_bits(self@, rhs@),
            !r.is_frozen(),
    {
        self.cloned_or(rhs)
    }
}

/// What `bitor` returns is stated by its own `ensures`, over the views:
/// two vectors with the same bits need not be the same value, so none is
/// singled out as the result.
impl BitOrSpecImpl<&BitSet> for BitSet {
    open spec fn obeys_bitor_spec() -> bool {
        false
    }

    open spec fn bitor_req(self, rhs: &BitSet) -> bool {
        true
    }

    open spec fn bitor_spec(self, rhs: &BitSet) -> BitSet {
        choose|r: BitSet| r@ == or_bits(self@, rhs@) && !r.is_frozen()
    }
}

impl BitXor for BitSet {
    type Output = BitSet;

    /// The XOR of the two vectors as a new, unfrozen vector.
    fn bitxor(self, rhs: BitSet) -> (r: BitSet)
        ensures
            r@ == xor_bits(self@, rhs@),
            !r.is_frozen(),
    {
        self.cloned_xor(&rhs)
    }
}

/// What `bitxor` returns is stated by its own `ensures`, over the views:
/// two vectors with the same bits need not be the same value, so none is
/// singled out as the result.
impl BitXorSpecImpl for BitSet {
    open spec fn obeys_bitxor_spec() -> bool {
        false
    }

    open spec fn bitxor_req(self, rhs: BitSet) -> bool {
        true
    }

    open spec fn bitxor_spec(self, rhs: BitSet) -> BitSet {
        choose|r: BitSet| r@ == xor_bits(self@, rhs@) && !r.is_frozen()
    }
}

impl BitXor<&BitSet> for BitSet {
    type Output = BitSet;

    /// The XOR of the vector and the borrowed one as a new, unfrozen vector.
    fn bitxor(self, rhs: &BitSet) -> (r: BitSet)
        ensures
            r@ == xor_bits(self@, rhs@),
            !r.is_frozen(),
    {
        self.cloned_xor(rhs)
    }
}

/// What `bitxor` returns is stated by its own `ensures`, over the views:
/// two vectors with the same bits need not be the same value, so none is
/// singled out as the result.
impl BitXorSpecImpl<&BitSet> for BitSet {
    open spec fn obeys_bitxor_spec() -> bool {
        false
    }

    open spec fn bitxor_req(self, rhs: &BitSet) -> bool {
        true
    }

    open spec fn bitxor_spec(self, rhs: &BitSet) -> BitSet {
        choose|r: BitSet| r@ == xor_bits(self@, rhs@) && !r.is_frozen()
    }
}

impl Not for BitSet {
    type Output = BitSet;

    /// The vector with every stored bit inverted.
    fn not(self) -> (r: BitSet)
        ensures
            r@ == not_bits(self@),
            r.is_frozen() == self.is_frozen(),
    {
        let mut r: BitSet = self;
        r.invert();
        r
    }
}

/// What `not` returns is stated by its own `ensures`, over the views:
/// two vectors with the same bits need not be the same value, so none is
/// singled out as the result.
impl NotSpecImpl for BitSet {
    open spec fn obeys_not_spec() -> bool {
        false
    }

    open spec fn not_req(self) -> bool {
        true
    }

    open spec fn not_spec(self) -> BitSet {
        choose|r: BitSet| r@ == not_bits(self@) && r.is_frozen() == self.is_frozen()
    }
}

impl Not for &BitSet {
    type Output = BitSet;

    /// A copy of the vector with every stored bit inverted.
    fn not(self) -> (r: BitSet)
        ensures
            r@ == not_bits(self@),
            r.is_frozen() == self.is_frozen(),
    {
        let mut r: BitSet = self.clone();
        r.invert();
        r
    }
}

/// What `not` returns is stated by its own `ensures`, over the views:
/// two vectors with the same bits need not be the same value, so none is
/// singled out as the result.
impl NotSpecImpl for &BitSet {
    open spec fn obeys_not_spec() -> bool {
        false
    }

    open spec fn not_req(self) -> bool {
        true
    }

    open spec fn not_spec(self) -> BitSet {
        choose|r: BitSet| r@ == not_bits(self@) && r.is_frozen() == self.is_frozen()
    }
}

} // verus!
