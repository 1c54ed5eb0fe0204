//! A growable vector of bits packed into words.
//!
//! Bits are addressed by nonnegative indices. Reading beyond the capacity
//! gives `false`; writing beyond it grows the vector, unless the vector is
//! frozen, in which case the write fails and changes nothing.

pub mod algebra;
pub mod convert;
pub mod laws;
pub mod model;
pub mod operators;
pub mod range;
pub mod words;

use vstd::prelude::*;
use self::model::{
    all_clear, all_set, bit_at, bits_of_words, clear_bits, flip_span, grown,
    lemma_bits_of_shorter, lemma_trimmed_fixed, lemma_trimmed_step, set_one, set_span, trimmed,
    whole_words,
};
use self::range::{IndexRange, RangeSpec};
use self::words::{
    lemma_bit_of_constants, lemma_bit_of_ops, lemma_bit_of_single, lemma_bit_of_span_mask,
    lemma_full_word, lemma_zero_word, span_mask, word_bit,
};

verus! {

/// The one way an operation on a [`BitSet`] fails.
#[derive(Debug, Clone, Copy, PartialEq, Eq, Structural)]
pub enum BitSetError {
    /// The operation needs more capacity than the frozen vector has.
    AttemptToGrowFrozen,
}

/// What a ranged write does to each bit of its interval.
#[derive(Clone, Copy)]
enum Paint {
    Fill,
    Erase,
    Invert,
}

/// The vector `g` after `op` was applied to every bit of `start..end`.
spec fn painted(g: Seq<bool>, start: int, end: int, op: Paint) -> Seq<bool> {
    Seq::new(
        g.len(),
        |j: int|
            if start <= j < end {
                match op {
                    Paint::Fill => true,
                    Paint::Erase => false,
                    Paint::Invert => !g[j],
                }
            } else {
                g[j]
            },
    )
}

/// A vector of bits, packed eight to a word, that grows on demand until it
/// is frozen.
#[derive(Debug)]
pub struct BitSet {
    data: Vec<u8>,
    frozen: bool,
}

impl View for BitSet {
    type V = Seq<bool>;

    /// The stored bits, in index order; the length is the capacity.
    open spec fn view(&self) -> Seq<bool> {
        bits_of_words(self.word_seq())
    }
}

impl BitSet {
    /// The number of bits in a word.
    pub const WORD_SIZE: usize = 8;

    /// The capacity in bits fits the machine's index type.
    #[verifier::type_invariant]
    spec fn capacity_fits(self) -> bool {
        self.data.len() * 8 <= usize::MAX
    }

    /// The backing words, low bits first.
    pub closed spec fn word_seq(&self) -> Seq<u8> {
        self.data@
    }

    /// Whether growth is forbidden.
    pub closed spec fn is_frozen(&self) -> bool {
        self.frozen
    }

    /// Bit `i` of the zero-padded stream.
    pub open spec fn bit(&self, i: int) -> bool {
        bit_at(self@, i)
    }

    /// Moves the backing words out and leaves none behind.
    fn take_words(&mut self) -> (data: Vec<u8>)
        ensures
            data@ == old(self).word_seq(),
            data@.len() * 8 <= usize::MAX,
            final(self).word_seq().len() == 0,
            final(self).is_frozen() == old(self).is_frozen(),
    {
        proof {
            use_type_invariant(&*self);
        }
        let mut data: Vec<u8> = Vec::new();
        core::mem::swap(&mut self.data, &mut data);
        data
    }

    /// Installs `data` as the backing words.
    fn put_words(&mut self, data: Vec<u8>)
        requires
            data@.len() * 8 <= usize::MAX,
        ensures
            final(self).word_seq() == data@,
            final(self).is_frozen() == old(self).is_frozen(),
    {
        let mut data = data;
        core::mem::swap(&mut self.data, &mut data);
    }

    /// The vector with the given words and freeze state.
    fn from_words(data: Vec<u8>, frozen: bool) -> (r: Self)
        requires
            data@.len() * 8 <= usize::MAX,
        ensures
            r.word_seq() == data@,
            r.is_frozen() == frozen,
    {
        BitSet { data, frozen }
    }

    /// Creates an empty vector that may grow.
    #[must_use]
    pub fn new() -> (r: Self)
        ensures
            r@.len() == 0,
            !r.is_frozen(),
    {
        BitSet { data: Vec::new(), frozen: false }
    }

    /// Creates a vector that holds at least `nbits` bits, all false: no word
    /// for `nbits == 0`, else `nbits / 8 + 1` words. It is frozen: a size
    /// given in advance is final until the owner says otherwise.
    #[must_use]
    pub fn with_capacity(nbits: usize) -> (r: Self)
        requires
            nbits == 0 || (nbits / 8 + 1) * 8 <= usize::MAX,
        ensures
            r@ == clear_bits(
                if nbits == 0 {
                    0nat
                } else {
                    ((nbits / 8 + 1) * 8) as nat
                },
            ),
            r@.len() >= nbits,
            r.is_frozen(),
    {
        let words: usize = if nbits == 0 {
            0
        } else {
            nbits / 8 + 1
        };
        let data: Vec<u8> = vec![0u8; words];
        let r = BitSet { data, frozen: true };
        proof {
            assert forall|i: int| 0 <= i < r@.len() implies !r@[i] by {
                lemma_bit_of_constants(i % 8);
            }
            assert(r@ =~= clear_bits((words * 8) as nat));
        }
        r
    }

    /// Drops the trailing all-zero words, so that the last word left is not
    /// zero or no word is left; zero words further in stay. A frozen vector
    /// keeps its length, so trimming it changes nothing.
    pub fn trim(&mut self)
        ensures
            old(self).is_frozen() ==> *final(self) == *old(self),
            !old(self).is_frozen() ==> final(self)@ == trimmed(old(self)@),
            final(self).is_frozen() == old(self).is_frozen(),
            old(self).is_frozen() ==> final(self)@.len() == old(self)@.len(),
            final(self)@.len() <= old(self)@.len(),
    {
        if self.frozen {
            return;
        }
        let keep: usize = self.size();
        let mut data: Vec<u8> = self.take_words();
        data.truncate(keep);
        proof {
            lemma_bits_of_shorter(old(self).word_seq(), keep as int);
            assert(data@ == old(self).word_seq().take(keep as int));
            assert(old(self)@.take(8 * keep) =~= trimmed(old(self)@));
        }
        self.put_words(data);
    }

    /// Sets every word to zero; the length stays.
    pub fn flush(&mut self)
        ensures
            final(self)@ == clear_bits(old(self)@.len()),
            final(self).is_frozen() == old(self).is_frozen(),
            old(self).is_frozen() ==> final(self)@.len() == old(self)@.len(),
    {
        let n: usize = self.data.len();
        let mut w: usize = 0;
        while w < n
            invariant
                w <= n,
                n == self.word_seq().len(),
                self@.len() == old(self)@.len(),
                self.is_frozen() == old(self).is_frozen(),
                forall|j: int| 0 <= j < self@.len() && j / 8 < w ==> !self@[j],
            decreases n - w,
        {
            let ghost before = self@;
            self.store_word(w, 0u8);
            proof {
                assert forall|j: int| 0 <= j < self@.len() && j / 8 < w + 1 implies !self@[j] by {
                    if j / 8 == w {
                        lemma_bit_of_constants(j % 8);
                    } else {
                        assert(self@[j] == before[j]);
                    }
                }
            }
            w += 1;
        }
        assert(self@ =~= clear_bits(old(self)@.len()));
    }

    /// Whether no bit is set, whatever the length.
    #[must_use]
    pub fn is_clear(&self) -> (r: bool)
        ensures
            r == all_clear(self@),
    {
        let n: usize = self.data.len();
        let mut w: usize = 0;
        while w < n
            invariant
                w <= n,
                n == self.word_seq().len(),
                forall|j: int| 0 <= j < self@.len() && j / 8 < w ==> !self@[j],
            decreases n - w,
        {
            let cur: u8 = self.word(w);
            proof {
                lemma_zero_word(cur);
            }
            if cur != 0 {
                proof {
                    let k = choose|k: int| 0 <= k < 8 && word_bit(cur, k);
                    assert(self@[8 * w + k]);
                }
                return false;
            }
            w += 1;
        }
        true
    }

    /// Whether every stored bit is set.
    #[must_use]
    pub fn is_full(&self) -> (r: bool)
        ensures
            r == all_set(self@),
    {
        let n: usize = self.data.len();
        let mut w: usize = 0;
        while w < n
            invariant
                w <= n,
                n == self.word_seq().len(),
                forall|j: int| 0 <= j < self@.len() && j / 8 < w ==> self@[j],
            decreases n - w,
        {
            let cur: u8 = self.word(w);
            proof {
                lemma_full_word(cur);
            }
            if cur != 0xFF {
                proof {
                    let k = choose|k: int| 0 <= k < 8 && !word_bit(cur, k);
                    assert(!self@[8 * w + k]);
                }
                return false;
            }
            w += 1;
        }
        true
    }

    /// The length in words without the trailing all-zero words.
    #[must_use]
    pub fn size(&self) -> (r: usize)
        ensures
            r * 8 == trimmed(self@).len(),
            trimmed(self@) == self@.take(8 * r),
            r <= self.word_seq().len(),
    {
        let mut size: usize = self.data.len();
        proof {
            assert(self.word_seq().take(size as int) =~= self.word_seq());
        }
        while size > 0 && self.data[size - 1] == 0
            invariant
                size <= self.word_seq().len(),
                trimmed(self@) == trimmed(bits_of_words(self.word_seq().take(size as int))),
            decreases size,
        {
            proof {
                let ws = self.word_seq().take(size as int);
                lemma_trimmed_step(ws);
                assert(ws.drop_last() =~= self.word_seq().take(size - 1));
            }
            size -= 1;
        }
        proof {
            let ws = self.word_seq().take(size as int);
            lemma_trimmed_fixed(ws);
            lemma_bits_of_shorter(self.word_seq(), size as int);
        }
        size
    }

    /// The index of the word that holds bit `ibit`.
    #[must_use]
    pub fn word_index(ibit: usize) -> (r: usize)
        ensures
            r == ibit / 8,
    {
        ibit / Self::WORD_SIZE
    }

    /// Forbids growth.
    pub fn freeze(&mut self)
        ensures
            final(self)@ == old(self)@,
            final(self).is_frozen(),
    {
        proof {
            use_type_invariant(&*self);
        }
        self.frozen = true;
    }

    /// Allows growth again.
    pub fn unfreeze(&mut self)
        ensures
            final(self)@ == old(self)@,
            !final(self).is_frozen(),
    {
        proof {
            use_type_invariant(&*self);
        }
        self.frozen = false;
    }

    /// The length in words, trailing zero words included.
    #[must_use]
    pub fn len(&self) -> (r: usize)
        ensures
            r * 8 == self@.len(),
    {
        self.data.len()
    }

    /// The backing words, the word of the lowest bits first.
    #[must_use]
    pub fn as_words(&self) -> (r: &Vec<u8>)
        ensures
            r@ == self.word_seq(),
    {
        &self.data
    }

    /// The capacity in bits.
    #[must_use]
    pub fn capacity(&self) -> (r: usize)
        ensures
            r == self@.len(),
    {
        proof {
            use_type_invariant(self);
        }
        self.data.len() * Self::WORD_SIZE
    }

    /// Whether the vector has no capacity at all, which is not the same as
    /// having no bit set.
    #[must_use]
    pub fn is_empty(&self) -> (r: bool)
        ensures
            r == (self@.len() == 0),
    {
        self.data.len() == 0
    }

    /// Grows the vector to hold at least `capacity` bits, in whole words.
    /// Nothing happens where it already does. A frozen vector that would
    /// have to grow is left as it is, and the call fails.
    pub fn grow_to_size(&mut self, capacity: usize) -> (r: Result<(), BitSetError>)
        requires
            whole_words(capacity as int) <= usize::MAX,
        ensures
            r.is_ok() <==> (capacity <= old(self)@.len() || !old(self).is_frozen()),
            r.is_ok() ==> final(self)@ == grown(old(self)@, capacity as int),
            r.is_ok() ==> final(self)@.len() >= capacity,
            r.is_err() ==> *final(self) == *old(self),
            r.is_err() ==> r == Err::<(), BitSetError>(BitSetError::AttemptToGrowFrozen),
            final(self).is_frozen() == old(self).is_frozen(),
            old(self).is_frozen() ==> final(self)@.len() == old(self)@.len(),
            final(self)@.len() >= old(self)@.len(),
    {
        proof {
            use_type_invariant(&*self);
        }
        let have: usize = self.data.len();
        if capacity <= have * 8 {
            return Ok(());
        }
        if self.frozen {
            return Err(BitSetError::AttemptToGrowFrozen);
        }
        let need: usize = if capacity % 8 == 0 {
            capacity / 8
        } else {
            capacity / 8 + 1
        };
        assert(need * 8 == whole_words(capacity as int));
        let mut data: Vec<u8> = self.take_words();
        data.resize(need, 0u8);
        self.put_words(data);
        proof {
            let before = old(self)@;
            let after = self@;
            let want = grown(before, capacity as int);
            assert(after.len() == want.len());
            assert forall|i: int| 0 <= i < after.len() implies after[i] == want[i] by {
                if i / 8 < have {
                    assert(self.data@.subrange(0, have as int)[i / 8] == self.data@[i / 8]);
                } else {
                    lemma_bit_of_constants(i % 8);
                }
            }
            assert(after =~= want);
        }
        Ok(())
    }

    /// Grows the vector by `nbits` bits beyond its capacity; `grow(0)` does
    /// nothing.
    pub fn grow(&mut self, nbits: usize) -> (r: Result<(), BitSetError>)
        requires
            whole_words(old(self)@.len() + nbits) <= usize::MAX,
        ensures
            r.is_ok() <==> (nbits == 0 || !old(self).is_frozen()),
            r.is_ok() ==> final(self)@ == grown(old(self)@, old(self)@.len() + nbits),
            r.is_err() ==> *final(self) == *old(self),
            r.is_err() ==> r == Err::<(), BitSetError>(BitSetError::AttemptToGrowFrozen),
            final(self).is_frozen() == old(self).is_frozen(),
            old(self).is_frozen() ==> final(self)@.len() == old(self)@.len(),
            final(self)@.len() >= old(self)@.len(),
    {
        if nbits == 0 {
            return Ok(());
        }
        let target: usize = self.capacity() + nbits;
        self.grow_to_size(target)
    }

    /// Reads bit `bit_index`; beyond the capacity every bit reads as false.
    #[must_use]
    pub fn get(&self, bit_index: usize) -> (r: bool)
        ensures
            r == self.bit(bit_index as int),
    {
        let index: usize = bit_index / 8;
        if index < self.data.len() {
            let w: u8 = self.data[index];
            let k: usize = bit_index % 8;
            (w >> k) & 1 == 1
        } else {
            false
        }
    }

    /// Reads word `w`.
    fn word(&self, w: usize) -> (r: u8)
        requires
            w < self.word_seq().len(),
        ensures
            r == self.word_seq()[w as int],
    {
        self.data[w]
    }

    /// Reads word `w`, or zero where the vector has no such word: the
    /// eight bits of the zero-padded stream from bit `8 * w` on.
    fn word_or_zero(&self, w: usize) -> (r: u8)
        ensures
            forall|k: int| 0 <= k < 8 ==> word_bit(r, k) == bit_at(self@, 8 * w + k),
    {
        if w < self.data.len() {
            let r: u8 = self.data[w];
            proof {
                assert forall|k: int| 0 <= k < 8 implies word_bit(r, k) == bit_at(
                    self@,
                    8 * w + k,
                ) by {
                    assert((8 * w + k) / 8 == w && (8 * w + k) % 8 == k);
                }
            }
            r
        } else {
            proof {
                assert forall|k: int| 0 <= k < 8 implies word_bit(0u8, k) == bit_at(
                    self@,
                    8 * w + k,
                ) by {
                    lemma_bit_of_constants(k);
                }
            }
            0u8
        }
    }

    /// Overwrites word `w`.
    fn store_word(&mut self, w: usize, new: u8)
        requires
            w < old(self).word_seq().len(),
        ensures
            final(self).word_seq() == old(self).word_seq().update(w as int, new),
            final(self).is_frozen() == old(self).is_frozen(),
    {
        proof {
            use_type_invariant(&*self);
        }
        self.data[w] = new;
    }

    /// The word with exactly the bits `lo..hi` set.
    fn mask(lo: usize, hi: usize) -> (m: u8)
        requires
            lo < hi <= 8,
        ensures
            m == span_mask(lo as int, hi as int),
    {
        (0xFFu8 << lo) & (0xFFu8 >> (8 - hi))
    }

    /// Writes one bit: grows to hold it, ORs it in and, for `false`, XORs
    /// it out again.
    fn set_point(&mut self, i: usize, to: bool) -> (r: Result<(), BitSetError>)
        requires
            whole_words(i + 1) <= usize::MAX,
        ensures
            r.is_ok() <==> (i < old(self)@.len() || !old(self).is_frozen()),
            r.is_ok() ==> final(self)@ == set_one(old(self)@, i as int, to),
            r.is_err() ==> *final(self) == *old(self),
            r.is_err() ==> r == Err::<(), BitSetError>(BitSetError::AttemptToGrowFrozen),
            final(self).is_frozen() == old(self).is_frozen(),
            old(self).is_frozen() ==> final(self)@.len() == old(self)@.len(),
    {
        match self.grow_to_size(i + 1) {
            Err(e) => {
                return Err(e);
            },
            Ok(()) => {},
        }
        let ghost g = self@;
        let w: usize = i / 8;
        let pattern: u8 = 1u8 << (i % 8);
        let cur: u8 = self.word(w);
        let new: u8 = if to {
            cur | pattern
        } else {
            (cur | pattern) ^ pattern
        };
        self.store_word(w, new);
        proof {
            let want = set_one(old(self)@, i as int, to);
            assert forall|j: int| 0 <= j < want.len() implies self@[j] == want[j] by {
                if j / 8 == w {
                    lemma_bit_of_single((i % 8) as int, j % 8);
                    lemma_bit_of_ops(cur, pattern, j % 8);
                    lemma_bit_of_ops(cur | pattern, pattern, j % 8);
                }
            }
            assert(self@ =~= want);
        }
        Ok(())
    }

    /// Applies `op` to the bits `start..end`, a word at a time: the vector
    /// grows to `end` bits, then each word that the interval reaches is
    /// combined with the mask of the interval's bits in it.
    fn paint(&mut self, start: usize, end: usize, op: Paint) -> (r: Result<(), BitSetError>)
        requires
            whole_words(end as int) <= usize::MAX,
        ensures
            r.is_ok() <==> (end <= old(self)@.len() || !old(self).is_frozen()),
            r.is_ok() ==> final(self)@ == painted(
                grown(old(self)@, end as int),
                start as int,
                end as int,
                op,
            ),
            r.is_err() ==> *final(self) == *old(self),
            r.is_err() ==> r == Err::<(), BitSetError>(BitSetError::AttemptToGrowFrozen),
            final(self).is_frozen() == old(self).is_frozen(),
            old(self).is_frozen() ==> final(self)@.len() == old(self)@.len(),
    {
        match self.grow_to_size(end) {
            Err(e) => {
                return Err(e);
            },
            Ok(()) => {},
        }
        let ghost g = self@;
        if start >= end {
            assert(self@ =~= painted(g, start as int, end as int, op));
            return Ok(());
        }
        let first: usize = start / 8;
        let last: usize = (end - 1) / 8;
        let mut w: usize = first;
        while w <= last
            invariant
                start < end <= g.len(),
                first == start / 8,
                last == (end - 1) / 8,
                first <= w <= last + 1,
                self@.len() == g.len(),
                self.is_frozen() == old(self).is_frozen(),
                forall|j: int|
                    0 <= j < g.len() ==> self@[j] == if j / 8 < w {
                        painted(g, start as int, end as int, op)[j]
                    } else {
                        g[j]
                    },
            decreases last + 1 - w,
        {
            let lo: usize = if w == first {
                start % 8
            } else {
                0
            };
            let hi: usize = if w == last {
                (end - 1) % 8 + 1
            } else {
                8
            };
            let mask: u8 = Self::mask(lo, hi);
            let cur: u8 = self.word(w);
            let new: u8 = match op {
                Paint::Fill => cur | mask,
                Paint::Erase => (cur | mask) ^ mask,
                Paint::Invert => cur ^ mask,
            };
            let ghost before = self@;
            self.store_word(w, new);
            proof {
                assert forall|j: int| 0 <= j < g.len() implies self@[j] == if j / 8 < w + 1 {
                    painted(g, start as int, end as int, op)[j]
                } else {
                    g[j]
                } by {
                    assert(before[j] == if j / 8 < w {
                        painted(g, start as int, end as int, op)[j]
                    } else {
                        g[j]
                    });
                    if j / 8 == w {
                        let k = j % 8;
                        lemma_bit_of_span_mask(lo as int, hi as int, k);
                        lemma_bit_of_ops(cur, mask, k);
                        lemma_bit_of_ops(cur | mask, mask, k);
                        assert((lo <= k < hi) == (start <= j < end));
                    }
                }
            }
            w += 1;
        }
        assert(self@ =~= painted(g, start as int, end as int, op));
        Ok(())
    }

    /// Sets every bit of `start..end` to `to`, growing the vector to `end`
    /// bits first. An interval with `start >= end` holds no bit.
    pub fn set_range(&mut self, start: usize, end: usize, to: bool) -> (r: Result<(), BitSetError>)
        requires
            whole_words(end as int) <= usize::MAX,
        ensures
            r.is_ok() <==> (end <= old(self)@.len() || !old(self).is_frozen()),
            r.is_ok() ==> final(self)@ == set_span(old(self)@, start as int, end as int, to),
            r.is_err() ==> *final(self) == *old(self),
            r.is_err() ==> r == Err::<(), BitSetError>(BitSetError::AttemptToGrowFrozen),
            final(self).is_frozen() == old(self).is_frozen(),
            old(self).is_frozen() ==> final(self)@.len() == old(self)@.len(),
    {
        let op = if to {
            Paint::Fill
        } else {
            Paint::Erase
        };
        let r = self.paint(start, end, op);
        proof {
            if r.is_ok() {
                assert(self@ =~= set_span(old(self)@, start as int, end as int, to));
            }
        }
        r
    }

    /// Sets every bit of `start..end`.
    pub fn insert_range(&mut self, start: usize, end: usize) -> (r: Result<(), BitSetError>)
        requires
            whole_words(end as int) <= usize::MAX,
        ensures
            r.is_ok() <==> (end <= old(self)@.len() || !old(self).is_frozen()),
            r.is_ok() ==> final(self)@ == set_span(old(self)@, start as int, end as int, true),
            r.is_err() ==> *final(self) == *old(self),
            r.is_err() ==> r == Err::<(), BitSetError>(BitSetError::AttemptToGrowFrozen),
            final(self).is_frozen() == old(self).is_frozen(),
            old(self).is_frozen() ==> final(self)@.len() == old(self)@.len(),
    {
        self.set_range(start, end, true)
    }

    /// Clears every bit of `start..end`.
    pub fn clear_range(&mut self, start: usize, end: usize) -> (r: Result<(), BitSetError>)
        requires
            whole_words(end as int) <= usize::MAX,
        ensures
            r.is_ok() <==> (end <= old(self)@.len() || !old(self).is_frozen()),
            r.is_ok() ==> final(self)@ == set_span(old(self)@, start as int, end as int, false),
            r.is_err() ==> *final(self) == *old(self),
            r.is_err() ==> r == Err::<(), BitSetError>(BitSetError::AttemptToGrowFrozen),
            final(self).is_frozen() == old(self).is_frozen(),
            old(self).is_frozen() ==> final(self)@.len() == old(self)@.len(),
    {
        self.set_range(start, end, false)
    }

    /// Inverts every bit of `start..end`, growing the vector to `end` bits
    /// first.
    pub fn flip_range(&mut self, start: usize, end: usize) -> (r: Result<(), BitSetError>)
        requires
            whole_words(end as int) <= usize::MAX,
        ensures
            r.is_ok() <==> (end <= old(self)@.len() || !old(self).is_frozen()),
            r.is_ok() ==> final(self)@ == flip_span(old(self)@, start as int, end as int),
            r.is_err() ==> *final(self) == *old(self),
            r.is_err() ==> r == Err::<(), BitSetError>(BitSetError::AttemptToGrowFrozen),
            final(self).is_frozen() == old(self).is_frozen(),
            old(self).is_frozen() ==> final(self)@.len() == old(self)@.len(),
    {
        let r = self.paint(start, end, Paint::Invert);
        proof {
            if r.is_ok() {
                assert(self@ =~= flip_span(old(self)@, start as int, end as int));
            }
        }
        r
    }

    /// Sets the addressed bit or bits to `to`. The vector first grows to
    /// hold the last addressed bit; where it is frozen and would have to
    /// grow, the call fails and nothing changes.
    pub fn set<I: IndexRange>(&mut self, index: I, to: bool) -> (r: Result<(), BitSetError>)
        requires
            whole_words(index.shape().demand()) <= usize::MAX,
        ensures
            r.is_ok() <==> (index.shape().past_end(old(self)@.len() as int) <= old(self)@.len()
                || !old(self).is_frozen()),
            r.is_ok() ==> final(self)@ == set_span(
                old(self)@,
                index.shape().first(),
                index.shape().past_end(old(self)@.len() as int),
                to,
            ),
            r.is_err() ==> *final(self) == *old(self),
            r.is_err() ==> r == Err::<(), BitSetError>(BitSetError::AttemptToGrowFrozen),
            final(self).is_frozen() == old(self).is_frozen(),
            old(self).is_frozen() ==> final(self)@.len() == old(self)@.len(),
    {
        let shape = index.range_spec();
        match shape {
            RangeSpec::Point(i) => {
                let r = self.set_point(i, to);
                proof {
                    if r.is_ok() {
                        assert(self@ =~= set_span(old(self)@, i as int, i + 1, to));
                    }
                }
                r
            },
            _ => {
                let (start, end) = self.half_open(shape);
                self.set_range(start, end, to)
            },
        }
    }

    /// The half-open interval of a shape on this vector.
    fn half_open(&self, shape: RangeSpec) -> (r: (usize, usize))
        requires
            whole_words(shape.demand()) <= usize::MAX,
        ensures
            r.0 == shape.first(),
            r.1 == shape.past_end(self@.len() as int),
            whole_words(r.1 as int) <= usize::MAX,
    {
        let (start, end, inclusive) = shape.resolve(self.capacity());
        if inclusive {
            (start, end + 1)
        } else {
            (start, end)
        }
    }

    /// Sets the addressed bit or bits.
    pub fn insert<I: IndexRange>(&mut self, index: I) -> (r: Result<(), BitSetError>)
        requires
            whole_words(index.shape().demand()) <= usize::MAX,
        ensures
            r.is_ok() <==> (index.shape().past_end(old(self)@.len() as int) <= old(self)@.len()
                || !old(self).is_frozen()),
            r.is_ok() ==> final(self)@ == set_span(
                old(self)@,
                index.shape().first(),
                index.shape().past_end(old(self)@.len() as int),
                true,
            ),
            r.is_err() ==> *final(self) == *old(self),
            r.is_err() ==> r == Err::<(), BitSetError>(BitSetError::AttemptToGrowFrozen),
            final(self).is_frozen() == old(self).is_frozen(),
            old(self).is_frozen() ==> final(self)@.len() == old(self)@.len(),
    {
        self.set(index, true)
    }

    /// Clears the addressed bit or bits.
    pub fn clear<I: IndexRange>(&mut self, index: I) -> (r: Result<(), BitSetError>)
        requires
            whole_words(index.shape().demand()) <= usize::MAX,
        ensures
            r.is_ok() <==> (index.shape().past_end(old(self)@.len() as int) <= old(self)@.len()
                || !old(self).is_frozen()),
            r.is_ok() ==> final(self)@ == set_span(
                old(self)@,
                index.shape().first(),
                index.shape().past_end(old(self)@.len() as int),
                false,
            ),
            r.is_err() ==> *final(self) == *old(self),
            r.is_err() ==> r == Err::<(), BitSetError>(BitSetError::AttemptToGrowFrozen),
            final(self).is_frozen() == old(self).is_frozen(),
            old(self).is_frozen() ==> final(self)@.len() == old(self)@.len(),
    {
        self.set(index, false)
    }

    /// Inverts the addressed bit or bits; a single bit `i` ends as
    /// `set(i, !get(i))` leaves it.
    pub fn flip<I: IndexRange>(&mut self, index: I) -> (r: Result<(), BitSetError>)
        requires
            whole_words(index.shape().demand()) <= usize::MAX,
        ensures
            r.is_ok() <==> (index.shape().past_end(old(self)@.len() as int) <= old(self)@.len()
                || !old(self).is_frozen()),
            r.is_ok() ==> final(self)@ == flip_span(
                old(self)@,
                index.shape().first(),
                index.shape().past_end(old(self)@.len() as int),
            ),
            r.is_err() ==> *final(self) == *old(self),
            r.is_err() ==> r == Err::<(), BitSetError>(BitSetError::AttemptToGrowFrozen),
            final(self).is_frozen() == old(self).is_frozen(),
            old(self).is_frozen() ==> final(self)@.len() == old(self)@.len(),
    {
        let shape = index.range_spec();
        match shape {
            RangeSpec::Point(i) => {
                let value = !self.get(i);
                let r = self.set_point(i, value);
                proof {
                    if r.is_ok() {
                        assert(self@ =~= flip_span(old(self)@, i as int, i + 1));
                    }
                }
                r
            },
            _ => {
                let (start, end) = self.half_open(shape);
                self.flip_range(start, end)
            },
        }
    }

    /// Sets bit `bit_index` to `to` and gives the value that it had, which
    /// is `false` beyond the capacity.
    pub fn put(&mut self, bit_index: usize, to: bool) -> (r: Result<bool, BitSetError>)
        requires
            whole_words(bit_index + 1) <= usize::MAX,
        ensures
            r.is_ok() <==> (bit_index < old(self)@.len() || !old(self).is_frozen()),
            r.is_ok() ==> r == Ok::<bool, BitSetError>(old(self).bit(bit_index as int)),
            r.is_ok() ==> final(self)@ == set_one(old(self)@, bit_index as int, to),
            r.is_err() ==> *final(self) == *old(self),
            r.is_err() ==> r == Err::<bool, BitSetError>(BitSetError::AttemptToGrowFrozen),
            final(self).is_frozen() == old(self).is_frozen(),
            old(self).is_frozen() ==> final(self)@.len() == old(self)@.len(),
    {
        let previous = self.get(bit_index);
        match self.set_point(bit_index, to) {
            Ok(()) => Ok(previous),
            Err(e) => Err(e),
        }
    }
}

impl Default for BitSet {
    /// The empty vector that may grow.
    fn default() -> (r: Self)
        ensures
            r@.len() == 0,
            !r.is_frozen(),
    {
        BitSet::new()
    }
}

impl Clone for BitSet {
    /// A copy with the same words and the same freeze state.
    fn clone(&self) -> (r: Self)
        ensures
            r@ == self@,
            r.is_frozen() == self.is_frozen(),
    {
        proof {
            use_type_invariant(self);
        }
        let data: Vec<u8> = self.data.clone();
        assert(data@ =~= self.data@);
        BitSet { data, frozen: self.frozen }
    }
}

} // verus!
