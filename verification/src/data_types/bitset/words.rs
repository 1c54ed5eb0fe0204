//! Facts about single storage words: which bits the word operations set.

use vstd::prelude::*;

verus! {

/// Whether bit `k` of the word `w` is set; bit 0 is the least significant one.
pub open spec fn word_bit(w: u8, k: int) -> bool {
    (w >> (k as u8)) & 1u8 == 1u8
}

/// The word whose set bits are exactly those at the offsets `lo..hi`.
pub open spec fn span_mask(lo: int, hi: int) -> u8 {
    if lo < hi {
        (0xFFu8 << (lo as u8)) & (0xFFu8 >> ((8 - hi) as u8))
    } else {
        0u8
    }
}

/// No bit of the zero word is set, and every bit of the all-ones word is.
pub proof fn lemma_constant_words(k: u8)
    by (bit_vector)
    requires
        k < 8,
    ensures
        (0u8 >> k) & 1u8 != 1u8,
        (0xFFu8 >> k) & 1u8 == 1u8,
{
}

/// Bit by bit, `|` is "or", `&` is "and", `^` is "differs" and `!` is "not".
pub proof fn lemma_word_ops(a: u8, b: u8, k: u8)
    by (bit_vector)
    requires
        k < 8,
    ensures
        ((a | b) >> k) & 1u8 == 1u8 <==> ((a >> k) & 1u8 == 1u8 || (b >> k) & 1u8 == 1u8),
        ((a & b) >> k) & 1u8 == 1u8 <==> ((a >> k) & 1u8 == 1u8 && (b >> k) & 1u8 == 1u8),
        ((a ^ b) >> k) & 1u8 == 1u8 <==> ((a >> k) & 1u8 == 1u8) != ((b >> k) & 1u8 == 1u8),
        ((!a) >> k) & 1u8 == 1u8 <==> (a >> k) & 1u8 != 1u8,
{
}

/// The bits of `1 << j` and of the span mask for `lo..hi`.
pub proof fn lemma_mask_words(lo: u8, hi: u8, j: u8, k: u8)
    by (bit_vector)
    requires
        k < 8,
        j < 8,
        lo < hi <= 8,
    ensures
        ((1u8 << j) >> k) & 1u8 == 1u8 <==> k == j,
        (((0xFFu8 << lo) & (0xFFu8 >> ((8u8 - hi) as u8))) >> k) & 1u8 == 1u8 <==> lo <= k < hi,
{
}

/// Two words with the same bits are the same word.
pub proof fn lemma_word_from_bits(a: u8, b: u8)
    by (bit_vector)
    requires
        (a >> 0u8) & 1u8 == (b >> 0u8) & 1u8,
        (a >> 1u8) & 1u8 == (b >> 1u8) & 1u8,
        (a >> 2u8) & 1u8 == (b >> 2u8) & 1u8,
        (a >> 3u8) & 1u8 == (b >> 3u8) & 1u8,
        (a >> 4u8) & 1u8 == (b >> 4u8) & 1u8,
        (a >> 5u8) & 1u8 == (b >> 5u8) & 1u8,
        (a >> 6u8) & 1u8 == (b >> 6u8) & 1u8,
        (a >> 7u8) & 1u8 == (b >> 7u8) & 1u8,
    ensures
        a == b,
{
}

/// A shifted word masked with 1 is 0 or 1.
pub proof fn lemma_bit_is_binary(a: u8, k: u8)
    by (bit_vector)
    requires
        k < 8,
    ensures
        (a >> k) & 1u8 == 0u8 || (a >> k) & 1u8 == 1u8,
{
}

/// `word_bit` of the constant words.
pub proof fn lemma_bit_of_constants(k: int)
    requires
        0 <= k < 8,
    ensures
        !word_bit(0u8, k),
        word_bit(0xFFu8, k),
{
    lemma_constant_words(k as u8);
}

/// `word_bit` of the results of the four word operations.
pub proof fn lemma_bit_of_ops(a: u8, b: u8, k: int)
    requires
        0 <= k < 8,
    ensures
        word_bit(a | b, k) == (word_bit(a, k) || word_bit(b, k)),
        word_bit(a & b, k) == (word_bit(a, k) && word_bit(b, k)),
        word_bit(a ^ b, k) == (word_bit(a, k) != word_bit(b, k)),
        word_bit(!a, k) == !word_bit(a, k),
{
    lemma_word_ops(a, b, k as u8);
}

/// `word_bit` of a single-bit word.
pub proof fn lemma_bit_of_single(j: int, k: int)
    requires
        0 <= j < 8,
        0 <= k < 8,
    ensures
        word_bit(1u8 << (j as u8), k) == (k == j),
{
    lemma_mask_words(0, 8, j as u8, k as u8);
}

/// `word_bit` of a span mask.
pub proof fn lemma_bit_of_span_mask(lo: int, hi: int, k: int)
    requires
        0 <= lo <= 8,
        0 <= hi <= 8,
        0 <= k < 8,
    ensures
        word_bit(span_mask(lo, hi), k) == (lo <= k < hi),
{
    if lo < hi {
        lemma_mask_words(lo as u8, hi as u8, 0, k as u8);
        assert((8 - hi) as u8 == (8u8 - (hi as u8)) as u8);
    } else {
        lemma_constant_words(k as u8);
    }
}

/// Words are equal exactly when all their bits are.
pub proof fn lemma_word_extensional(a: u8, b: u8)
    ensures
        a == b <==> forall|k: int| 0 <= k < 8 ==> word_bit(a, k) == word_bit(b, k),
{
    if forall|k: int| 0 <= k < 8 ==> word_bit(a, k) == word_bit(b, k) {
        assert(word_bit(a, 0) == word_bit(b, 0));
        assert(word_bit(a, 1) == word_bit(b, 1));
        assert(word_bit(a, 2) == word_bit(b, 2));
        assert(word_bit(a, 3) == word_bit(b, 3));
        assert(word_bit(a, 4) == word_bit(b, 4));
        assert(word_bit(a, 5) == word_bit(b, 5));
        assert(word_bit(a, 6) == word_bit(b, 6));
        assert(word_bit(a, 7) == word_bit(b, 7));
        lemma_bit_is_binary(a, 0);
        lemma_bit_is_binary(a, 1);
        lemma_bit_is_binary(a, 2);
        lemma_bit_is_binary(a, 3);
        lemma_bit_is_binary(a, 4);
        lemma_bit_is_binary(a, 5);
        lemma_bit_is_binary(a, 6);
        lemma_bit_is_binary(a, 7);
        lemma_bit_is_binary(b, 0);
        lemma_bit_is_binary(b, 1);
        lemma_bit_is_binary(b, 2);
        lemma_bit_is_binary(b, 3);
        lemma_bit_is_binary(b, 4);
        lemma_bit_is_binary(b, 5);
        lemma_bit_is_binary(b, 6);
        lemma_bit_is_binary(b, 7);
        lemma_word_from_bits(a, b);
    }
}

/// A word is zero exactly when none of its bits is set.
pub proof fn lemma_zero_word(a: u8)
    ensures
        a == 0 <==> forall|k: int| 0 <= k < 8 ==> !word_bit(a, k),
{
    lemma_word_extensional(a, 0u8);
    assert forall|k: int| 0 <= k < 8 implies !word_bit(0u8, k) by {
        lemma_bit_of_constants(k);
    }
}

/// A word is all ones exactly when all of its bits are set.
pub proof fn lemma_full_word(a: u8)
    ensures
        a == 0xFF <==> forall|k: int| 0 <= k < 8 ==> word_bit(a, k),
{
    lemma_word_extensional(a, 0xFFu8);
    assert forall|k: int| 0 <= k < 8 implies word_bit(0xFFu8, k) by {
        lemma_bit_of_constants(k);
    }
}

} // verus!
