//! The mathematical model of a bit vector: a sequence of booleans whose
//! length is the capacity, and the operations on such sequences that the
//! contracts of the bit vector speak of.

use vstd::prelude::*;
use super::words::{lemma_zero_word, word_bit};

verus! {

/// The bits that a sequence of words stores: bit `i` is bit `i % 8` of word `i / 8`.
pub open spec fn bits_of_words(ws: Seq<u8>) -> Seq<bool> {
    Seq::new(ws.len() * 8, |i: int| word_bit(ws[i / 8], i % 8))
}

/// Bit `i` of the zero-padded stream: false at and beyond the capacity.
pub open spec fn bit_at(bits: Seq<bool>, i: int) -> bool {
    0 <= i < bits.len() && bits[i]
}

/// The least capacity, in bits, of whole words that hold `n` bits.
pub open spec fn whole_words(n: int) -> int {
    if n <= 0 {
        0
    } else {
        (n + 7) / 8 * 8
    }
}

/// The vector after growth to at least `n` bits: unchanged where it is long
/// enough, else extended by false bits to the next word boundary.
pub open spec fn grown(bits: Seq<bool>, n: int) -> Seq<bool> {
    if n <= bits.len() {
        bits
    } else {
        Seq::new(whole_words(n) as nat, |i: int| bit_at(bits, i))
    }
}

/// The vector after the single bit `i` was set to `v`.
pub open spec fn set_one(bits: Seq<bool>, i: int, v: bool) -> Seq<bool> {
    grown(bits, i + 1).update(i, v)
}

/// The vector after the single bit `i` was inverted.
pub open spec fn flip_one(bits: Seq<bool>, i: int) -> Seq<bool> {
    set_one(bits, i, !bit_at(bits, i))
}

/// The vector after every bit of `start..end` was set to `v`.
pub open spec fn set_span(bits: Seq<bool>, start: int, end: int, v: bool) -> Seq<bool> {
    let g = grown(bits, end);
    Seq::new(
        g.len(),
        |j: int|
            if start <= j < end {
                v
            } else {
                g[j]
            },
    )
}

/// The vector after every bit of `start..end` was inverted.
pub open spec fn flip_span(bits: Seq<bool>, start: int, end: int) -> Seq<bool> {
    let g = grown(bits, end);
    Seq::new(
        g.len(),
        |j: int|
            if start <= j < end {
                !g[j]
            } else {
                g[j]
            },
    )
}

/// The longer of two lengths.
pub open spec fn longer(a: Seq<bool>, b: Seq<bool>) -> nat {
    if a.len() >= b.len() {
        a.len()
    } else {
        b.len()
    }
}

/// Bitwise AND of two vectors, the shorter one padded with false bits.
pub open spec fn and_bits(a: Seq<bool>, b: Seq<bool>) -> Seq<bool> {
    Seq::new(longer(a, b), |i: int| bit_at(a, i) && bit_at(b, i))
}

/// Bitwise OR of two vectors, the shorter one padded with false bits.
pub open spec fn or_bits(a: Seq<bool>, b: Seq<bool>) -> Seq<bool> {
    Seq::new(longer(a, b), |i: int| bit_at(a, i) || bit_at(b, i))
}

/// Bitwise XOR of two vectors, the shorter one padded with false bits.
pub open spec fn xor_bits(a: Seq<bool>, b: Seq<bool>) -> Seq<bool> {
    Seq::new(longer(a, b), |i: int| bit_at(a, i) != bit_at(b, i))
}

/// The bits of `a` that are not in `b`, the shorter one padded with false bits.
pub open spec fn and_not_bits(a: Seq<bool>, b: Seq<bool>) -> Seq<bool> {
    Seq::new(longer(a, b), |i: int| bit_at(a, i) && !bit_at(b, i))
}

/// Every stored bit inverted.
pub open spec fn not_bits(a: Seq<bool>) -> Seq<bool> {
    Seq::new(a.len(), |i: int| !a[i])
}

/// A vector of `n` false bits.
pub open spec fn clear_bits(n: nat) -> Seq<bool> {
    Seq::new(n, |i: int| false)
}

/// Equality of the zero-padded streams.
pub open spec fn same_bits(a: Seq<bool>, b: Seq<bool>) -> bool {
    forall|i: int| #[trigger] bit_at(a, i) == bit_at(b, i)
}

/// Every bit set in `a` is set in `b`.
pub open spec fn subset_bits(a: Seq<bool>, b: Seq<bool>) -> bool {
    forall|i: int| #[trigger] bit_at(a, i) ==> bit_at(b, i)
}

/// Every bit set in `b` is set in `a`.
pub open spec fn superset_bits(a: Seq<bool>, b: Seq<bool>) -> bool {
    forall|i: int| #[trigger] bit_at(b, i) ==> bit_at(a, i)
}

/// No bit is set in both.
pub open spec fn disjoint_bits(a: Seq<bool>, b: Seq<bool>) -> bool {
    forall|i: int| !(#[trigger] bit_at(a, i) && bit_at(b, i))
}

/// No bit is set.
pub open spec fn all_clear(a: Seq<bool>) -> bool {
    forall|i: int| 0 <= i < a.len() ==> !#[trigger] a[i]
}

/// Every stored bit is set.
pub open spec fn all_set(a: Seq<bool>) -> bool {
    forall|i: int| 0 <= i < a.len() ==> #[trigger] a[i]
}

/// Whether the last word of a vector of whole words is zero.
pub open spec fn last_word_clear(a: Seq<bool>) -> bool {
    a.len() >= 8 && forall|k: int| a.len() - 8 <= k < a.len() ==> !#[trigger] a[k]
}

/// The vector without its trailing all-zero words.
pub open spec fn trimmed(a: Seq<bool>) -> Seq<bool>
    decreases a.len(),
{
    if last_word_clear(a) {
        trimmed(a.take(a.len() - 8))
    } else {
        a
    }
}

/// Dropping the last word of the words drops the last eight bits.
pub proof fn lemma_bits_of_shorter(ws: Seq<u8>, n: int)
    requires
        0 <= n <= ws.len(),
    ensures
        bits_of_words(ws.take(n)) == bits_of_words(ws).take(8 * n),
{
    assert(bits_of_words(ws.take(n)) =~= bits_of_words(ws).take(8 * n));
}

/// The last eight bits are clear exactly when the last word is zero.
pub proof fn lemma_last_word_clear(ws: Seq<u8>)
    ensures
        last_word_clear(bits_of_words(ws)) <==> (ws.len() > 0 && ws.last() == 0),
{
    let bits = bits_of_words(ws);
    if ws.len() > 0 {
        let n = ws.len() as int;
        lemma_zero_word(ws.last());
        if ws.last() == 0 {
            assert forall|k: int| bits.len() - 8 <= k < bits.len() implies !#[trigger] bits[k] by {
                assert(k / 8 == n - 1);
            }
        }
        if last_word_clear(bits) {
            assert forall|k: int| 0 <= k < 8 implies !word_bit(ws.last(), k) by {
                let j = 8 * (n - 1) + k;
                assert(!bits[j]);
                assert(j / 8 == n - 1 && j % 8 == k);
            }
        }
    }
}

/// A vector whose last word is not zero is its own trimmed form.
pub proof fn lemma_trimmed_fixed(ws: Seq<u8>)
    requires
        ws.len() == 0 || ws.last() != 0,
    ensures
        trimmed(bits_of_words(ws)) == bits_of_words(ws),
{
    lemma_last_word_clear(ws);
}

/// Trimming sees through a trailing zero word.
pub proof fn lemma_trimmed_step(ws: Seq<u8>)
    requires
        ws.len() > 0,
        ws.last() == 0,
    ensures
        trimmed(bits_of_words(ws)) == trimmed(bits_of_words(ws.drop_last())),
{
    lemma_last_word_clear(ws);
    lemma_bits_of_shorter(ws, ws.len() - 1);
}

} // verus!
