//! Conversions of integers into bit vectors. Bit 0 of an integer becomes
//! bit 0 of the vector, its low word comes first, and the vector has as many
//! words as the integer's width asks for. What comes out is frozen: it
//! stands for a value of fixed width.

use vstd::prelude::*;
use vstd::std_specs::convert::FromSpecImpl;
use super::model::{bit_at, bits_of_words, whole_words};
use super::words::{lemma_bit_of_constants, lemma_bit_of_ops, lemma_bit_of_single, word_bit};
use super::BitSet;

verus! {

/// Bit `i` of a 128-bit value.
pub open spec fn value_bit(v: u128, i: int) -> bool {
    (v >> (i as u128)) & 1u128 == 1u128
}

/// Byte `k` of a 128-bit value, the low byte being byte 0.
pub open spec fn value_byte(v: u128, k: int) -> u8 {
    (v >> ((8 * k) as u128)) as u8
}

/// Bit `j` of byte `k` is bit `8 * k + j` of the value.
proof fn lemma_byte_bits(v: u128, k: u128, j: u128)
    by (bit_vector)
    requires
        k < 16,
        j < 8,
    ensures
        (((v >> ((8 * k) as u128)) as u8) >> (j as u8)) & 1u8 == 1u8 <==> (v >> ((8 * k + j) as u128)) & 1u128
            == 1u128,
{
}

/// `word_bit` of a byte of a value.
pub proof fn lemma_bit_of_value_byte(v: u128, k: int, j: int)
    requires
        0 <= k < 16,
        0 <= j < 8,
    ensures
        word_bit(value_byte(v, k), j) == value_bit(v, 8 * k + j),
{
    lemma_byte_bits(v, k as u128, j as u128);
}

/// A bit of an `u8` is the same bit of the value widened to 128 bits.
proof fn lemma_widen_u8(v: u8, i: u32)
    by (bit_vector)
    requires
        i < 8,
    ensures
        ((v >> i) & 1u8 == 1u8) <==> ((v as u128) >> (i as u128)) & 1u128 == 1u128,
{
}

/// A bit of an `u16` is the same bit of the value widened to 128 bits.
proof fn lemma_widen_u16(v: u16, i: u32)
    by (bit_vector)
    requires
        i < 16,
    ensures
        ((v >> i) & 1u16 == 1u16) <==> ((v as u128) >> (i as u128)) & 1u128 == 1u128,
{
}

/// A bit of an `u32` is the same bit of the value widened to 128 bits.
proof fn lemma_widen_u32(v: u32, i: u32)
    by (bit_vector)
    requires
        i < 32,
    ensures
        ((v >> i) & 1u32 == 1u32) <==> ((v as u128) >> (i as u128)) & 1u128 == 1u128,
{
}

/// A bit of an `u64` is the same bit of the value widened to 128 bits.
proof fn lemma_widen_u64(v: u64, i: u32)
    by (bit_vector)
    requires
        i < 64,
    ensures
        ((v >> i) & 1u64 == 1u64) <==> ((v as u128) >> (i as u128)) & 1u128 == 1u128,
{
}

/// A bit of an `usize` is the same bit of the value widened to 128 bits.
proof fn lemma_widen_usize(v: usize, i: u32)
    by (bit_vector)
    requires
        i < usize::BITS,
    ensures
        ((v >> i) & 1usize == 1usize) <==> ((v as u128) >> (i as u128)) & 1u128 == 1u128,
{
}

/// A bit of an `i8` is the same bit of the value widened to 128 bits.
proof fn lemma_widen_i8(v: i8, i: u32)
    by (bit_vector)
    requires
        i < 8,
    ensures
        ((v >> i) & 1i8 == 1i8) <==> ((v as u128) >> (i as u128)) & 1u128 == 1u128,
{
}

/// A bit of an `i16` is the same bit of the value widened to 128 bits.
proof fn lemma_widen_i16(v: i16, i: u32)
    by (bit_vector)
    requires
        i < 16,
    ensures
        ((v >> i) & 1i16 == 1i16) <==> ((v as u128) >> (i as u128)) & 1u128 == 1u128,
{
}

/// A bit of an `i32` is the same bit of the value widened to 128 bits.
proof fn lemma_widen_i32(v: i32, i: u32)
    by (bit_vector)
    requires
        i < 32,
    ensures
        ((v >> i) & 1i32 == 1i32) <==> ((v as u128) >> (i as u128)) & 1u128 == 1u128,
{
}

/// A bit of an `i64` is the same bit of the value widened to 128 bits.
proof fn lemma_widen_i64(v: i64, i: u32)
    by (bit_vector)
    requires
        i < 64,
    ensures
        ((v >> i) & 1i64 == 1i64) <==> ((v as u128) >> (i as u128)) & 1u128 == 1u128,
{
}

/// A bit of an `i128` is the same bit of the value widened to 128 bits.
proof fn lemma_widen_i128(v: i128, i: u32)
    by (bit_vector)
    requires
        i < 128,
    ensures
        ((v >> i) & 1i128 == 1i128) <==> ((v as u128) >> (i as u128)) & 1u128 == 1u128,
{
}

/// A bit of an `isize` is the same bit of the value widened to 128 bits.
proof fn lemma_widen_isize(v: isize, i: u32)
    by (bit_vector)
    requires
        i < isize::BITS,
    ensures
        ((v >> i) & 1isize == 1isize) <==> ((v as u128) >> (i as u128)) & 1u128 == 1u128,
{
}

/// An integer of a fixed width of whole bytes, at most 128 bits.
pub trait FixedWidth: Copy {
    /// The width in bits.
    spec fn bit_width() -> usize;

    /// The value widened to 128 bits, a negative one by its sign.
    spec fn widened(&self) -> u128;

    /// Gives the width in bits.
    fn width() -> (w: usize)
        ensures
            w == Self::bit_width(),
            w % 8 == 0,
            8 <= w <= 128,
    ;

    /// Widens the value to 128 bits.
    fn low_bits(&self) -> (v: u128)
        ensures
            v == self.widened(),
    ;
}

impl FixedWidth for u8 {
    open spec fn bit_width() -> usize {
        8
    }

    open spec fn widened(&self) -> u128 {
        *self as u128
    }

    fn width() -> (w: usize) {
        8
    }

    fn low_bits(&self) -> (v: u128) {
        *self as u128
    }
}

impl FixedWidth for u16 {
    open spec fn bit_width() -> usize {
        16
    }

    open spec fn widened(&self) -> u128 {
        *self as u128
    }

    fn width() -> (w: usize) {
        16
    }

    fn low_bits(&self) -> (v: u128) {
        *self as u128
    }
}

impl FixedWidth for u32 {
    open spec fn bit_width() -> usize {
        32
    }

    open spec fn widened(&self) -> u128 {
        *self as u128
    }

    fn width() -> (w: usize) {
        32
    }

    fn low_bits(&self) -> (v: u128) {
        *self as u128
    }
}

impl FixedWidth for u64 {
    open spec fn bit_width() -> usize {
        64
    }

    open spec fn widened(&self) -> u128 {
        *self as u128
    }

    fn width() -> (w: usize) {
        64
    }

    fn low_bits(&self) -> (v: u128) {
        *self as u128
    }
}

impl FixedWidth for u128 {
    open spec fn bit_width() -> usize {
        128
    }

    open spec fn widened(&self) -> u128 {
        *self
    }

    fn width() -> (w: usize) {
        128
    }

    fn low_bits(&self) -> (v: u128) {
        *self
    }
}

impl FixedWidth for usize {
    open spec fn bit_width() -> usize {
        usize::BITS as usize
    }

    open spec fn widened(&self) -> u128 {
        *self as u128
    }

    fn width() -> (w: usize) {
        usize::BITS as usize
    }

    fn low_bits(&self) -> (v: u128) {
        *self as u128
    }
}

impl FixedWidth for i8 {
    open spec fn bit_width() -> usize {
        8
    }

    open spec fn widened(&self) -> u128 {
        *self as u128
    }

    fn width() -> (w: usize) {
        8
    }

    fn low_bits(&self) -> (v: u128) {
        #[verifier::truncate] (*self as u128)
    }
}

impl FixedWidth for i16 {
    open spec fn bit_width() -> usize {
        16
    }

    open spec fn widened(&self) -> u128 {
        *self as u128
    }

    fn width() -> (w: usize) {
        16
    }

    fn low_bits(&self) -> (v: u128) {
        #[verifier::truncate] (*self as u128)
    }
}

impl FixedWidth for i32 {
    open spec fn bit_width() -> usize {
        32
    }

    open spec fn widened(&self) -> u128 {
        *self as u128
    }

    fn width() -> (w: usize) {
        32
    }

    fn low_bits(&self) -> (v: u128) {
        #[verifier::truncate] (*self as u128)
    }
}

impl FixedWidth for i64 {
    open spec fn bit_width() -> usize {
        64
    }

    open spec fn widened(&self) -> u128 {
        *self as u128
    }

    fn width() -> (w: usize) {
        64
    }

    fn low_bits(&self) -> (v: u128) {
        #[verifier::truncate] (*self as u128)
    }
}

impl FixedWidth for i128 {
    open spec fn bit_width() -> usize {
        128
    }

    open spec fn widened(&self) -> u128 {
        *self as u128
    }

    fn width() -> (w: usize) {
        128
    }

    fn low_bits(&self) -> (v: u128) {
        #[verifier::truncate] (*self as u128)
    }
}

impl FixedWidth for isize {
    open spec fn bit_width() -> usize {
        isize::BITS as usize
    }

    open spec fn widened(&self) -> u128 {
        *self as u128
    }

    fn width() -> (w: usize) {
        isize::BITS as usize
    }

    fn low_bits(&self) -> (v: u128) {
        #[verifier::truncate] (*self as u128)
    }
}

impl BitSet {
    /// Lays out the low `width` bits of `value` in words of their own,
    /// behind the words that `data` holds.
    fn push_low_bits(data: &mut Vec<u8>, value: u128, width: usize)
        requires
            width % 8 == 0,
            8 <= width <= 128,
        ensures
            final(data)@.len() == old(data)@.len() + width / 8,
            final(data)@.take(old(data)@.len() as int) == old(data)@,
            forall|k: int|
                0 <= k < width / 8 ==> #[trigger] final(data)@[old(data)@.len() + k] == value_byte(
                    value,
                    k,
                ),
    {
        let words: usize = width / 8;
        let mut k: usize = 0;
        while k < words
            invariant
                k <= words,
                words <= 16,
                data@.len() == old(data)@.len() + k,
                data@.take(old(data)@.len() as int) == old(data)@,
                forall|m: int|
                    0 <= m < k ==> #[trigger] data@[old(data)@.len() + m] == value_byte(value, m),
            decreases words - k,
        {
            let byte: u8 = #[verifier::truncate] ((value >> (8 * k)) as u8);
            let ghost before = data@;
            data.push(byte);
            proof {
                assert(data@.take(old(data)@.len() as int) =~= before.take(
                    old(data)@.len() as int,
                ));
            }
            k += 1;
        }
    }

    /// The frozen vector of the low `width` bits of `value`.
    fn from_low_bits(value: u128, width: usize) -> (r: BitSet)
        requires
            width % 8 == 0,
            8 <= width <= 128,
        ensures
            r@.len() == width,
            forall|i: int| 0 <= i < width ==> r@[i] == value_bit(value, i),
            r.is_frozen(),
    {
        let mut data: Vec<u8> = Vec::new();
        Self::push_low_bits(&mut data, value, width);
        let r = BitSet::from_words(data, true);
        proof {
            assert forall|i: int| 0 <= i < width implies r@[i] == value_bit(value, i) by {
                assert(data@[0 + i / 8] == value_byte(value, i / 8));
                lemma_bit_of_value_byte(value, i / 8, i % 8);
            }
        }
        r
    }

    /// The frozen vector that holds the integers of `values` one after the
    /// other, each in words of its own, in the order of the slice.
    pub fn from_slice<T: FixedWidth>(values: &[T]) -> (r: BitSet)
        requires
            values@.len() * T::bit_width() <= usize::MAX,
        ensures
            r@.len() == values@.len() * T::bit_width(),
            forall|e: int, i: int|
                0 <= e < values@.len() && 0 <= i < T::bit_width() ==> r@[e * T::bit_width() + i]
                    == #[trigger] value_bit(values@[e].widened(), i),
            r.is_frozen(),
    {
        let width: usize = T::width();
        let bytes: usize = width / 8;
        let n: usize = values.len();
        let mut data: Vec<u8> = Vec::new();
        let mut e: usize = 0;
        while e < n
            invariant
                e <= n,
                n == values@.len(),
                width == T::bit_width(),
                width % 8 == 0,
                8 <= width <= 128,
                bytes == width / 8,
                data@.len() == e * bytes,
                forall|m: int, k: int|
                    0 <= m < e && 0 <= k < bytes ==> data@[m * bytes + k] == #[trigger] value_byte(
                        values@[m].widened(),
                        k,
                    ),
            decreases n - e,
        {
            let value: u128 = values[e].low_bits();
            let ghost before = data@;
            Self::push_low_bits(&mut data, value, width);
            proof {
                assert((e + 1) * bytes == e * bytes + bytes) by (nonlinear_arith);
                assert forall|m: int, k: int| 0 <= m < e + 1 && 0 <= k < bytes implies data@[m
                    * bytes + k] == #[trigger] value_byte(values@[m].widened(), k) by {
                    if m < e {
                        assert(m * bytes + k < e * bytes) by (nonlinear_arith)
                            requires
                                0 <= m < e,
                                0 <= k < bytes,
                        ;
                        assert(data@[m * bytes + k] == data@.take(before.len() as int)[m * bytes
                            + k]);
                    } else {
                        assert(data@[before.len() + k] == value_byte(value, k));
                    }
                }
            }
            e += 1;
        }
        proof {
            assert(n * bytes * 8 == n * width) by (nonlinear_arith)
                requires
                    bytes * 8 == width,
            ;
        }
        let r = BitSet::from_words(data, true);
        proof {
            assert forall|m: int, i: int| 0 <= m < values@.len() && 0 <= i < T::bit_width() implies r@[m
                * T::bit_width() + i] == #[trigger] value_bit(values@[m].widened(), i) by {
                let j = m * width + i;
                assert(j / 8 == m * bytes + i / 8 && j % 8 == i % 8) by (nonlinear_arith)
                    requires
                        j == m * width + i,
                        width == bytes * 8,
                        0 <= i,
                ;
                assert(0 <= j < n * width) by (nonlinear_arith)
                    requires
                        j == m * width + i,
                        0 <= m < n,
                        0 <= i < width,
                ;
                assert(data@[m * bytes + i / 8] == value_byte(values@[m].widened(), i / 8));
                lemma_bit_of_value_byte(values@[m].widened(), i / 8, i % 8);
            }
        }
        r
    }

    /// Packs booleans into words, eight to a word, the first one lowest;
    /// the last word is filled up with false bits.
    fn impl_bool_data(data: &[bool]) -> (words: Vec<u8>)
        requires
            whole_words(data@.len() as int) <= usize::MAX,
        ensures
            bits_of_words(words@).len() == whole_words(data@.len() as int),
            forall|i: int| 0 <= i < bits_of_words(words@).len() ==> bits_of_words(words@)[i] == bit_at(data@, i),
    {
        let n: usize = data.len();
        let count: usize = if n % 8 == 0 {
            n / 8
        } else {
            n / 8 + 1
        };
        let mut words: Vec<u8> = Vec::new();
        let mut w: usize = 0;
        while w < count
            invariant
                w <= count,
                n == data@.len(),
                count * 8 == whole_words(n as int),
                words@.len() == w,
                forall|i: int| 0 <= i < 8 * w ==> bits_of_words(words@)[i] == bit_at(data@, i),
            decreases count - w,
        {
            let mut byte: u8 = 0;
            let mut k: usize = 0;
            proof {
                assert forall|j: int| 0 <= j < 8 implies !word_bit(byte, j) by {
                    lemma_bit_of_constants(j);
                }
            }
            while k < 8
                invariant
                    k <= 8,
                    w < count,
                    n == data@.len(),
                    count * 8 == whole_words(n as int),
                    forall|j: int| 0 <= j < 8 ==> word_bit(byte, j) == (j < k && bit_at(data@, 8 * w + j)),
                decreases 8 - k,
            {
                let at: usize = 8 * w + k;
                if at < n && data[at] {
                    let ghost before = byte;
                    byte = byte | (1u8 << k);
                    proof {
                        assert forall|j: int| 0 <= j < 8 implies word_bit(byte, j) == (j < k + 1
                            && bit_at(data@, 8 * w + j)) by {
                            lemma_bit_of_single(k as int, j);
                            lemma_bit_of_ops(before, 1u8 << k, j);
                        }
                    }
                }
                k += 1;
            }
            let ghost before = words@;
            words.push(byte);
            proof {
                assert forall|i: int| 0 <= i < 8 * (w + 1) implies bits_of_words(words@)[i]
                    == bit_at(data@, i) by {
                    if i < 8 * w {
                        assert(bits_of_words(before)[i] == bit_at(data@, i));
                        assert(words@[i / 8] == before[i / 8]);
                    } else {
                        assert(i / 8 == w && 8 * w + i % 8 == i);
                    }
                }
            }
            w += 1;
        }
        words
    }

    /// The frozen vector whose bit `i` is `values[i]`.
    pub fn from_bools(values: &[bool]) -> (r: BitSet)
        requires
            whole_words(values@.len() as int) <= usize::MAX,
        ensures
            r@.len() == whole_words(values@.len() as int),
            forall|i: int| r.bit(i) == bit_at(values@, i),
            r.is_frozen(),
    {
        let data: Vec<u8> = Self::impl_bool_data(values);
        let r = BitSet::from_words(data, true);
        proof {
            assert forall|i: int| r.bit(i) == bit_at(values@, i) by {
                if 0 <= i < r@.len() {
                    assert(r@[i] == bit_at(values@, i));
                }
            }
        }
        r
    }
}

impl From<u8> for BitSet {
    /// The frozen vector of the bits of `num`: reading bit `i` gives
    /// `(num >> i) & 1` below the width of `u8`, and false from there on.
    fn from(num: u8) -> (r: BitSet)
        ensures
            r@.len() == 8,
            forall|i: int| r.bit(i) == (0 <= i < 8 && (num >> (i as u32)) & 1u8 == 1u8),
            r.is_frozen(),
    {
        let r = BitSet::from_low_bits(num.low_bits(), 8);
        proof {
            assert forall|i: int| r.bit(i) == (0 <= i < 8 && (num >> (i as u32)) & 1u8 == 1u8) by {
                if 0 <= i < 8 {
                    lemma_widen_u8(num, i as u32);
                    assert(r@[i] == value_bit(num as u128, i));
                    assert((i as u32) as u128 == i as u128);
                    assert(r.bit(i) == r@[i]);
                }
            }
        }
        r
    }
}

/// What `from` returns is stated by its own `ensures`, over the view: two
/// vectors with the same bits need not be the same value, so none is
/// singled out as the result.
impl FromSpecImpl<u8> for BitSet {
    open spec fn obeys_from_spec() -> bool {
        false
    }

    open spec fn from_spec(v: u8) -> BitSet {
        choose|r: BitSet|
            r.is_frozen() && forall|i: int|
                r.bit(i) == (0 <= i < 8 && (v >> (i as u32)) & 1u8 == 1u8)
    }
}

impl From<u16> for BitSet {
    /// The frozen vector of the bits of `num`: reading bit `i` gives
    /// `(num >> i) & 1` below the width of `u16`, and false from there on.
    fn from(num: u16) -> (r: BitSet)
        ensures
            r@.len() == 16,
            forall|i: int| r.bit(i) == (0 <= i < 16 && (num >> (i as u32)) & 1u16 == 1u16),
            r.is_frozen(),
    {
        let r = BitSet::from_low_bits(num.low_bits(), 16);
        proof {
            assert forall|i: int| r.bit(i) == (0 <= i < 16 && (num >> (i as u32)) & 1u16 == 1u16) by {
                if 0 <= i < 16 {
                    lemma_widen_u16(num, i as u32);
                    assert(r@[i] == value_bit(num as u128, i));
                    assert((i as u32) as u128 == i as u128);
                    assert(r.bit(i) == r@[i]);
                }
            }
        }
        r
    }
}

/// What `from` returns is stated by its own `ensures`, over the view: two
/// vectors with the same bits need not be the same value, so none is
/// singled out as the result.
impl FromSpecImpl<u16> for BitSet {
    open spec fn obeys_from_spec() -> bool {
        false
    }

    open spec fn from_spec(v: u16) -> BitSet {
        choose|r: BitSet|
            r.is_frozen() && forall|i: int|
                r.bit(i) == (0 <= i < 16 && (v >> (i as u32)) & 1u16 == 1u16)
    }
}

impl From<u32> for BitSet {
    /// The frozen vector of the bits of `num`: reading bit `i` gives
    /// `(num >> i) & 1` below the width of `u32`, and false from there on.
    fn from(num: u32) -> (r: BitSet)
        ensures
            r@.len() == 32,
            forall|i: int| r.bit(i) == (0 <= i < 32 && (num >> (i as u32)) & 1u32 == 1u32),
            r.is_frozen(),
    {
        let r = BitSet::from_low_bits(num.low_bits(), 32);
        proof {
            assert forall|i: int| r.bit(i) == (0 <= i < 32 && (num >> (i as u32)) & 1u32 == 1u32) by {
                if 0 <= i < 32 {
                    lemma_widen_u32(num, i as u32);
                    assert(r@[i] == value_bit(num as u128, i));
                    assert((i as u32) as u128 == i as u128);
                    assert(r.bit(i) == r@[i]);
                }
            }
        }
        r
    }
}

/// What `from` returns is stated by its own `ensures`, over the view: two
/// vectors with the same bits need not be the same value, so none is
/// singled out as the result.
impl FromSpecImpl<u32> for BitSet {
    open spec fn obeys_from_spec() -> bool {
        false
    }

    open spec fn from_spec(v: u32) -> BitSet {
        choose|r: BitSet|
            r.is_frozen() && forall|i: int|
                r.bit(i) == (0 <= i < 32 && (v >> (i as u32)) & 1u32 == 1u32)
    }
}

impl From<u64> for BitSet {
    /// The frozen vector of the bits of `num`: reading bit `i` gives
    /// `(num >> i) & 1` below the width of `u64`, and false from there on.
    fn from(num: u64) -> (r: BitSet)
        ensures
            r@.len() == 64,
            forall|i: int| r.bit(i) == (0 <= i < 64 && (num >> (i as u32)) & 1u64 == 1u64),
            r.is_frozen(),
    {
        let r = BitSet::from_low_bits(num.low_bits(), 64);
        proof {
            assert forall|i: int| r.bit(i) == (0 <= i < 64 && (num >> (i as u32)) & 1u64 == 1u64) by {
                if 0 <= i < 64 {
                    lemma_widen_u64(num, i as u32);
                    assert(r@[i] == value_bit(num as u128, i));
                    assert((i as u32) as u128 == i as u128);
                    assert(r.bit(i) == r@[i]);
                }
            }
        }
        r
    }
}

/// What `from` returns is stated by its own `ensures`, over the view: two
/// vectors with the same bits need not be the same value, so none is
/// singled out as the result.
impl FromSpecImpl<u64> for BitSet {
    open spec fn obeys_from_spec() -> bool {
        false
    }

    open spec fn from_spec(v: u64) -> BitSet {
        choose|r: BitSet|
            r.is_frozen() && forall|i: int|
                r.bit(i) == (0 <= i < 64 && (v >> (i as u32)) & 1u64 == 1u64)
    }
}

impl From<u128> for BitSet {
    /// The frozen vector of the bits of `num`: reading bit `i` gives
    /// `(num >> i) & 1` below the width of `u128`, and false from there on.
    fn from(num: u128) -> (r: BitSet)
        ensures
            r@.len() == 128,
            forall|i: int| r.bit(i) == (0 <= i < 128 && (num >> (i as u32)) & 1u128 == 1u128),
            r.is_frozen(),
    {
        let r = BitSet::from_low_bits(num.low_bits(), 128);
        proof {
            assert forall|i: int| r.bit(i) == (0 <= i < 128 && (num >> (i as u32)) & 1u128 == 1u128) by {
                if 0 <= i < 128 {
                    assert(r@[i] == value_bit(num, i));
                    assert((i as u32) as u128 == i as u128);
                    assert(r.bit(i) == r@[i]);
                }
            }
        }
        r
    }
}

/// What `from` returns is stated by its own `ensures`, over the view: two
/// vectors with the same bits need not be the same value, so none is
/// singled out as the result.
impl FromSpecImpl<u128> for BitSet {
    open spec fn obeys_from_spec() -> bool {
        false
    }

    open spec fn from_spec(v: u128) -> BitSet {
        choose|r: BitSet|
            r.is_frozen() && forall|i: int|
                r.bit(i) == (0 <= i < 128 && (v >> (i as u32)) & 1u128 == 1u128)
    }
}

impl From<usize> for BitSet {
    /// The frozen vector of the bits of `num`: reading bit `i` gives
    /// `(num >> i) & 1` below the width of `usize`, and false from there on.
    fn from(num: usize) -> (r: BitSet)
        ensures
            r@.len() == usize::BITS,
            forall|i: int| r.bit(i) == (0 <= i < usize::BITS && (num >> (i as u32)) & 1usize == 1usize),
            r.is_frozen(),
    {
        let r = BitSet::from_low_bits(num.low_bits(), usize::BITS as usize);
        proof {
            assert forall|i: int| r.bit(i) == (0 <= i < usize::BITS && (num >> (i as u32)) & 1usize == 1usize) by {
                if 0 <= i < usize::BITS {
                    lemma_widen_usize(num, i as u32);
                    assert(r@[i] == value_bit(num as u128, i));
                    assert((i as u32) as u128 == i as u128);
                    assert(r.bit(i) == r@[i]);
                }
            }
        }
        r
    }
}

/// What `from` returns is stated by its own `ensures`, over the view: two
/// vectors with the same bits need not be the same value, so none is
/// singled out as the result.
impl FromSpecImpl<usize> for BitSet {
    open spec fn obeys_from_spec() -> bool {
        false
    }

    open spec fn from_spec(v: usize) -> BitSet {
        choose|r: BitSet|
            r.is_frozen() && forall|i: int|
                r.bit(i) == (0 <= i < usize::BITS && (v >> (i as u32)) & 1usize == 1usize)
    }
}

impl From<i8> for BitSet {
    /// The frozen vector of the bits of `num`: reading bit `i` gives
    /// `(num >> i) & 1` below the width of `i8`, and false from there on.
    fn from(num: i8) -> (r: BitSet)
        ensures
            r@.len() == 8,
            forall|i: int| r.bit(i) == (0 <= i < 8 && (num >> (i as u32)) & 1i8 == 1i8),
            r.is_frozen(),
    {
        let r = BitSet::from_low_bits(num.low_bits(), 8);
        proof {
            assert forall|i: int| r.bit(i) == (0 <= i < 8 && (num >> (i as u32)) & 1i8 == 1i8) by {
                if 0 <= i < 8 {
                    lemma_widen_i8(num, i as u32);
                    assert(r@[i] == value_bit(num as u128, i));
                    assert((i as u32) as u128 == i as u128);
                    assert(r.bit(i) == r@[i]);
                }
            }
        }
        r
    }
}

/// What `from` returns is stated by its own `ensures`, over the view: two
/// vectors with the same bits need not be the same value, so none is
/// singled out as the result.
impl FromSpecImpl<i8> for BitSet {
    open spec fn obeys_from_spec() -> bool {
        false
    }

    open spec fn from_spec(v: i8) -> BitSet {
        choose|r: BitSet|
            r.is_frozen() && forall|i: int|
                r.bit(i) == (0 <= i < 8 && (v >> (i as u32)) & 1i8 == 1i8)
    }
}

impl From<i16> for BitSet {
    /// The frozen vector of the bits of `num`: reading bit `i` gives
    /// `(num >> i) & 1` below the width of `i16`, and false from there on.
    fn from(num: i16) -> (r: BitSet)
        ensures
            r@.len() == 16,
            forall|i: int| r.bit(i) == (0 <= i < 16 && (num >> (i as u32)) & 1i16 == 1i16),
            r.is_frozen(),
    {
        let r = BitSet::from_low_bits(num.low_bits(), 16);
        proof {
            assert forall|i: int| r.bit(i) == (0 <= i < 16 && (num >> (i as u32)) & 1i16 == 1i16) by {
                if 0 <= i < 16 {
                    lemma_widen_i16(num, i as u32);
                    assert(r@[i] == value_bit(num as u128, i));
                    assert((i as u32) as u128 == i as u128);
                    assert(r.bit(i) == r@[i]);
                }
            }
        }
        r
    }
}

/// What `from` returns is stated by its own `ensures`, over the view: two
/// vectors with the same bits need not be the same value, so none is
/// singled out as the result.
impl FromSpecImpl<i16> for BitSet {
    open spec fn obeys_from_spec() -> bool {
        false
    }

    open spec fn from_spec(v: i16) -> BitSet {
        choose|r: BitSet|
            r.is_frozen() && forall|i: int|
                r.bit(i) == (0 <= i < 16 && (v >> (i as u32)) & 1i16 == 1i16)
    }
}

impl From<i32> for BitSet {
    /// The frozen vector of the bits of `num`: reading bit `i` gives
    /// `(num >> i) & 1` below the width of `i32`, and false from there on.
    fn from(num: i32) -> (r: BitSet)
        ensures
            r@.len() == 32,
            forall|i: int| r.bit(i) == (0 <= i < 32 && (num >> (i as u32)) & 1i32 == 1i32),
            r.is_frozen(),
    {
        let r = BitSet::from_low_bits(num.low_bits(), 32);
        proof {
            assert forall|i: int| r.bit(i) == (0 <= i < 32 && (num >> (i as u32)) & 1i32 == 1i32) by {
                if 0 <= i < 32 {
                    lemma_widen_i32(num, i as u32);
                    assert(r@[i] == value_bit(num as u128, i));
                    assert((i as u32) as u128 == i as u128);
                    assert(r.bit(i) == r@[i]);
                }
            }
        }
        r
    }
}

/// What `from` returns is stated by its own `ensures`, over the view: two
/// vectors with the same bits need not be the same value, so none is
/// singled out as the result.
impl FromSpecImpl<i32> for BitSet {
    open spec fn obeys_from_spec() -> bool {
        false
    }

    open spec fn from_spec(v: i32) -> BitSet {
        choose|r: BitSet|
            r.is_frozen() && forall|i: int|
                r.bit(i) == (0 <= i < 32 && (v >> (i as u32)) & 1i32 == 1i32)
    }
}

impl From<i64> for BitSet {
    /// The frozen vector of the bits of `num`: reading bit `i` gives
    /// `(num >> i) & 1` below the width of `i64`, and false from there on.
    fn from(num: i64) -> (r: BitSet)
        ensures
            r@.len() == 64,
            forall|i: int| r.bit(i) == (0 <= i < 64 && (num >> (i as u32)) & 1i64 == 1i64),
            r.is_frozen(),
    {
        let r = BitSet::from_low_bits(num.low_bits(), 64);
        proof {
            assert forall|i: int| r.bit(i) == (0 <= i < 64 && (num >> (i as u32)) & 1i64 == 1i64) by {
                if 0 <= i < 64 {
                    lemma_widen_i64(num, i as u32);
                    assert(r@[i] == value_bit(num as u128, i));
                    assert((i as u32) as u128 == i as u128);
                    assert(r.bit(i) == r@[i]);
                }
            }
        }
        r
    }
}

/// What `from` returns is stated by its own `ensures`, over the view: two
/// vectors with the same bits need not be the same value, so none is
/// singled out as the result.
impl FromSpecImpl<i64> for BitSet {
    open spec fn obeys_from_spec() -> bool {
        false
    }

    open spec fn from_spec(v: i64) -> BitSet {
        choose|r: BitSet|
            r.is_frozen() && forall|i: int|
                r.bit(i) == (0 <= i < 64 && (v >> (i as u32)) & 1i64 == 1i64)
    }
}

impl From<i128> for BitSet {
    /// The frozen vector of the bits of `num`: reading bit `i` gives
    /// `(num >> i) & 1` below the width of `i128`, and false from there on.
    fn from(num: i128) -> (r: BitSet)
        ensures
            r@.len() == 128,
            forall|i: int| r.bit(i) == (0 <= i < 128 && (num >> (i as u32)) & 1i128 == 1i128),
            r.is_frozen(),
    {
        let r = BitSet::from_low_bits(num.low_bits(), 128);
        proof {
            assert forall|i: int| r.bit(i) == (0 <= i < 128 && (num >> (i as u32)) & 1i128 == 1i128) by {
                if 0 <= i < 128 {
                    lemma_widen_i128(num, i as u32);
                    assert(r@[i] == value_bit(num as u128, i));
                    assert((i as u32) as u128 == i as u128);
                    assert(r.bit(i) == r@[i]);
                }
            }
        }
        r
    }
}

/// What `from` returns is stated by its own `ensures`, over the view: two
/// vectors with the same bits need not be the same value, so none is
/// singled out as the result.
impl FromSpecImpl<i128> for BitSet {
    open spec fn obeys_from_spec() -> bool {
        false
    }

    open spec fn from_spec(v: i128) -> BitSet {
        choose|r: BitSet|
            r.is_frozen() && forall|i: int|
                r.bit(i) == (0 <= i < 128 && (v >> (i as u32)) & 1i128 == 1i128)
    }
}

impl From<isize> for BitSet {
    /// The frozen vector of the bits of `num`: reading bit `i` gives
    /// `(num >> i) & 1` below the width of `isize`, and false from there on.
    fn from(num: isize) -> (r: BitSet)
        ensures
            r@.len() == isize::BITS,
            forall|i: int| r.bit(i) == (0 <= i < isize::BITS && (num >> (i as u32)) & 1isize == 1isize),
            r.is_frozen(),
    {
        let r = BitSet::from_low_bits(num.low_bits(), isize::BITS as usize);
        proof {
            assert forall|i: int| r.bit(i) == (0 <= i < isize::BITS && (num >> (i as u32)) & 1isize == 1isize) by {
                if 0 <= i < isize::BITS {
                    lemma_widen_isize(num, i as u32);
                    assert(r@[i] == value_bit(num as u128, i));
                    assert((i as u32) as u128 == i as u128);
                    assert(r.bit(i) == r@[i]);
                }
            }
        }
        r
    }
}

/// What `from` returns is stated by its own `ensures`, over the view: two
/// vectors with the same bits need not be the same value, so none is
/// singled out as the result.
impl FromSpecImpl<isize> for BitSet {
    open spec fn obeys_from_spec() -> bool {
        false
    }

    open spec fn from_spec(v: isize) -> BitSet {
        choose|r: BitSet|
            r.is_frozen() && forall|i: int|
                r.bit(i) == (0 <= i < isize::BITS && (v >> (i as u32)) & 1isize == 1isize)
    }
}

} // verus!
