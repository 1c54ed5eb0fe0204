//! A 64-bit integer in the variable-length layout.

use vstd::prelude::*;
use vstd::std_specs::convert::FromSpecImpl;
use super::leb128::{
    all_continue, bytes_read, group_weight, groups_value, leb128, lemma_bytes_read_continues,
    lemma_group_weights, lemma_groups_bound, lemma_leb128_len, lemma_leb128_reads_back,
};
use super::primitives::{DataResult, Errors, SerDe};

verus! {

/// Why a [`VarLong`] could not be read or written.
#[derive(Debug, Clone, Copy, PartialEq, Eq, PartialOrd, Ord, Structural)]
pub enum VarLongError {
    /// The bytes go on beyond the ten that 64 bits take.
    DecodeOverflow,
    /// A byte of the wire form does not fit.
    EncodeOverflow,
}

/// A 64-bit integer whose wire form takes one to ten bytes.
#[derive(Debug, Clone, Copy, PartialEq, Eq, PartialOrd, Ord, Structural)]
pub struct VarLong(i64);

/// The unsigned number with the same 64 bits as `v`.
pub open spec fn unsigned64(v: i64) -> nat {
    if v >= 0 {
        v as nat
    } else {
        (v + 0x1_0000_0000_0000_0000) as nat
    }
}

/// The signed number with the low 64 bits of `n`.
pub open spec fn signed64(n: nat) -> i64 {
    let low = n % 0x1_0000_0000_0000_0000;
    if low < 0x8000_0000_0000_0000 {
        low as i64
    } else {
        (low - 0x1_0000_0000_0000_0000) as i64
    }
}

/// What reading a [`VarLong`] from `buf` gives. Ten bytes that all announce
/// another one are too many. Otherwise the bytes up to the first one that
/// announces none spell the number, of which the low 64 bits count; where
/// the buffer ends before such a byte, what is there spells it.
pub open spec fn var_long_decoded(buf: Seq<u8>) -> Result<i64, VarLongError> {
    if buf.len() >= 10 && all_continue(buf, 10) {
        Err(VarLongError::DecodeOverflow)
    } else {
        Ok(signed64(groups_value(buf.take(bytes_read(buf) as int))))
    }
}

/// The 64-bit facts behind writing: the test for the last byte, the byte
/// with the high bit, and the shift to the next group.
proof fn lemma_encode_step(n: u64)
    by (bit_vector)
    ensures
        (n & !0x7Fu64 == 0) <==> n < 128,
        (n & 0x7Fu64) | 0x80u64 == n % 128 + 128,
        n >> 7u64 == n / 128,
{
}

/// Reinterpreting the 64 bits of a signed number.
proof fn lemma_reinterpret(v: i64)
    by (bit_vector)
    ensures
        v >= 0 ==> v as u64 == v,
        v < 0 ==> v as u64 == v + 0x1_0000_0000_0000_0000,
{
}

/// Reinterpreting 64 bits as a signed number.
proof fn lemma_reinterpret_back(n: u64)
    by (bit_vector)
    ensures
        n < 0x8000_0000_0000_0000u64 ==> n as i64 == n,
        n >= 0x8000_0000_0000_0000u64 ==> n as i64 == n - 0x1_0000_0000_0000_0000,
{
}

/// The 64-bit facts behind reading: a group that is shifted to its place
/// and ORed in is added, and the tenth group keeps its lowest bit.
proof fn lemma_decode_step(value: u64, b: u8, position: u64, weight: u64)
    by (bit_vector)
    requires
        position == 0 || position == 7 || position == 14 || position == 21 || position == 28 || position == 35 || position == 42 || position == 49 || position == 56 || position == 63,
        value < weight,
        position == 0 ==> weight == 0x1,
        position == 7 ==> weight == 0x80,
        position == 14 ==> weight == 0x4000,
        position == 21 ==> weight == 0x200000,
        position == 28 ==> weight == 0x10000000,
        position == 35 ==> weight == 0x800000000,
        position == 42 ==> weight == 0x40000000000,
        position == 49 ==> weight == 0x2000000000000,
        position == 56 ==> weight == 0x100000000000000,
        position == 63 ==> weight == 0x8000000000000000,
    ensures
        position < 63 ==> value | (((b & 0x7Fu8) as u64) << position) == value + (b % 128) as u64 * weight,
        position == 63 ==> value | (((b & 0x7Fu8) as u64) << position) == value + (b % 2) as u64 * weight,
        (b & 0x80u8 == 0) <==> b < 128,
{
}

/// Reading what was written gives the value back: the bytes that
/// [`VarLong::encode`] writes for `v` are bytes that [`VarLong::decode`] reads
/// as `v`.
pub proof fn law_written_value_reads_back(v: i64)
    ensures
        var_long_decoded(leb128(unsigned64(v))) == Ok::<i64, VarLongError>(v),
{
    let n = unsigned64(v);
    let bytes = leb128(n);
    lemma_group_weights();
    lemma_leb128_len(n, 10);
    lemma_leb128_reads_back(n);
    assert(bytes.take(bytes.len() as int) =~= bytes);
    if bytes.len() == 10 {
        assert(bytes[9] == bytes.last());
    }
}

impl VarLong {
    /// Wraps a value.
    #[must_use]
    pub fn new(value: i64) -> (r: Self)
        ensures
            r.value() == value,
    {
        VarLong(value)
    }

    /// The value.
    #[must_use]
    #[verifier::when_used_as_spec(value_spec)]
    pub fn value(&self) -> (r: i64)
        ensures
            r == self.value(),
    {
        self.0
    }

    /// Reads a [`VarLong`] from the start of `buf`; see [`var_long_decoded`].
    pub fn decode(buf: &[u8]) -> (r: DataResult<VarLong>)
        ensures
            match var_long_decoded(buf@) {
                Ok(v) => r.is_ok() && r.unwrap().value() == v,
                Err(e) => r == Err::<VarLong, Errors>(Errors::VarFloatError(e)),
            },
    {
        let mut value: u64 = 0;
        let mut position: u64 = 0;
        let mut i: usize = 0;
        proof {
            lemma_group_weights();
            assert(buf@.take(0) =~= Seq::<u8>::empty());
        }
        while i < buf.len()
            invariant
                i <= buf@.len(),
                i <= 9,
                position == 7 * i,
                all_continue(buf@, i as int),
                value == groups_value(buf@.take(i as int)),
                value < group_weight(i as nat),
            decreases buf@.len() - i,
        {
            let b: u8 = buf[i];
            let ghost low = value as nat;
            let ghost total = groups_value(buf@.take(i + 1));
            proof {
                lemma_group_weights();
                lemma_decode_step(value, b, position, group_weight(i as nat) as u64);
                let next = buf@.take(i + 1);
                assert(next.drop_last() =~= buf@.take(i as int));
                assert(next.last() == b);
                assert(total == low + (b % 128) as nat * group_weight(i as nat));
            }
            value = value | (((b & 0x7F) as u64) << position);
            proof {
                if i < 9 {
                    assert(value == total);
                }
            }
            if b & 0x80 == 0 {
                proof {
                    lemma_bytes_read_continues(buf@, i as int);
                    lemma_reinterpret_back(value);
                    lemma_groups_bound(buf@.take(i as int));
                    if i == 9 {
                        let high = (b % 128) as nat;
                        assert(total == low + high * 0x8000_0000_0000_0000);
                        assert(total % 0x1_0000_0000_0000_0000 == low + (high % 2)
                            * 0x8000_0000_0000_0000) by (nonlinear_arith)
                            requires
                                total == low + high * 0x8000_0000_0000_0000,
                                low < 0x8000_0000_0000_0000,
                                high < 128,
                        ;
                    } else {
                        lemma_groups_bound(buf@.take(i + 1));
                    }
                    assert(value == total % 0x1_0000_0000_0000_0000);
                    assert(!all_continue(buf@, 10)) by {
                        if all_continue(buf@, 10) {
                            assert(buf@[i as int] >= 128);
                        }
                    }
                }
                return Ok(VarLong(#[verifier::truncate] (value as i64)));
            }
            position += 7;
            if position >= 64 {
                proof {
                    assert forall|j: int| 0 <= j < 10 implies #[trigger] buf@[j] >= 128 by {
                        if j < 9 {
                            assert(buf@[j] >= 128);
                        }
                    }
                }
                return Err(Errors::VarFloatError(VarLongError::DecodeOverflow));
            }
            i += 1;
        }
        proof {
            lemma_bytes_read_continues(buf@, i as int);
            lemma_reinterpret_back(value);
            assert(!all_continue(buf@, 10) || buf@.len() < 10);
        }
        Ok(VarLong(#[verifier::truncate] (value as i64)))
    }


    /// Writes the value: the variable-length form of the unsigned number
    /// with the same 64 bits, so one to ten bytes. It never fails. The
    /// value is used up on the way: what is left of it is the last byte
    /// written.
    pub fn write(&mut self) -> (r: DataResult<Vec<u8>>)
        ensures
            r.is_ok(),
            r.unwrap()@ == leb128(unsigned64(old(self).value())),
            final(self).value() == r.unwrap()@.last(),
    {
        let mut bytes: Vec<u8> = Vec::new();
        let mut n: u64 = #[verifier::truncate] (self.0 as u64);
        proof {
            lemma_reinterpret(self.0);
        }
        loop
            invariant
                bytes@ + leb128(n as nat) == leb128(unsigned64(old(self).value())),
            decreases n,
        {
            proof {
                lemma_encode_step(n);
            }
            if n & !0x7F == 0 {
                bytes.push(n as u8);
                self.0 = n as i64;
                return Ok(bytes);
            }
            let ghost before = bytes@;
            bytes.push(((n & 0x7F) | 0x80) as u8);
            proof {
                assert(before + leb128(n as nat) =~= bytes@ + leb128((n / 128) as nat));
            }
            n = n >> 7;
        }
    }

    /// The value.
    pub closed spec fn value_spec(&self) -> i64 {
        self.0
    }
}

impl<'a> SerDe<'a> for VarLong {
    type Input = &'a [u8];

    type Serialized = DataResult<Vec<u8>>;

    type Deserialized = DataResult<VarLong>;

    /// Every input can be read.
    open spec fn decodable(data: &'a [u8]) -> bool {
        true
    }

    /// Reads a [`VarLong`] from the start of `buf`; see [`var_long_decoded`].
    fn decode(buf: &'a [u8]) -> (r: DataResult<VarLong>)
        ensures
            match var_long_decoded(buf@) {
                Ok(v) => r.is_ok() && r.unwrap().value() == v,
                Err(e) => r == Err::<VarLong, Errors>(Errors::VarFloatError(e)),
            },
    {
        VarLong::decode(buf)
    }

    /// Writes the value as [`VarLong::write`] does, and keeps it.
    fn encode(&self) -> (r: DataResult<Vec<u8>>)
        ensures
            r.is_ok(),
            r.unwrap()@ == leb128(unsigned64(self.value())),
    {
        let mut copy: VarLong = *self;
        copy.write()
    }
}

impl From<i64> for VarLong {
    fn from(value: i64) -> (r: VarLong)
        ensures
            r.value() == value,
    {
        VarLong(value)
    }
}

impl FromSpecImpl<i64> for VarLong {
    open spec fn obeys_from_spec() -> bool {
        true
    }

    closed spec fn from_spec(value: i64) -> VarLong {
        VarLong(value)
    }
}

impl From<VarLong> for i64 {
    fn from(value: VarLong) -> (r: i64) {
        value.0
    }
}

impl FromSpecImpl<VarLong> for i64 {
    open spec fn obeys_from_spec() -> bool {
        true
    }

    open spec fn from_spec(value: VarLong) -> i64 {
        value.value()
    }
}

} // verus!
