//! A 32-bit integer in the variable-length layout.

use vstd::prelude::*;
use vstd::std_specs::convert::FromSpecImpl;
use super::leb128::{
    all_continue, bytes_read, group_weight, groups_value, leb128, lemma_bytes_read_continues,
    lemma_group_weights, lemma_groups_bound, lemma_leb128_len, lemma_leb128_reads_back,
};
use super::primitives::{DataResult, Errors, SerDe};

verus! {

/// Why a [`VarInt`] could not be read or written.
#[derive(Debug, Clone, Copy, PartialEq, Eq, PartialOrd, Ord, Structural)]
pub enum VarIntError {
    /// The bytes go on beyond the five that 32 bits take.
    DecodeOverflow,
    /// A byte of the wire form does not fit.
    EncodeOverflow,
}

/// A 32-bit integer whose wire form takes one to five bytes.
#[derive(Debug, Clone, Copy, PartialEq, Eq, PartialOrd, Ord, Structural)]
pub struct VarInt(i32);

/// The unsigned number with the same 32 bits as `v`.
pub open spec fn unsigned32(v: i32) -> nat {
    if v >= 0 {
        v as nat
    } else {
        (v + 0x1_0000_0000) as nat
    }
}

/// The signed number with the low 32 bits of `n`.
pub open spec fn signed32(n: nat) -> i32 {
    let low = n % 0x1_0000_0000;
    if low < 0x8000_0000 {
        low as i32
    } else {
        (low - 0x1_0000_0000) as i32
    }
}

/// What reading a [`VarInt`] from `buf` gives. Five bytes that all announce
/// another one are too many. Otherwise the bytes up to the first one that
/// announces none spell the number, of which the low 32 bits count; where
/// the buffer ends before such a byte, what is there spells it.
pub open spec fn var_int_decoded(buf: Seq<u8>) -> Result<i32, VarIntError> {
    if buf.len() >= 5 && all_continue(buf, 5) {
        Err(VarIntError::DecodeOverflow)
    } else {
        Ok(signed32(groups_value(buf.take(bytes_read(buf) as int))))
    }
}

/// The 32-bit facts behind writing: the test for the last byte, the byte
/// with the high bit, and the shift to the next group.
proof fn lemma_encode_step(n: u32)
    by (bit_vector)
    ensures
        (n & !0x7Fu32 == 0) <==> n < 128,
        (n & 0x7Fu32) | 0x80u32 == n % 128 + 128,
        n >> 7u32 == n / 128,
{
}

/// Reinterpreting the 32 bits of a signed number.
proof fn lemma_reinterpret(v: i32)
    by (bit_vector)
    ensures
        v >= 0 ==> v as u32 == v,
        v < 0 ==> v as u32 == v + 0x1_0000_0000,
{
}

/// Reinterpreting 32 bits as a signed number.
proof fn lemma_reinterpret_back(n: u32)
    by (bit_vector)
    ensures
        n < 0x8000_0000u32 ==> n as i32 == n,
        n >= 0x8000_0000u32 ==> n as i32 == n - 0x1_0000_0000,
{
}

/// The 32-bit facts behind reading: a group that is shifted to its place
/// and ORed in is added, and the fifth group keeps its low four bits.
proof fn lemma_decode_step(value: u32, b: u8, position: u32, weight: u32)
    by (bit_vector)
    requires
        position == 0 || position == 7 || position == 14 || position == 21 || position == 28,
        value < weight,
        position == 0 ==> weight == 0x1,
        position == 7 ==> weight == 0x80,
        position == 14 ==> weight == 0x4000,
        position == 21 ==> weight == 0x200000,
        position == 28 ==> weight == 0x10000000,
    ensures
        position < 28 ==> value | (((b & 0x7Fu8) as u32) << position) == value + (b % 128) as u32 * weight,
        position == 28 ==> value | (((b & 0x7Fu8) as u32) << position) == value + (b % 16) as u32 * weight,
        (b & 0x80u8 == 0) <==> b < 128,
{
}

/// Reading what was written gives the value back: the bytes that
/// [`VarInt::encode`] writes for `v` are bytes that [`VarInt::decode`] reads
/// as `v`.
pub proof fn law_written_value_reads_back(v: i32)
    ensures
        var_int_decoded(leb128(unsigned32(v))) == Ok::<i32, VarIntError>(v),
{
    let n = unsigned32(v);
    let bytes = leb128(n);
    lemma_group_weights();
    lemma_leb128_len(n, 5);
    lemma_leb128_reads_back(n);
    assert(bytes.take(bytes.len() as int) =~= bytes);
    if bytes.len() == 5 {
        assert(bytes[4] == bytes.last());
    }
}

impl VarInt {
    /// Wraps a value.
    #[must_use]
    pub fn new(value: i32) -> (r: Self)
        ensures
            r.value() == value,
    {
        VarInt(value)
    }

    /// The value.
    #[must_use]
    #[verifier::when_used_as_spec(value_spec)]
    pub fn value(&self) -> (r: i32)
        ensures
            r == self.value(),
    {
        self.0
    }

    /// The value.
    pub closed spec fn value_spec(&self) -> i32 {
        self.0
    }
}

impl<'a> SerDe<'a> for VarInt {
    type Input = &'a [u8];

    type Serialized = DataResult<Vec<u8>>;

    type Deserialized = DataResult<VarInt>;

    /// Every input can be read.
    open spec fn decodable(data: &'a [u8]) -> bool {
        true
    }

    /// Reads a [`VarInt`] from the start of `buf`; see [`var_int_decoded`].
    fn decode(buf: &'a [u8]) -> (r: DataResult<VarInt>)
        ensures
            match var_int_decoded(buf@) {
                Ok(v) => r.is_ok() && r.unwrap().value() == v,
                Err(e) => r == Err::<VarInt, Errors>(Errors::VarIntError(e)),
            },
    {
        let mut value: u32 = 0;
        let mut position: u32 = 0;
        let mut i: usize = 0;
        proof {
            lemma_group_weights();
            assert(buf@.take(0) =~= Seq::<u8>::empty());
        }
        while i < buf.len()
            invariant
                i <= buf@.len(),
                i <= 4,
                position == 7 * i,
                all_continue(buf@, i as int),
                value == groups_value(buf@.take(i as int)),
                value < group_weight(i as nat),
            decreases buf@.len() - i,
        {
            let b: u8 = buf[i];
            let ghost low = value as nat;
            let ghost total = groups_value(buf@.take(i + 1));
            proof {
                lemma_group_weights();
                lemma_decode_step(value, b, position, group_weight(i as nat) as u32);
                let next = buf@.take(i + 1);
                assert(next.drop_last() =~= buf@.take(i as int));
                assert(next.last() == b);
                assert(total == low + (b % 128) as nat * group_weight(i as nat));
            }
            value = value | (((b & 0x7F) as u32) << position);
            proof {
                if i < 4 {
                    assert(value == total);
                }
            }
            if b & 0x80 == 0 {
                proof {
                    lemma_bytes_read_continues(buf@, i as int);
                    lemma_reinterpret_back(value);
                    lemma_groups_bound(buf@.take(i as int));
                    if i == 4 {
                        let high = (b % 128) as nat;
                        assert(total == low + high * 0x1000_0000);
                        assert(total % 0x1_0000_0000 == low + (high % 16) * 0x1000_0000) by (nonlinear_arith)
                            requires
                                total == low + high * 0x1000_0000,
                                low < 0x1000_0000,
                                high < 128,
                        ;
                    } else {
                        lemma_groups_bound(buf@.take(i + 1));
                    }
                    assert(value == total % 0x1_0000_0000);
                    assert(!all_continue(buf@, 5)) by {
                        if all_continue(buf@, 5) {
                            assert(buf@[i as int] >= 128);
                        }
                    }
                }
                return Ok(VarInt(#[verifier::truncate] (value as i32)));
            }
            position += 7;
            if position >= 32 {
                proof {
                    assert forall|j: int| 0 <= j < 5 implies #[trigger] buf@[j] >= 128 by {
                        if j < 4 {
                            assert(buf@[j] >= 128);
                        }
                    }
                }
                return Err(Errors::VarIntError(VarIntError::DecodeOverflow));
            }
            i += 1;
        }
        proof {
            lemma_bytes_read_continues(buf@, i as int);
            lemma_reinterpret_back(value);
            assert(!all_continue(buf@, 5) || buf@.len() < 5);
        }
        Ok(VarInt(#[verifier::truncate] (value as i32)))
    }

    /// Writes the value: the variable-length form of the unsigned number
    /// with the same 32 bits, so one to five bytes. It never fails.
    fn encode(&self) -> (r: DataResult<Vec<u8>>)
        ensures
            r.is_ok(),
            r.unwrap()@ == leb128(unsigned32(self.value())),
    {
        let mut bytes: Vec<u8> = Vec::new();
        let mut n: u32 = #[verifier::truncate] (self.0 as u32);
        proof {
            lemma_reinterpret(self.0);
        }
        loop
            invariant
                bytes@ + leb128(n as nat) == leb128(unsigned32(self.0)),
            decreases n,
        {
            proof {
                lemma_encode_step(n);
            }
            if n & !0x7F == 0 {
                bytes.push(n as u8);
                return Ok(bytes);
            }
            let ghost before = bytes@;
            bytes.push(((n & 0x7F) | 0x80) as u8);
            proof {
                assert(before + leb128(n as nat) =~= bytes@ + leb128((n / 128) as nat));
            }
            n = n >> 7;
        }
    }
}

impl From<i32> for VarInt {
    fn from(value: i32) -> (r: VarInt)
        ensures
            r.value() == value,
    {
        VarInt(value)
    }
}

impl FromSpecImpl<i32> for VarInt {
    open spec fn obeys_from_spec() -> bool {
        true
    }

    closed spec fn from_spec(value: i32) -> VarInt {
        VarInt(value)
    }
}

impl From<VarInt> for i32 {
    fn from(value: VarInt) -> (r: i32) {
        value.0
    }
}

impl FromSpecImpl<VarInt> for i32 {
    open spec fn obeys_from_spec() -> bool {
        true
    }

    open spec fn from_spec(value: VarInt) -> i32 {
        value.value()
    }
}

} // verus!
