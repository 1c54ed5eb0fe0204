//! A string on the wire: its length in bytes as a [`VarInt`], then its
//! UTF-8 bytes.

use vstd::prelude::*;
use vstd::std_specs::convert::FromSpecImpl;
use core::str::FromStr;
use vstd::slice::slice_subrange;
use vstd::slice::slice_to_vec;
use vstd::string::StrSliceExecFns;
use vstd::utf8::{
    decode_utf8, encode_utf8, encode_utf8_decode_utf8, encode_utf8_valid_utf8, valid_utf8,
};
use super::leb128::{
    bytes_read, groups_value, leb128, lemma_bytes_read_bound, lemma_group_weight_grows,
    lemma_bytes_read_continues, lemma_group_weights, lemma_groups_bound, lemma_leb128_len,
    lemma_leb128_reads_back,
};
use super::primitives::{DataResult, Errors, SerDe};
use super::var_int::{signed32, unsigned32, var_int_decoded, VarInt, VarIntError};

verus! {

/// The greatest length that a string may be given.
pub const MAX_SIZE: u32 = 32767;

/// Why a string could not be made, read or written.
#[derive(Debug, Clone, Copy, PartialEq, Eq, PartialOrd, Ord, Structural)]
pub enum StringError {
    /// The bytes are not UTF-8.
    InvalidUTF8,
    /// The length that the bytes announce is not the length that follows.
    InvalidLength,
    /// The string is longer than it may be.
    OutOfBoundsLength,
    /// The UTF-8 form of the string is longer than it may be.
    OutOfBoundsEncoding,
}

/// A string with a limit on its length in bytes.
#[derive(Debug, Clone, PartialEq, Eq, PartialOrd, Ord)]
pub struct String {
    pub data: std::string::String,
    max_size: u32,
}

/// Converts bytes to a string with `std::string::String::from_utf8`:
/// `Some` of the string that the bytes spell where they are valid UTF-8,
/// `None` where they are not.
#[verifier::external_body]
fn string_from_utf8(bytes: Vec<u8>) -> (r: Option<std::string::String>)
    ensures
        r.is_some() == valid_utf8(bytes@),
        r.is_some() ==> r.unwrap()@ == decode_utf8(bytes@),
{
    match std::string::String::from_utf8(bytes) {
        Ok(s) => Some(s),
        Err(_) => None,
    }
}

/// The length of a text in bytes, as the machine counts it.
pub open spec fn byte_len(text: Seq<char>) -> usize {
    encode_utf8(text).len() as usize
}

/// What reading a string from `data` gives: the text and the length that
/// the bytes announce. The bytes behind the length are the text. The
/// length is taken to fill as many bytes as its shortest form has.
pub open spec fn string_decoded(data: Seq<u8>) -> Result<(Seq<char>, u32), Errors> {
    match var_int_decoded(data) {
        Err(e) => Err(Errors::VarIntError(e)),
        Ok(size) => {
            let rest = data.skip(leb128(unsigned32(size)).len() as int);
            if !valid_utf8(rest) {
                Err(Errors::StringError(StringError::InvalidUTF8))
            } else if size < 0 || size != rest.len() {
                Err(Errors::StringError(StringError::InvalidLength))
            } else {
                Ok((decode_utf8(rest), size as u32))
            }
        },
    }
}

impl View for String {
    type V = Seq<char>;

    /// The text.
    closed spec fn view(&self) -> Seq<char> {
        self.data@
    }
}

/// The shortest form of a length has no more bytes than a reader took to
/// read it, and one byte where the reader took none.
proof fn lemma_length_prefix_fits(data: Seq<u8>)
    requires
        data.len() > 0,
        var_int_decoded(data).is_ok(),
    ensures
        leb128(unsigned32(var_int_decoded(data).unwrap())).len() <= data.len(),
{
    let k = bytes_read(data);
    lemma_bytes_read_bound(data);
    let prefix = data.take(k as int);
    let total = groups_value(prefix);
    lemma_groups_bound(prefix);
    lemma_group_weights();
    let size = signed32(total);
    let n = unsigned32(size);
    assert(n == total % 0x1_0000_0000);
    if data.len() >= 5 {
        lemma_leb128_len(n, 5);
    } else {
        lemma_group_weight_grows(k, data.len());
        lemma_leb128_len(n, data.len());
    }
}

/// Reading what was written gives the text back: the bytes that
/// [`String::encode`] writes for a text are bytes that [`String::decode`]
/// reads as that text, with the length of the text in bytes as the limit.
pub proof fn law_written_string_reads_back(text: Seq<char>)
    requires
        encode_utf8(text).len() <= i32::MAX,
    ensures
        string_decoded(leb128(encode_utf8(text).len()) + encode_utf8(text)) == Ok::<
            (Seq<char>, u32),
            Errors,
        >((text, encode_utf8(text).len() as u32)),
{
    let bytes = encode_utf8(text);
    let n = bytes.len();
    let prefix = leb128(n);
    let data = prefix + bytes;
    lemma_group_weights();
    lemma_leb128_len(n, 5);
    lemma_leb128_reads_back(n);
    let k = prefix.len() as int;
    assert forall|j: int| 0 <= j < k - 1 implies #[trigger] data[j] >= 128 by {
        assert(data[j] == prefix[j]);
    }
    assert(data[k - 1] == prefix.last());
    lemma_bytes_read_continues(data, k - 1);
    assert(data.take(k) =~= prefix);
    assert(!(data.len() >= 5 && forall|j: int| 0 <= j < 5 ==> #[trigger] data[j] >= 128));
    assert(var_int_decoded(data) == Ok::<i32, VarIntError>(n as i32));
    assert(unsigned32(n as i32) == n);
    assert(data.skip(k) =~= bytes);
    encode_utf8_valid_utf8(text);
    encode_utf8_decode_utf8(text);
}

impl String {
    /// The limit on the length in bytes.
    pub closed spec fn limit(&self) -> u32 {
        self.max_size
    }

    /// Creates an empty string with the limit `len`, or with the greatest
    /// limit, 32767, where none is given. A greater limit is refused.
    pub fn new(len: Option<u32>) -> (r: DataResult<Self>)
        ensures
            match len {
                Some(n) if n > MAX_SIZE => r == Err::<Self, Errors>(
                    Errors::StringError(StringError::OutOfBoundsLength),
                ),
                Some(n) => r.is_ok() && r.unwrap()@.len() == 0 && r.unwrap().limit() == n,
                None => r.is_ok() && r.unwrap()@.len() == 0 && r.unwrap().limit() == MAX_SIZE,
            },
    {
        let len: u32 = match len {
            Some(n) => n,
            None => MAX_SIZE,
        };
        if len > MAX_SIZE {
            return Err(Errors::StringError(StringError::OutOfBoundsLength));
        }
        Ok(String { data: std::string::String::new(), max_size: len })
    }

    /// Which error, if any, keeps a text of `bytes` bytes out of a string
    /// with the limit `limit`.
    pub open spec fn refusal(bytes: usize, limit: u32) -> Option<Errors> {
        if bytes > limit {
            Some(Errors::StringError(StringError::OutOfBoundsLength))
        } else if bytes > MAX_SIZE * 3 {
            Some(Errors::StringError(StringError::OutOfBoundsEncoding))
        } else {
            None
        }
    }

    /// Replaces the text by `string`. A string of more bytes than the
    /// limit, or of more than three times 32767 bytes, is refused and
    /// nothing changes.
    pub fn insert(&mut self, string: std::string::String) -> (r: DataResult<&mut Self>)
        ensures
            match r {
                Ok(this) => Self::refusal(byte_len(string@), old(self).limit()).is_none()
                    && this@ == string@ && this.limit() == old(self).limit() && *final(self)
                    == *final(this),
                Err(e) => Self::refusal(byte_len(string@), old(self).limit()) == Some(e)
                    && *final(self) == *old(self),
            },
    {
        let bytes: usize = string.as_str().len();
        if bytes > self.max_size as usize {
            return Err(Errors::StringError(StringError::OutOfBoundsLength));
        }
        if bytes > (MAX_SIZE * 3) as usize {
            return Err(Errors::StringError(StringError::OutOfBoundsEncoding));
        }
        self.data = string;
        Ok(self)
    }

    /// Does what [`String::insert`] does: the text becomes `string`, and
    /// what was there before is gone.
    pub fn concat(&mut self, string: std::string::String) -> (r: DataResult<&mut Self>)
        ensures
            match r {
                Ok(this) => Self::refusal(byte_len(string@), old(self).limit()).is_none()
                    && this@ == string@ && this.limit() == old(self).limit() && *final(self)
                    == *final(this),
                Err(e) => Self::refusal(byte_len(string@), old(self).limit()) == Some(e)
                    && *final(self) == *old(self),
            },
    {
        self.insert(string)
    }
}

impl<'a> SerDe<'a> for String {
    type Input = &'a [u8];

    type Serialized = DataResult<Vec<u8>>;

    type Deserialized = DataResult<String>;

    /// There is at least one byte to read.
    open spec fn decodable(data: &'a [u8]) -> bool {
        data@.len() > 0
    }

    /// Writes the length of the text in bytes, as a [`VarInt`], and then
    /// the UTF-8 bytes of the text. A text of more bytes than a `VarInt`
    /// counts is refused.
    fn encode(&self) -> (r: DataResult<Vec<u8>>)
        ensures
            byte_len(self@) > i32::MAX ==> r == Err::<Vec<u8>, Errors>(
                Errors::StringError(StringError::OutOfBoundsLength),
            ),
            byte_len(self@) <= i32::MAX ==> r.is_ok() && r.unwrap()@ == leb128(
                byte_len(self@) as nat,
            ) + encode_utf8(self@),
    {
        let count: usize = self.data.as_str().len();
        if count > i32::MAX as usize {
            return Err(Errors::StringError(StringError::OutOfBoundsLength));
        }
        let len: i32 = count as i32;
        let mut bytes: Vec<u8> = match VarInt::new(len).encode() {
            Ok(bytes) => bytes,
            Err(e) => {
                return Err(e);
            },
        };
        let mut text: Vec<u8> = self.data.as_str().as_bytes_vec();
        bytes.append(&mut text);
        Ok(bytes)
    }

    /// Reads a string: a length, then the text; see [`string_decoded`].
    fn decode(data: &'a [u8]) -> (r: DataResult<String>)
        ensures
            match string_decoded(data@) {
                Ok((text, limit)) => r.is_ok() && r.unwrap()@ == text && r.unwrap().limit()
                    == limit,
                Err(e) => r == Err::<String, Errors>(e),
            },
    {
        let size: VarInt = match VarInt::decode(data) {
            Ok(size) => size,
            Err(e) => {
                return Err(e);
            },
        };
        let prefix: Vec<u8> = match size.encode() {
            Ok(prefix) => prefix,
            Err(e) => {
                return Err(e);
            },
        };
        let position: usize = prefix.len();
        proof {
            lemma_length_prefix_fits(data@);
        }
        let rest: &[u8] = slice_subrange(data, position, data.len());
        assert(rest@ =~= data@.skip(position as int));
        let text: std::string::String = match string_from_utf8(slice_to_vec(rest)) {
            Some(text) => text,
            None => {
                return Err(Errors::StringError(StringError::InvalidUTF8));
            },
        };
        if size.value() < 0 || size.value() as usize != rest.len() {
            return Err(Errors::StringError(StringError::InvalidLength));
        }
        Ok(String { data: text, max_size: size.value() as u32 })
    }
}

impl FromStr for String {
    type Err = Errors;

    /// The string with the text `s` and the length of `s` in bytes as its
    /// limit. A text of more than 32767 bytes is refused.
    fn from_str(s: &str) -> (r: Result<String, Errors>)
        ensures
            byte_len(s@) > MAX_SIZE ==> r == Err::<String, Errors>(
                Errors::StringError(StringError::OutOfBoundsLength),
            ),
            byte_len(s@) <= MAX_SIZE ==> r.is_ok() && r.unwrap()@ == s@ && r.unwrap().limit()
                == byte_len(s@),
    {
        let count: usize = s.len();
        if count > MAX_SIZE as usize {
            return Err(Errors::StringError(StringError::OutOfBoundsLength));
        }
        let mut string: String = match String::new(Some(count as u32)) {
            Ok(string) => string,
            Err(e) => {
                return Err(e);
            },
        };
        match string.insert(s.to_owned()) {
            Ok(_) => {},
            Err(e) => {
                return Err(e);
            },
        }
        Ok(string)
    }
}

impl From<String> for std::string::String {
    fn from(string: String) -> (r: std::string::String)
        ensures
            r@ == string@,
    {
        string.data
    }
}

impl FromSpecImpl<String> for std::string::String {
    open spec fn obeys_from_spec() -> bool {
        false
    }

    open spec fn from_spec(string: String) -> std::string::String {
        choose|r: std::string::String| r@ == string@
    }
}

impl Default for String {
    /// The empty string with the limit 0.
    fn default() -> (r: String)
        ensures
            r@.len() == 0,
            r.limit() == 0,
    {
        String { data: std::string::String::new(), max_size: 0 }
    }
}

} // verus!
