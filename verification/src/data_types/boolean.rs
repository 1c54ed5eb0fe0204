//! A boolean as one byte.

use vstd::prelude::*;
use vstd::std_specs::convert::FromSpecImpl;
use super::primitives::{DataResult, Errors, SerDe};

verus! {

/// Why a byte is no boolean.
#[derive(Debug, Clone, Copy, PartialEq, Eq, PartialOrd, Ord)]
pub enum BooleanError {
    /// The byte is neither `0x00` nor `0x01`.
    InvalidValue(&'static str),
}

/// A boolean with a wire form of one byte.
#[derive(Debug, Clone, PartialEq, Eq, PartialOrd, Ord)]
pub struct Boolean(bool);

impl Boolean {
    /// The boolean that the value holds.
    pub closed spec fn is_true(&self) -> bool {
        self.0
    }
}

impl<'a> SerDe<'a> for Boolean {
    type Input = u8;

    type Serialized = u8;

    type Deserialized = DataResult<Boolean>;

    /// Every input can be read.
    open spec fn decodable(data: u8) -> bool {
        true
    }

    /// `0x01` for `true` and `0x00` for `false`.
    fn encode(&self) -> (r: u8)
        ensures
            r == if self.is_true() {
                1u8
            } else {
                0u8
            },
    {
        if self.0 {
            1
        } else {
            0
        }
    }

    /// `0x00` is `false` and `0x01` is `true`; any other byte is refused.
    fn decode(data: u8) -> (r: DataResult<Boolean>)
        ensures
            data <= 1 ==> r.is_ok() && r.unwrap().is_true() == (data == 1),
            data > 1 ==> r == Err::<Boolean, Errors>(
                Errors::BooleanError(BooleanError::InvalidValue("Invalid byte value")),
            ),
    {
        match data {
            0x00 => Ok(Boolean(false)),
            0x01 => Ok(Boolean(true)),
            _ => Err(Errors::BooleanError(BooleanError::InvalidValue("Invalid byte value"))),
        }
    }
}

impl From<bool> for Boolean {
    fn from(value: bool) -> (r: Boolean)
        ensures
            r.is_true() == value,
    {
        Boolean(value)
    }
}

impl FromSpecImpl<bool> for Boolean {
    open spec fn obeys_from_spec() -> bool {
        true
    }

    closed spec fn from_spec(value: bool) -> Boolean {
        Boolean(value)
    }
}

impl From<Boolean> for bool {
    fn from(value: Boolean) -> (r: bool) {
        value.0
    }
}

impl FromSpecImpl<Boolean> for bool {
    open spec fn obeys_from_spec() -> bool {
        true
    }

    open spec fn from_spec(value: Boolean) -> bool {
        value.is_true()
    }
}

} // verus!
