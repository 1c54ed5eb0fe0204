//! What the data types share: the error that gathers theirs, and the
//! trait of the types that have a wire form.

use vstd::prelude::*;
use vstd::std_specs::convert::{FromSpecImpl, IntoSpec};
use super::boolean::BooleanError;
use super::identifier::IdentifierError;
use super::position::PositionError;
use super::string::StringError;
use super::var_int::VarIntError;
use super::var_long::VarLongError;

verus! {

/// The error of any data type.
#[derive(Debug, Clone, Copy, PartialEq, Eq)]
pub enum Errors {
    VarIntError(VarIntError),
    VarFloatError(VarLongError),
    IdentifierError(IdentifierError),
    StringError(StringError),
    BooleanError(BooleanError),
    PositionError(PositionError),
}

impl Errors {
    /// The failure with `error` as its reason.
    pub fn err<T, E: Into<Errors>>(error: E) -> (r: DataResult<T>)
        ensures
            r.is_err(),
            <E as IntoSpec<Errors>>::obeys_into_spec() ==> r == Err::<T, Errors>(error.into_spec()),
    {
        Err(error.into())
    }

    /// A function that puts `error` in the place of whatever error it is
    /// given.
    pub fn map<E, I: Into<Errors>>(error: I) -> (f: impl FnOnce(E) -> Errors)
        ensures
            forall|e: E| call_requires(f, (e,)),
            forall|e: E, out: Errors|
                call_ensures(f, (e,), out) && <I as IntoSpec<Errors>>::obeys_into_spec() ==> out
                    == error.into_spec(),
    {
        move |_e: E| -> (out: Errors)
            ensures
                <I as IntoSpec<Errors>>::obeys_into_spec() ==> out == error.into_spec(),
            { error.into() }
    }
}

/// The result of an operation on a data type.
pub type DataResult<T> = Result<T, Errors>;

/// A type with a wire form.
pub trait SerDe<'a> {
    /// What decoding reads.
    type Input;

    /// What encoding gives.
    type Serialized;

    /// What decoding gives.
    type Deserialized;

    /// Whether `data` can be handed to `decode`.
    spec fn decodable(data: Self::Input) -> bool;

    /// Gives the wire form of the value.
    fn encode(&self) -> Self::Serialized;

    /// Reads a value from its wire form.
    fn decode(data: Self::Input) -> Self::Deserialized
        requires
            Self::decodable(data),
    ;
}

impl From<VarIntError> for Errors {
    fn from(error: VarIntError) -> (r: Errors) {
        Errors::VarIntError(error)
    }
}

impl FromSpecImpl<VarIntError> for Errors {
    open spec fn obeys_from_spec() -> bool {
        true
    }

    open spec fn from_spec(error: VarIntError) -> Errors {
        Errors::VarIntError(error)
    }
}

impl From<VarLongError> for Errors {
    fn from(error: VarLongError) -> (r: Errors) {
        Errors::VarFloatError(error)
    }
}

impl FromSpecImpl<VarLongError> for Errors {
    open spec fn obeys_from_spec() -> bool {
        true
    }

    open spec fn from_spec(error: VarLongError) -> Errors {
        Errors::VarFloatError(error)
    }
}

impl From<BooleanError> for Errors {
    fn from(error: BooleanError) -> (r: Errors) {
        Errors::BooleanError(error)
    }
}

impl FromSpecImpl<BooleanError> for Errors {
    open spec fn obeys_from_spec() -> bool {
        true
    }

    open spec fn from_spec(error: BooleanError) -> Errors {
        Errors::BooleanError(error)
    }
}

impl From<IdentifierError> for Errors {
    fn from(error: IdentifierError) -> (r: Errors) {
        Errors::IdentifierError(error)
    }
}

impl FromSpecImpl<IdentifierError> for Errors {
    open spec fn obeys_from_spec() -> bool {
        true
    }

    open spec fn from_spec(error: IdentifierError) -> Errors {
        Errors::IdentifierError(error)
    }
}

impl From<StringError> for Errors {
    fn from(error: StringError) -> (r: Errors) {
        Errors::StringError(error)
    }
}

impl FromSpecImpl<StringError> for Errors {
    open spec fn obeys_from_spec() -> bool {
        true
    }

    open spec fn from_spec(error: StringError) -> Errors {
        Errors::StringError(error)
    }
}

impl From<PositionError> for Errors {
    fn from(error: PositionError) -> (r: Errors) {
        Errors::PositionError(error)
    }
}

impl FromSpecImpl<PositionError> for Errors {
    open spec fn obeys_from_spec() -> bool {
        true
    }

    open spec fn from_spec(error: PositionError) -> Errors {
        Errors::PositionError(error)
    }
}

} // verus!
