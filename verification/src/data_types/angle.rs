//! A rotation angle in steps of 1/256 of a full turn.

use vstd::prelude::*;
use vstd::std_specs::convert::FromSpecImpl;

verus! {

/// A rotation angle in steps of 1/256 of a full turn.
pub struct Angle(u8);

impl Angle {
    /// The number of steps.
    pub closed spec fn steps(&self) -> u8 {
        self.0
    }
}

impl From<u8> for Angle {
    /// The angle of `value` steps.
    fn from(value: u8) -> (r: Angle)
        ensures
            r.steps() == value,
    {
        Angle(value)
    }
}

impl FromSpecImpl<u8> for Angle {
    open spec fn obeys_from_spec() -> bool {
        true
    }

    closed spec fn from_spec(value: u8) -> Angle {
        Angle(value)
    }
}

impl From<Angle> for u8 {
    /// The steps of the angle.
    fn from(value: Angle) -> (r: u8) {
        value.0
    }
}

impl FromSpecImpl<Angle> for u8 {
    open spec fn obeys_from_spec() -> bool {
        true
    }

    open spec fn from_spec(value: Angle) -> u8 {
        value.steps()
    }
}

} // verus!
