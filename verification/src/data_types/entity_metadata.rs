//! The metadata of an entity.

use vstd::prelude::*;

verus! {

/// The metadata of an entity.
pub struct EntityMetadata;

} // verus!
