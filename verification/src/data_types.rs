//! The data types that travel on the wire.

pub mod angle;
pub mod bitset;
pub mod boolean;
pub mod entity_metadata;
pub mod handshake_next_state;
pub mod identifier;
pub mod leb128;
pub mod position;
pub mod primitives;
pub mod slot;
pub mod string;
pub mod var_int;
pub mod var_long;

pub use self::angle::Angle;
pub use self::bitset::range::{IndexRange, RangeSpec};
pub use self::bitset::{BitSet, BitSetError};
pub use self::boolean::{Boolean, BooleanError};
pub use self::entity_metadata::EntityMetadata;
pub use self::handshake_next_state::HandshakeNextState;
pub use self::identifier::{Identifier, IdentifierError};
pub use self::position::{Position, PositionError};
pub use self::primitives::{DataResult, Errors, SerDe};
pub use self::slot::{Slot, SlotData};
pub use self::string::{String, StringError};
pub use self::var_int::{VarInt, VarIntError};
pub use self::var_long::{VarLong, VarLongError};
