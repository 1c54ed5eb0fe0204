//! Wire-format primitives of a block-game network protocol.

pub mod data_types;
pub mod packet;
pub mod values;
