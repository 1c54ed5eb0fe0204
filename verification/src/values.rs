//! Tables of the protocol.

pub mod versions;
