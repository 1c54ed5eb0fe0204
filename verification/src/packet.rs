//! Packets and where they belong.

use vstd::prelude::*;
use crate::data_types::var_int::VarInt;

verus! {

/// A packet as it travels.
pub struct Packet {
    /// The length of the packet id and the data.
    length: VarInt,
    packet_id: VarInt,
    data: Vec<u8>,
}

/// The state of a connection.
pub enum State {
    Handshaking,
    Status,
    Login,
    Configuration,
    Play,
}

/// The side that a packet is bound to.
pub enum BoundTo {
    Client,
    Server,
}

} // verus!
