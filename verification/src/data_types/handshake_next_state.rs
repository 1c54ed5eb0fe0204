//! What a handshake asks for next.

use vstd::prelude::*;

verus! {

/// The state that a client asks to enter with its handshake: 1 for the
/// status, 2 for the login, 3 for a transfer.
pub enum HandshakeNextState {
    Status,
    Login,
    Transfer,
}

} // verus!
