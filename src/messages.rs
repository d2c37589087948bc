use vstd::prelude::*;

use crate::pong_state::PongState;

verus! {

/// Which of the two paddles a client controls.
#[derive(Debug, Clone, Copy, PartialEq, Eq, Structural)]
pub enum PlayerOrder {
    P1,
    P2,
}

/// Messages sent from the server to a client. The transport's own events
/// (`Timeout`, `Disconnect`, `Connect`) are reported in the same vocabulary.
#[derive(Debug, Clone, Copy)]
pub enum ServerMsg {
    Hi,
    Ping,
    Timeout,
    Disconnect,
    Connect,
    Start(PlayerOrder),
    State(PongState),
    Abort,
}

/// Messages sent from a client to the server. The transport's own events
/// (`Timeout`, `Connect`, `Disconnect`) are reported in the same vocabulary.
#[derive(Debug, Clone, Copy, PartialEq, Eq, Structural)]
pub enum ClientMsg {
    Hi,
    Pong,
    Timeout,
    Connect,
    Disconnect,
    MoveUp,
    MoveDown,
}

/// A network endpoint: an IPv6 address (IPv4 ones mapped into it) and a port.
#[derive(Debug, Clone, Copy, PartialEq, Eq, Structural, Hash)]
pub struct PeerId {
    pub ip: u128,
    pub port: u16,
}

} // verus!
