//! A two-player networked paddle-and-ball game: the deterministic simulation
//! tick, the server's session state machine and the client's reconciliation
//! logic. Transport, rendering and process setup live outside this library.

pub mod constants;
pub mod pong_state;
pub mod messages;
pub mod session;
pub mod client;
