//! Client side of the MineChat line protocol: message codec, handshake
//! state machine and the event-driven session logic.

pub mod codec;
pub mod error;
pub mod handshake;
pub mod json;
pub mod protocol;
pub mod session;
pub mod store;
pub mod text;
