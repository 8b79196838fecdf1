//! Decision core of a small real-time multiplayer session server.
//!
//! The server admits players that present the room code, keeps the roster of
//! connected players, relays gameplay actions between them and tears the
//! session down on request. Everything here is a decision: a function from
//! the current roster and an event to the next roster and the messages that
//! have to be delivered. Sockets and timers belong to the caller, and so does
//! every send and every receive; of the channels, the ends are made here and
//! handed out.

pub mod message;
pub mod channel;
pub mod registry;
pub mod handshake;
pub mod relay;
pub mod controller;
pub mod players;
pub mod screen;
pub mod guarantees;
