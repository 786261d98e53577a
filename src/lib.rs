//! Coordination core of a two-player board game relay: the board, the rooms,
//! the registry of connections with its matchmaking queue, and the per-connection
//! session decisions. Transport, timers and JSON framing live outside this crate.

pub mod bitboard;
pub mod messages;
pub mod game_room;
pub mod server;
pub mod websocket;
