//! A terminal client for board-game engines that speak a line-based text
//! protocol: the wire codec, the engine request/reply logic, the board state
//! store with its lazily recomputed render layout, and the move coordinator.
pub mod board;
pub mod columns;
pub mod config;
pub mod coordinator;
pub mod entities;
pub mod errors;
pub mod events;
pub mod engine;
pub mod protocol;
pub mod reply;
pub mod store;
pub mod text;
