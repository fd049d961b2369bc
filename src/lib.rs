//! Verified core of a bridge between a game server's in-game chat and a
//! team chat platform.
//!
//! - [`chat`] reads chat lines out of the server's log and drops the bridge's
//!   own echoes.
//! - [`command`] builds the remote-console command that prints a platform
//!   message in the game, with the text escaped for a single-quoted Lua
//!   string literal.
//! - [`relay`] holds the decisions of the two relay directions: which inbound
//!   platform messages reach the game, and what the outbound sender does with
//!   each event it takes from its queue.

pub mod chat;
pub mod command;
pub mod relay;
pub mod text;
