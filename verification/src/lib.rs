//! Decision logic of a game-log relay session.
//!
//! A session listens for structured log events that a running game sends over a
//! socket, hands them through a queue to a dispatch stage, and optionally
//! supervises the game process itself. Sockets, processes, files and the async
//! runtime live with the caller; this crate holds what such a session decides:
//! how an event is rendered and where it is routed, which warnings a player has
//! to acknowledge before launch, and how the session moves from one step to the
//! next until the first failure or the last success.

pub mod message;
pub mod session;
pub mod warning;
