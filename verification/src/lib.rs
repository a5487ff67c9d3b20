//! A minimal line-oriented text chat library: the wire codec for chat
//! commands, the client controller state, and the server-side broadcast
//! registry. Terminal rendering and socket plumbing live outside; this
//! crate holds the protocol and the decisions, each with its contract.

pub mod chan;
pub mod client;
pub mod lcommand;
pub mod server;
pub mod session;
