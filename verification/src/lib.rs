//! Coordination core of an interactive peer-to-peer chat client.
//!
//! A human types lines on a console; each line either switches the active
//! conversation partner or is sent as a chat message to that partner, while
//! inbound messages are printed asynchronously. This crate holds the verified
//! logic of that client: how a raw input line is interpreted against the
//! current conversation context, how prompts, bus endpoints, inbound events
//! and send acknowledgments are rendered, and the capacity-one handoff
//! discipline between the blocking input side and the dispatching side.
//! Terminal I/O and the message bus itself live outside, at the edges.

pub mod handoff;
pub mod input;
pub mod render;
pub mod session;
pub mod text;
