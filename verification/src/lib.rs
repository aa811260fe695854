//! Routing decisions for a chat translation relay.
//!
//! The crate decides, for one chat message at a time, whether the message is
//! worth translating, which language pair applies to its channel, which
//! translation requests have to be issued, and what the reply says. Network
//! and chat-platform work is left to the caller, which feeds the outcomes
//! back in as plain values.

pub mod client;
pub mod composer;
pub mod config;
pub mod dispatcher;
pub mod json;
pub mod lang;
