//! A verified core for a channel chat relay.
//!
//! The library models the decision logic of a bot that listens for channel
//! messages, assembles the recent channel history into a role-tagged prompt,
//! asks a completion service for replies, and posts each reply back to the
//! channel. Everything the bot decides — which inbound messages qualify,
//! what the prompt and the completion request contain, which outbound
//! messages are sent and in what order, and how a failed send is handled —
//! is stated in contracts and proved. The network calls themselves (gateway,
//! history fetch, completion request, outbound send) live outside the
//! library and consume the plain values it produces.

pub mod config;
pub mod model;
pub mod outbound;
pub mod prompt;
