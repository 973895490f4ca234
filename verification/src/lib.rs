//! Core logic of a chat bot that looks after a Minecraft Bedrock server.
//!
//! The crate holds the decisions, the wire format and the texts; the caller
//! owns the child process, the sockets and the chat session, performs what a
//! function of this crate asks for and reports back what happened.
//!
//! * [`server_controller`]: lifecycle of the managed server process.
//! * [`probe`]: the discovery ping sent to the server and the reading of its pong.
//! * [`status`]: the single live status message of a channel.
//! * [`commands`]: the chat commands and the registration dialog.
//! * [`allowlist`]: the allowlist entries kept beside the server.
//! * [`language`], [`text`], [`search`]: display language, text building, run search.
pub mod allowlist;
pub mod commands;
pub mod language;
pub mod probe;
pub mod search;
pub mod server_controller;
pub mod status;
pub mod text;
