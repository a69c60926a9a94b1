//! Decision logic of a chat-gateway fan-out client.
//!
//! The crate holds everything the client decides: how a bulk channel
//! creation is split into batches, what a generated channel name looks
//! like, which channels receive a repeating sender, what each message says,
//! and how the one-shot setup moves from the ready signal to the running
//! fan-out. Network calls, file access and task spawning are left to the
//! caller, which feeds their outcomes back in as events.

pub mod config;
pub mod creator;
pub mod dispatcher;
pub mod error;
pub mod naming;
pub mod outcomes;
pub mod plan;
pub mod repeat;
pub mod sender;
pub mod text;
