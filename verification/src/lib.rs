//! Decision logic of a chat bot that, in group chats and with a fixed
//! probability, answers a message with a text drawn from a table of replies.
//!
//! The crate performs no input or output. The caller delivers each inbound
//! message, runs the store read and the send that a [`handler::Step`] asks
//! for, and hands their outcomes back.

pub mod chat;
pub mod gate;
pub mod handler;
pub mod store;
