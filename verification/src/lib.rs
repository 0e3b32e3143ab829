//! Core of a single-page chat session: an ordered, append-only message log
//! driven by user input, with one outstanding asynchronous reply per send.
//!
//! The presentation layer and the network call live outside this crate; they
//! interact with the session only through [`session::SessionController`] and
//! the read access that [`message_log::MessageLog`] offers.

pub mod message;
pub mod message_log;
pub mod render;
pub mod session;
