//! Core of a terminal chat client for an IRC-family protocol.
//!
//! This crate holds the parts of the client that carry real state: the
//! character-indexed input buffers behind the message composer and the
//! join prompt, the channel/membership state machine, and the dispatch
//! functions that map one event (a key press or an inbound protocol
//! event) to the next application state and an optional outbound
//! request. Everything here is plain data in, plain data out; the
//! network connection, the terminal, and the renderer live outside and
//! talk to this crate through the `Event` and `OutboundRequest` types.

pub mod app;
pub mod event;
pub mod handler;
pub mod input_buffer;
pub mod irc_handler;
pub mod join_input;
pub mod key_handler;
pub mod messagebox;
pub mod text;
