//! Connection establishment and lifecycle for a peer-to-peer data channel.
//!
//! Two peers that cannot see each other's address agree on a session
//! description and a set of connectivity candidates over some signaling
//! channel, and then exchange binary messages directly. This crate holds the
//! decisions of that handshake and of the channel's life, and none of the
//! input and output: every operation of the connectivity engine is handed out
//! as a [`engine::Request`] or a [`engine::Command`], and what the engine
//! answers is handed back as a [`engine::Completion`] or a
//! [`engine::Signal`].
//!
//! A round is driven like this: call [`connection::Connection::prepare`],
//! [`connection::Connection::create_answer`],
//! [`connection::Connection::set_remote`] or
//! [`connection::Connection::add_ice_candidates`]; while the step is a
//! request, perform it and pass its completion to
//! [`connection::Connection::resume`]; when the step is done, it holds the
//! result of the round.
//!
//! - [`candidate`]: candidates and their transport form.
//! - [`collector`]: the queue between the engine's candidate handler and the
//!   drain of a round.
//! - [`config`]: the fixed parts that a connection is built from.
//! - [`engine`]: the vocabulary between connection and engine.
//! - [`protocol`]: the handshake and the lifecycle as a mathematical state
//!   machine.
//! - [`connection`]: the executable connection, proved to follow it.
//! - [`laws`]: what holds of every run.

pub mod candidate;
pub mod collector;
pub mod config;
pub mod connection;
pub mod engine;
pub mod laws;
pub mod protocol;
