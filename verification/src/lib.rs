//! Verified core of a byte-transparent TCP relay.
//!
//! The relay accepts downstream connections, opens one upstream connection
//! for each, and copies bytes both ways until both directions have closed.
//! This crate holds the decisions of that engine and the shared counters it
//! keeps; sockets, tasks and locks belong to the program around it, which
//! performs each action a step asks for and reports back what happened.
//!
//! * [`addr`]: the peer address, as plain integers.
//! * [`state`]: the shared connection counters and the set of peers seen.
//! * [`relay`]: the duplex copy of one connection, direction by direction.
//! * [`connection`]: the lifecycle of one forwarded connection.
//! * [`listener`]: the accept loop.
//! * [`engine`]: the whole relay as a model, and what holds of every run.

pub mod addr;
pub mod state;
pub mod relay;
pub mod connection;
pub mod listener;
pub mod engine;
