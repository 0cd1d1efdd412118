//! Outgoing-traffic scheduler of an anonymity-network client.
//!
//! Packets leave at Poisson-distributed instants whether or not real data is
//! waiting: at each deadline a buffered real message, the first message of a
//! newly arrived batch, or a loop cover packet is emitted. In unshaped mode
//! each batch is passed straight through instead. The decisions are made
//! here, as functions from state and event to next state and action; waiting
//! on the clock and the channels is left to the caller.

pub mod config;
pub mod laws;
pub mod message;
pub mod out_queue;
