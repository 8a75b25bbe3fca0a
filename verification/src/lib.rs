//! The decision core of a matchmaking node of an intent-gossip network.
//!
//! A matchmaker listens for intents gossiped by peers, feeds each one to a
//! matching algorithm loaded at run time, and turns what the algorithm
//! answers into a settlement transaction for the ledger and an announcement
//! back into the gossip network.
//!
//! This crate holds the two state machines that decide what happens next,
//! and the wire format of the settlement transaction's body. The program
//! around it performs the blocking and asynchronous work (loading the
//! algorithm, receiving from the network, talking to the ledger) and reports
//! back what happened.

pub mod channel;
pub mod framing;
pub mod message;
pub mod result_handler;
pub mod runner;

pub use message::{Intent, MatchOutcome, MatchmakerMessage};
pub use result_handler::ResultHandler;
pub use runner::Runner;
