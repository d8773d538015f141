//! Observation of a ledger: packets from the network are collected into batches and cached,
//! shreds are put together into data sets and slots, and transactions, accounts and slots come in
//! from outside providers.
//!
//! Everything here computes on values: sockets, queues between tasks and clocks are handed in by
//! the caller, who performs the actions that a state machine asks for and reports what happened.
use vstd::prelude::*;

pub mod bytes;
pub mod event;
pub mod framework;
pub mod ingest;
pub mod json;
pub mod protocol;
pub mod provider_stream;
pub mod reassembly;
pub mod relay;
pub mod shred;
pub mod slots;
pub mod text;
pub mod time;
pub mod transaction;

verus! {

} // verus!
