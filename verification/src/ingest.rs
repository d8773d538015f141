//! Packets on their way in: settings, the queue of packet batches and the UDP receiver.
pub mod config;
pub mod queue;
pub mod receiver;
