//! The UDP receiver: batches of packets, counters and what to do next.
pub mod address;
pub mod batch;
pub mod telemetry;
pub mod udp;
