//! Giving shreds on to others: a cache of recent shreds, and the frames of the relay server.
pub mod cache;
pub mod server;
