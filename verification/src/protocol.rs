//! Wire formats.
pub mod shred_wire;
