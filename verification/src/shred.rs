//! What is read from the headers of a shred.
use vstd::prelude::*;

verus! {

/// The fields that every shred has.
#[derive(Debug, Clone, Copy, PartialEq, Eq, Structural)]
pub struct ShredCommonHeader {
    /// Slot.
    pub slot: u64,
    /// Index in the slot.
    pub index: u32,
    /// Shred version of the cluster.
    pub version: u16,
    /// First data shred of its forward error correction set.
    pub fec_set_index: u32,
}

/// A data shred.
#[derive(Debug, Clone, Copy, PartialEq, Eq, Structural)]
pub struct ParsedDataShredHeader {
    /// The fields that every shred has.
    pub common: ShredCommonHeader,
}

/// A code shred.
#[derive(Debug, Clone, Copy, PartialEq, Eq, Structural)]
pub struct ParsedCodeShredHeader {
    /// The fields that every shred has.
    pub common: ShredCommonHeader,
}

/// The headers of a shred.
#[derive(Debug, Clone, Copy, PartialEq, Eq, Structural)]
pub enum ParsedShredHeader {
    /// Of a data shred.
    Data(ParsedDataShredHeader),
    /// Of a code shred.
    Code(ParsedCodeShredHeader),
}

/// The fields that every shred has.
pub open spec fn common_header(header: ParsedShredHeader) -> ShredCommonHeader {
    match header {
        ParsedShredHeader::Data(data) => data.common,
        ParsedShredHeader::Code(code) => code.common,
    }
}

} // verus!
