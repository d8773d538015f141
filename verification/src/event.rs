//! Labels that classify transactions and slots.
use vstd::prelude::*;

verus! {

/// How settled a transaction's slot was when the event was emitted.
#[derive(Clone, Copy, Debug, PartialEq, Eq, Hash, Structural)]
pub enum TxCommitmentStatus {
    /// Processed commitment.
    Processed,
    /// Confirmed commitment.
    Confirmed,
    /// Finalized commitment.
    Finalized,
}

/// What a transaction is about.
#[derive(Clone, Copy, Debug, PartialEq, Eq, Hash, Structural)]
pub enum TxKind {
    /// Only votes, compute-budget settings aside.
    VoteOnly,
    /// Votes next to other programs.
    Mixed,
    /// No votes.
    NonVote,
}

/// Where a slot stands with respect to the canonical fork.
#[derive(Clone, Copy, Debug, PartialEq, Eq, Hash, Structural)]
pub enum ForkSlotStatus {
    /// Processed.
    Processed,
    /// Confirmed.
    Confirmed,
    /// Finalized.
    Finalized,
    /// Not part of the canonical fork.
    Orphaned,
}

} // verus!
