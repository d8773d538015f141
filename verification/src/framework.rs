//! Events that are handed to the consumers of the observer.
use crate::bytes::{PubkeyBytes, SignatureBytes};
use crate::event::{ForkSlotStatus, TxCommitmentStatus, TxKind};
use crate::provider_stream::source::ProviderSourceRef;
use crate::transaction::VersionedTransaction;
use std::sync::Arc;
use vstd::prelude::*;

verus! {

/// One decoded transaction.
#[derive(Debug, Clone)]
pub struct TransactionEvent {
    /// Slot of the transaction.
    pub slot: u64,
    /// Commitment of that slot.
    pub commitment_status: TxCommitmentStatus,
    /// Highest confirmed slot seen.
    pub confirmed_slot: Option<u64>,
    /// Highest finalized slot seen.
    pub finalized_slot: Option<u64>,
    /// First signature.
    pub signature: Option<SignatureBytes>,
    /// Source that delivered the event.
    pub provider_source: Option<ProviderSourceRef>,
    /// What the transaction is about.
    pub kind: TxKind,
    /// The transaction.
    pub tx: Arc<VersionedTransaction>,
}

/// One transaction that is still serialized.
#[derive(Debug, Clone)]
pub struct SerializedTransactionEvent {
    /// Slot of the transaction.
    pub slot: u64,
    /// Commitment of that slot.
    pub commitment_status: TxCommitmentStatus,
    /// Highest confirmed slot seen.
    pub confirmed_slot: Option<u64>,
    /// Highest finalized slot seen.
    pub finalized_slot: Option<u64>,
    /// First signature, if known.
    pub signature: Option<SignatureBytes>,
    /// Source that delivered the event.
    pub provider_source: Option<ProviderSourceRef>,
    /// The serialized transaction.
    pub bytes: Vec<u8>,
}

/// The log lines of one transaction.
#[derive(Debug, Clone)]
pub struct TransactionLogEvent {
    /// Slot of the transaction.
    pub slot: u64,
    /// Commitment of that slot.
    pub commitment_status: TxCommitmentStatus,
    /// Signature of the transaction.
    pub signature: SignatureBytes,
    /// The transaction's error as JSON text.
    pub err: Option<String>,
    /// Log lines in order.
    pub logs: Vec<String>,
    /// Account key that the subscription mentions.
    pub matched_filter: Option<PubkeyBytes>,
    /// Source that delivered the event.
    pub provider_source: Option<ProviderSourceRef>,
}

/// The outcome of one transaction.
#[derive(Debug, Clone)]
pub struct TransactionStatusEvent {
    /// Slot of the transaction.
    pub slot: u64,
    /// Commitment of that slot.
    pub commitment_status: TxCommitmentStatus,
    /// Highest confirmed slot seen.
    pub confirmed_slot: Option<u64>,
    /// Highest finalized slot seen.
    pub finalized_slot: Option<u64>,
    /// Signature of the transaction.
    pub signature: SignatureBytes,
    /// Whether the provider calls it a vote.
    pub is_vote: bool,
    /// Position in the block.
    pub index: Option<u64>,
    /// The transaction's error.
    pub err: Option<String>,
    /// Source that delivered the event.
    pub provider_source: Option<ProviderSourceRef>,
}

/// The new state of one account.
#[derive(Debug, Clone)]
pub struct AccountUpdateEvent {
    /// Slot of the update.
    pub slot: u64,
    /// Commitment of that slot.
    pub commitment_status: TxCommitmentStatus,
    /// Highest confirmed slot seen.
    pub confirmed_slot: Option<u64>,
    /// Highest finalized slot seen.
    pub finalized_slot: Option<u64>,
    /// Key of the account.
    pub pubkey: PubkeyBytes,
    /// Owner of the account.
    pub owner: PubkeyBytes,
    /// Balance.
    pub lamports: u64,
    /// Whether the account holds a program.
    pub executable: bool,
    /// Rent epoch.
    pub rent_epoch: u64,
    /// Account data.
    pub data: Arc<[u8]>,
    /// Provider-side write version.
    pub write_version: Option<u64>,
    /// Signature of the transaction that wrote the account.
    pub txn_signature: Option<SignatureBytes>,
    /// Whether the update is part of the provider's start-up snapshot.
    pub is_startup: bool,
    /// Key that the subscription filters by.
    pub matched_filter: Option<PubkeyBytes>,
    /// Source that delivered the event.
    pub provider_source: Option<ProviderSourceRef>,
}

/// The header data of one block.
#[derive(Debug, Clone)]
pub struct BlockMetaEvent {
    /// Slot of the block.
    pub slot: u64,
    /// Commitment of that slot.
    pub commitment_status: TxCommitmentStatus,
    /// Highest confirmed slot seen.
    pub confirmed_slot: Option<u64>,
    /// Highest finalized slot seen.
    pub finalized_slot: Option<u64>,
    /// Hash of the block.
    pub blockhash: [u8; 32],
    /// Slot of the parent.
    pub parent_slot: u64,
    /// Hash of the parent.
    pub parent_blockhash: [u8; 32],
    /// Unix time of the block.
    pub block_time: Option<i64>,
    /// Height of the block.
    pub block_height: Option<u64>,
    /// Transactions executed.
    pub executed_transaction_count: u64,
    /// Entries in the block.
    pub entries_count: u64,
    /// Source that delivered the event.
    pub provider_source: Option<ProviderSourceRef>,
}

/// One recent block hash.
#[derive(Debug, Clone)]
pub struct ObservedRecentBlockhashEvent {
    /// Slot of the observation.
    pub slot: u64,
    /// The hash.
    pub recent_blockhash: [u8; 32],
    /// Transactions in the data set that carried it.
    pub dataset_tx_count: u64,
    /// Source that delivered the event.
    pub provider_source: Option<ProviderSourceRef>,
}

/// One change of a slot's status.
#[derive(Debug, Clone)]
pub struct SlotStatusEvent {
    /// The slot.
    pub slot: u64,
    /// Its parent.
    pub parent_slot: Option<u64>,
    /// The status it had.
    pub previous_status: Option<ForkSlotStatus>,
    /// The status it has.
    pub status: ForkSlotStatus,
    /// Tip of the canonical fork.
    pub tip_slot: Option<u64>,
    /// Highest confirmed slot seen.
    pub confirmed_slot: Option<u64>,
    /// Highest finalized slot seen.
    pub finalized_slot: Option<u64>,
    /// Source that delivered the event.
    pub provider_source: Option<ProviderSourceRef>,
}

/// A batch of transaction views, as far as routing reads it.
#[derive(Debug, Clone)]
pub struct TransactionViewBatchEvent {
    /// Source that delivered the event.
    pub provider_source: Option<ProviderSourceRef>,
}

/// A change of the cluster topology, as far as routing reads it.
#[derive(Debug, Clone)]
pub struct ClusterTopologyEvent {
    /// Source that delivered the event.
    pub provider_source: Option<ProviderSourceRef>,
}

/// A change of the leader schedule, as far as routing reads it.
#[derive(Debug, Clone)]
pub struct LeaderScheduleEvent {
    /// Source that delivered the event.
    pub provider_source: Option<ProviderSourceRef>,
}

/// A change of the canonical fork, as far as routing reads it.
#[derive(Debug, Clone)]
pub struct ReorgEvent {
    /// Source that delivered the event.
    pub provider_source: Option<ProviderSourceRef>,
}

} // verus!
