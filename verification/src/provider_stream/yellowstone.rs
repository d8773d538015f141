//! Yellowstone gRPC sources: configs, subscription requests, sessions and errors.
use crate::bytes::{signature_bytes_from_slice, spelled_hash, PubkeyBytes, SignatureBytes};
use crate::event::{ForkSlotStatus, TxCommitmentStatus};
use crate::framework::{AccountUpdateEvent, SlotStatusEvent, TransactionEvent};
use crate::provider_stream::grpc::{
    account_error, account_filter, account_update_event, block_meta_error,
    block_meta_event_from_update, blockhash_error, convert_blockhash, convert_header,
    convert_instructions, convert_keys, convert_lookups, convert_signatures, filters_accounts,
    filters_transactions, first_error, header_error, instructions_error, keys_error, later_slot,
    lookups_error, marks_after_status, message_view, observe_slot_status, prune_recent_slots,
    recent_slots, signature_view, signatures_error, signatures_view, slot_status_event,
    slot_status_from_code, slot_status_of, slots_by_commitment, stall_deadline, stall_point, states_after,
    status_error, status_is_news, tells_account, tells_block_meta, tells_slot_status,
    tells_status, tells_transaction, transaction_event, transaction_filter,
    transaction_status_event_from_update, GrpcAccountFilter, GrpcAccountUpdate, GrpcMessage,
    GrpcSlotUpdate, GrpcSubscribeRequest, GrpcTransaction, GrpcTransactionFilter,
    GrpcTransactionInfo, GrpcUpdate, SOURCE_FILTER,
};
use crate::provider_stream::source::{
    shared_text, ProviderSourceArbitrationMode, ProviderSourceHealthEvent,
    ProviderSourceHealthReason, ProviderSourceHealthStatus, ProviderSourceId,
    ProviderSourceIdentity, ProviderSourceIdentityRegistrationError, ProviderSourceReadiness,
    ProviderSourceRef, ProviderSourceRole, SourceSettings,
};
use crate::provider_stream::supervisor::{SourceMessages, PROVIDER_SUBSCRIPTION_ACKNOWLEDGED};
use crate::provider_stream::update::{delivered_by, ProviderStreamUpdate};
use crate::provider_stream::watermarks::{at_or_above, ProviderCommitmentWatermarks};
use crate::provider_stream::{
    replay_start, replay_start_slot, ProviderReplayMode, ProviderStreamMode,
};
use crate::text::{decimal, decimal_text, joined, joined3, strip_text_prefix, without_prefix};
use crate::time::{Duration, Instant};
use crate::transaction::{TransactionView, VersionedMessage, VersionedTransaction};
use std::collections::HashMap;
use vstd::prelude::*;

verus! {

/// Name of the slot filter that feeds the watermarks.
pub const INTERNAL_SLOT_FILTER: &'static str = "__sof_internal_slots";

/// Slots behind the newest whose status is kept once there are many.
pub const SLOT_STATUS_RETAINED_LAG: u64 = 4_096;

/// Number of known slot statuses above which old ones are dropped.
pub const SLOT_STATUS_PRUNE_THRESHOLD: usize = 8_192;

/// Default bound on the size of a message from the provider.
pub const DEFAULT_MAX_DECODING_MESSAGE_SIZE: usize = 67_108_864;

/// How far a resumed stream at processed commitment overlaps the slots already seen.
pub const PROCESSED_REPLAY_OVERLAP: u64 = 31;

/// The largest account data that an update may carry, from
/// `solana_system_interface::MAX_PERMITTED_DATA_LENGTH`. Claimed of it: ten mebibytes.
#[verifier::external_body]
pub(crate) fn max_account_data_len() -> (r: usize)
    ensures
        r == 10_485_760,
{
    solana_system_interface::MAX_PERMITTED_DATA_LENGTH as usize
}

/// Commitment of a subscription.
#[derive(Clone, Copy, Debug, PartialEq, Eq, Structural)]
pub enum YellowstoneGrpcCommitment {
    /// Processed.
    Processed,
    /// Confirmed.
    Confirmed,
    /// Finalized.
    Finalized,
}

impl Default for YellowstoneGrpcCommitment {
    fn default() -> (r: Self)
        ensures
            r == YellowstoneGrpcCommitment::Processed,
    {
        YellowstoneGrpcCommitment::Processed
    }
}

impl YellowstoneGrpcCommitment {

    /// The code of the commitment on the wire.
    pub open spec fn code(self) -> i32 {
        match self {
            YellowstoneGrpcCommitment::Processed => 0,
            YellowstoneGrpcCommitment::Confirmed => 1,
            YellowstoneGrpcCommitment::Finalized => 2,
        }
    }

    /// The code of the commitment on the wire.
    pub fn as_code(self) -> (r: i32)
        ensures
            r == self.code(),
    {
        match self {
            YellowstoneGrpcCommitment::Processed => 0,
            YellowstoneGrpcCommitment::Confirmed => 1,
            YellowstoneGrpcCommitment::Finalized => 2,
        }
    }

    /// The commitment of the events of a subscription.
    pub open spec fn tx_commitment(self) -> TxCommitmentStatus {
        match self {
            YellowstoneGrpcCommitment::Processed => TxCommitmentStatus::Processed,
            YellowstoneGrpcCommitment::Confirmed => TxCommitmentStatus::Confirmed,
            YellowstoneGrpcCommitment::Finalized => TxCommitmentStatus::Finalized,
        }
    }

    /// The commitment of the events of a subscription.
    pub fn as_tx_commitment(self) -> (r: TxCommitmentStatus)
        ensures
            r == self.tx_commitment(),
    {
        match self {
            YellowstoneGrpcCommitment::Processed => TxCommitmentStatus::Processed,
            YellowstoneGrpcCommitment::Confirmed => TxCommitmentStatus::Confirmed,
            YellowstoneGrpcCommitment::Finalized => TxCommitmentStatus::Finalized,
        }
    }

    /// How far a resumed stream goes back behind the last slot seen.
    pub open spec fn overlap(self) -> u64 {
        match self {
            YellowstoneGrpcCommitment::Processed => PROCESSED_REPLAY_OVERLAP,
            YellowstoneGrpcCommitment::Confirmed => 0,
            YellowstoneGrpcCommitment::Finalized => 0,
        }
    }

    /// How far a resumed stream goes back behind the last slot seen.
    pub fn replay_overlap(self) -> (r: u64)
        ensures
            r == self.overlap(),
    {
        match self {
            YellowstoneGrpcCommitment::Processed => PROCESSED_REPLAY_OVERLAP,
            YellowstoneGrpcCommitment::Confirmed => 0,
            YellowstoneGrpcCommitment::Finalized => 0,
        }
    }
}

/// A setting that some streams do not support.
#[derive(Clone, Copy, Debug, PartialEq, Eq, Structural)]
pub enum YellowstoneGrpcConfigOption {
    /// Vote filter.
    VoteFilter,
    /// Failed filter.
    FailedFilter,
    /// Signature filter.
    SignatureFilter,
    /// Account-include filter.
    AccountIncludeFilter,
    /// Account-exclude filter.
    AccountExcludeFilter,
    /// Account-required filter.
    AccountRequiredFilter,
    /// Account keys.
    Accounts,
    /// Owners.
    Owners,
    /// Transaction signature on account updates.
    RequireTransactionSignature,
}

impl YellowstoneGrpcConfigOption {

    /// The name of the setting.
    pub open spec fn label(self) -> &'static str {
        match self {
            YellowstoneGrpcConfigOption::VoteFilter => "vote filter",
            YellowstoneGrpcConfigOption::FailedFilter => "failed filter",
            YellowstoneGrpcConfigOption::SignatureFilter => "signature filter",
            YellowstoneGrpcConfigOption::AccountIncludeFilter => "account-include filter",
            YellowstoneGrpcConfigOption::AccountExcludeFilter => "account-exclude filter",
            YellowstoneGrpcConfigOption::AccountRequiredFilter => "account-required filter",
            YellowstoneGrpcConfigOption::Accounts => "accounts filter",
            YellowstoneGrpcConfigOption::Owners => "owners filter",
            YellowstoneGrpcConfigOption::RequireTransactionSignature => "require-transaction-signature",
        }
    }

    /// The name of the setting.
    pub fn as_str(self) -> (r: &'static str)
        ensures
            r == self.label(),
    {
        match self {
            YellowstoneGrpcConfigOption::VoteFilter => "vote filter",
            YellowstoneGrpcConfigOption::FailedFilter => "failed filter",
            YellowstoneGrpcConfigOption::SignatureFilter => "signature filter",
            YellowstoneGrpcConfigOption::AccountIncludeFilter => "account-include filter",
            YellowstoneGrpcConfigOption::AccountExcludeFilter => "account-exclude filter",
            YellowstoneGrpcConfigOption::AccountRequiredFilter => "account-required filter",
            YellowstoneGrpcConfigOption::Accounts => "accounts filter",
            YellowstoneGrpcConfigOption::Owners => "owners filter",
            YellowstoneGrpcConfigOption::RequireTransactionSignature => "require-transaction-signature",
        }
    }
}

/// A stream that a primary config can select.
#[derive(Clone, Copy, Debug, PartialEq, Eq, Structural)]
pub enum YellowstoneGrpcStream {
    /// Transactions.
    Transaction,
    /// Transaction outcomes.
    TransactionStatus,
    /// Accounts.
    Accounts,
    /// Block meta.
    BlockMeta,
}

impl Default for YellowstoneGrpcStream {
    fn default() -> (r: Self)
        ensures
            r == YellowstoneGrpcStream::Transaction,
    {
        YellowstoneGrpcStream::Transaction
    }
}

/// A stream as errors name it.
#[derive(Clone, Copy, Debug, PartialEq, Eq, Structural)]
pub enum YellowstoneGrpcStreamKind {
    /// Transactions.
    Transaction,
    /// Transaction outcomes.
    TransactionStatus,
    /// Accounts.
    Accounts,
    /// Block meta.
    BlockMeta,
    /// Slots.
    Slots,
}

impl YellowstoneGrpcStreamKind {

    /// The name of the stream.
    pub open spec fn label(self) -> &'static str {
        match self {
            YellowstoneGrpcStreamKind::Transaction => "transaction",
            YellowstoneGrpcStreamKind::TransactionStatus => "transaction-status",
            YellowstoneGrpcStreamKind::Accounts => "account",
            YellowstoneGrpcStreamKind::BlockMeta => "block-meta",
            YellowstoneGrpcStreamKind::Slots => "slot",
        }
    }

    /// The name of the stream.
    pub fn as_str(self) -> (r: &'static str)
        ensures
            r == self.label(),
    {
        match self {
            YellowstoneGrpcStreamKind::Transaction => "transaction",
            YellowstoneGrpcStreamKind::TransactionStatus => "transaction-status",
            YellowstoneGrpcStreamKind::Accounts => "account",
            YellowstoneGrpcStreamKind::BlockMeta => "block-meta",
            YellowstoneGrpcStreamKind::Slots => "slot",
        }
    }
}

impl YellowstoneGrpcStream {

    /// The stream as errors name it.
    pub open spec fn kind_of_stream(self) -> YellowstoneGrpcStreamKind {
        match self {
            YellowstoneGrpcStream::Transaction => YellowstoneGrpcStreamKind::Transaction,
            YellowstoneGrpcStream::TransactionStatus => YellowstoneGrpcStreamKind::TransactionStatus,
            YellowstoneGrpcStream::Accounts => YellowstoneGrpcStreamKind::Accounts,
            YellowstoneGrpcStream::BlockMeta => YellowstoneGrpcStreamKind::BlockMeta,
        }
    }

    /// The stream as errors name it.
    pub fn kind(self) -> (r: YellowstoneGrpcStreamKind)
        ensures
            r == self.kind_of_stream(),
    {
        match self {
            YellowstoneGrpcStream::Transaction => YellowstoneGrpcStreamKind::Transaction,
            YellowstoneGrpcStream::TransactionStatus => YellowstoneGrpcStreamKind::TransactionStatus,
            YellowstoneGrpcStream::Accounts => YellowstoneGrpcStreamKind::Accounts,
            YellowstoneGrpcStream::BlockMeta => YellowstoneGrpcStreamKind::BlockMeta,
        }
    }

    /// The runtime mode of the stream.
    pub open spec fn mode_of_stream(self) -> ProviderStreamMode {
        match self {
            YellowstoneGrpcStream::Transaction => ProviderStreamMode::YellowstoneGrpc,
            YellowstoneGrpcStream::TransactionStatus => ProviderStreamMode::YellowstoneGrpcTransactionStatus,
            YellowstoneGrpcStream::Accounts => ProviderStreamMode::YellowstoneGrpcAccounts,
            YellowstoneGrpcStream::BlockMeta => ProviderStreamMode::YellowstoneGrpcBlockMeta,
        }
    }

    /// The runtime mode of the stream.
    pub fn mode(self) -> (r: ProviderStreamMode)
        ensures
            r == self.mode_of_stream(),
    {
        match self {
            YellowstoneGrpcStream::Transaction => ProviderStreamMode::YellowstoneGrpc,
            YellowstoneGrpcStream::TransactionStatus => ProviderStreamMode::YellowstoneGrpcTransactionStatus,
            YellowstoneGrpcStream::Accounts => ProviderStreamMode::YellowstoneGrpcAccounts,
            YellowstoneGrpcStream::BlockMeta => ProviderStreamMode::YellowstoneGrpcBlockMeta,
        }
    }

    /// The source kind of the stream.
    pub open spec fn source_of_stream(self) -> ProviderSourceId {
        match self {
            YellowstoneGrpcStream::Transaction => ProviderSourceId::YellowstoneGrpc,
            YellowstoneGrpcStream::TransactionStatus => ProviderSourceId::YellowstoneGrpcTransactionStatus,
            YellowstoneGrpcStream::Accounts => ProviderSourceId::YellowstoneGrpcAccounts,
            YellowstoneGrpcStream::BlockMeta => ProviderSourceId::YellowstoneGrpcBlockMeta,
        }
    }

    /// The source kind of the stream.
    pub fn source_id(self) -> (r: ProviderSourceId)
        ensures
            r == self.source_of_stream(),
    {
        match self {
            YellowstoneGrpcStream::Transaction => ProviderSourceId::YellowstoneGrpc,
            YellowstoneGrpcStream::TransactionStatus => ProviderSourceId::YellowstoneGrpcTransactionStatus,
            YellowstoneGrpcStream::Accounts => ProviderSourceId::YellowstoneGrpcAccounts,
            YellowstoneGrpcStream::BlockMeta => ProviderSourceId::YellowstoneGrpcBlockMeta,
        }
    }
}

/// A config that cannot be used.
#[derive(Clone, Copy, Debug, PartialEq, Eq, Structural)]
pub enum YellowstoneGrpcConfigError {
    /// The stream does not support a setting.
    UnsupportedOption {
        /// The stream.
        stream: YellowstoneGrpcStreamKind,
        /// The setting.
        option: YellowstoneGrpcConfigOption,
    },
}

impl YellowstoneGrpcConfigError {
    /// The text of the error.
    pub open spec fn text(self) -> Seq<char> {
        match self {
            YellowstoneGrpcConfigError::UnsupportedOption { stream, option } => option.label()@
                + " is not supported for yellowstone "@ + stream.label()@ + " streams"@,
        }
    }

    /// Writes the error for a human reader.
    pub fn to_text(&self) -> (r: String)
        ensures
            r@ == self.text(),
    {
        match self {
            YellowstoneGrpcConfigError::UnsupportedOption { stream, option } => {
                let head = joined3(option.as_str(), " is not supported for yellowstone ", stream.as_str());
                joined(head.as_str(), " streams")
            },
        }
    }
}

/// Config of a primary Yellowstone source.
#[derive(Clone, Debug)]
pub struct YellowstoneGrpcConfig {
    /// Endpoint.
    pub endpoint: String,
    /// Access token.
    pub x_token: Option<String>,
    /// Source policy.
    pub source: SourceSettings,
    /// Selected stream.
    pub stream: YellowstoneGrpcStream,
    /// Commitment.
    pub commitment: YellowstoneGrpcCommitment,
    /// Whether the user chose the commitment.
    pub commitment_explicit: bool,
    /// Vote filter.
    pub vote: Option<bool>,
    /// Failed filter.
    pub failed: Option<bool>,
    /// Signature filter.
    pub signature: Option<SignatureBytes>,
    /// Account-include filter.
    pub account_include: Vec<PubkeyBytes>,
    /// Account-exclude filter.
    pub account_exclude: Vec<PubkeyBytes>,
    /// Account-required filter.
    pub account_required: Vec<PubkeyBytes>,
    /// Account keys of an account stream.
    pub accounts: Vec<PubkeyBytes>,
    /// Owners of an account stream.
    pub owners: Vec<PubkeyBytes>,
    /// Whether account updates must carry a transaction signature.
    pub require_txn_signature: bool,
    /// Bound on the size of a message from the provider.
    pub max_decoding_message_size: usize,
    /// Time to connect.
    pub connect_timeout: Option<Duration>,
    /// Time without progress after which a session counts as stalled.
    pub stall_timeout: Option<Duration>,
    /// Time between pings.
    pub ping_interval: Option<Duration>,
    /// Pause before a reconnect.
    pub reconnect_delay: Duration,
    /// Failures in a row after which the source gives up.
    pub max_reconnect_attempts: Option<u32>,
    /// Replay.
    pub replay_mode: ProviderReplayMode,
}

/// Whether a timeout is set to a number of seconds.
pub open spec fn is_secs(timeout: Option<Duration>, secs: nat) -> bool {
    timeout matches Some(span) && span.nanos() == secs * 1_000_000_000
}

impl YellowstoneGrpcConfig {
    /// Creates a config of a transaction stream without filters.
    pub fn new(endpoint: &str) -> (r: Self)
        ensures
            r.endpoint@ == endpoint@,
            r.x_token is None,
            r.source == SourceSettings::in_role(ProviderSourceReadiness::Required, ProviderSourceRole::Primary),
            r.stream == YellowstoneGrpcStream::Transaction,
            r.commitment == YellowstoneGrpcCommitment::Processed,
            !r.commitment_explicit,
            r.vote is None,
            r.failed is None,
            r.signature is None,
            r.account_include@.len() == 0,
            r.account_exclude@.len() == 0,
            r.account_required@.len() == 0,
            r.accounts@.len() == 0,
            r.owners@.len() == 0,
            !r.require_txn_signature,
            r.max_decoding_message_size == DEFAULT_MAX_DECODING_MESSAGE_SIZE,
            is_secs(r.connect_timeout, 10),
            is_secs(r.stall_timeout, 30),
            is_secs(r.ping_interval, 30),
            r.reconnect_delay.nanos() == 1_000_000_000,
            r.max_reconnect_attempts is None,
            r.replay_mode == ProviderReplayMode::Resume,
    {
        YellowstoneGrpcConfig {
            endpoint: endpoint.to_owned(),
            x_token: None,
            source: SourceSettings::new(ProviderSourceReadiness::Required, ProviderSourceRole::Primary),
            stream: YellowstoneGrpcStream::Transaction,
            commitment: YellowstoneGrpcCommitment::Processed,
            commitment_explicit: false,
            vote: None,
            failed: None,
            signature: None,
            account_include: Vec::new(),
            account_exclude: Vec::new(),
            account_required: Vec::new(),
            accounts: Vec::new(),
            owners: Vec::new(),
            require_txn_signature: false,
            max_decoding_message_size: DEFAULT_MAX_DECODING_MESSAGE_SIZE,
            connect_timeout: Some(Duration::from_secs(10)),
            stall_timeout: Some(Duration::from_secs(30)),
            ping_interval: Some(Duration::from_secs(30)),
            reconnect_delay: Duration::from_secs(1),
            max_reconnect_attempts: None,
            replay_mode: ProviderReplayMode::Resume,
        }
    }

    /// Returns the endpoint.
    pub fn endpoint(&self) -> (r: &str)
        ensures
            r@ == self.endpoint@,
    {
        self.endpoint.as_str()
    }

    /// Sets the instance label.
    pub fn with_source_instance(self, instance: &str) -> (r: Self)
        ensures
            r == (YellowstoneGrpcConfig { source: SourceSettings { instance: r.source.instance, ..self.source }, ..self }),
            r.source.instance matches Some(label) && label@ == instance@,
    {
        let mut config = self;
        config.source.instance = Some(shared_text(instance));
        config
    }

    /// Sets whether the source takes part in readiness.
    pub fn with_readiness(self, readiness: ProviderSourceReadiness) -> (r: Self)
        ensures
            r == (YellowstoneGrpcConfig { source: SourceSettings { readiness, ..self.source }, ..self }),
    {
        let mut config = self;
        config.source.readiness = readiness;
        config
    }

    /// Sets the role, and the priority to that role's default.
    pub fn with_source_role(self, role: ProviderSourceRole) -> (r: Self)
        ensures
            r == (YellowstoneGrpcConfig {
                source: SourceSettings { role, priority: role.priority(), ..self.source },
                ..self
            }),
    {
        let mut config = self;
        config.source.role = role;
        config.source.priority = role.default_priority();
        config
    }

    /// Sets the arbitration priority.
    pub fn with_source_priority(self, priority: u16) -> (r: Self)
        ensures
            r == (YellowstoneGrpcConfig { source: SourceSettings { priority, ..self.source }, ..self }),
    {
        let mut config = self;
        config.source.priority = priority;
        config
    }

    /// Sets the treatment of duplicates.
    pub fn with_source_arbitration(self, arbitration: ProviderSourceArbitrationMode) -> (r: Self)
        ensures
            r == (YellowstoneGrpcConfig { source: SourceSettings { arbitration, ..self.source }, ..self }),
    {
        let mut config = self;
        config.source.arbitration = arbitration;
        config
    }

    /// Selects the stream. An account stream is finalized unless the user chose a commitment.
    pub fn with_stream(self, stream: YellowstoneGrpcStream) -> (r: Self)
        ensures
            r == (YellowstoneGrpcConfig {
                stream,
                commitment: if stream == YellowstoneGrpcStream::Accounts && !self.commitment_explicit {
                    YellowstoneGrpcCommitment::Finalized
                } else {
                    self.commitment
                },
                ..self
            }),
    {
        let mut config = self;
        if stream == YellowstoneGrpcStream::Accounts && !config.commitment_explicit {
            config.commitment = YellowstoneGrpcCommitment::Finalized;
        }
        config.stream = stream;
        config
    }

    /// Sets the access token.
    pub fn with_x_token(self, x_token: &str) -> (r: Self)
        ensures
            r == (YellowstoneGrpcConfig { x_token: r.x_token, ..self }),
            r.x_token matches Some(own) && own@ == x_token@,
    {
        let mut config = self;
        config.x_token = Some(x_token.to_owned());
        config
    }

    /// Chooses the commitment.
    pub fn with_commitment(self, commitment: YellowstoneGrpcCommitment) -> (r: Self)
        ensures
            r == (YellowstoneGrpcConfig { commitment, commitment_explicit: true, ..self }),
    {
        let mut config = self;
        config.commitment = commitment;
        config.commitment_explicit = true;
        config
    }

    /// Sets the vote filter.
    pub fn with_vote(self, vote: bool) -> (r: Self)
        ensures
            r == (YellowstoneGrpcConfig { vote: Some(vote), ..self }),
    {
        let mut config = self;
        config.vote = Some(vote);
        config
    }

    /// Sets the failed filter.
    pub fn with_failed(self, failed: bool) -> (r: Self)
        ensures
            r == (YellowstoneGrpcConfig { failed: Some(failed), ..self }),
    {
        let mut config = self;
        config.failed = Some(failed);
        config
    }

    /// Narrows the stream to one signature.
    pub fn with_signature(self, signature: SignatureBytes) -> (r: Self)
        ensures
            r == (YellowstoneGrpcConfig { signature: Some(signature), ..self }),
    {
        let mut config = self;
        config.signature = Some(signature);
        config
    }

    /// Requires one of the keys, added to those before, to occur.
    pub fn with_account_include(self, keys: Vec<PubkeyBytes>) -> (r: Self)
        ensures
            r == (YellowstoneGrpcConfig { account_include: r.account_include, ..self }),
            r.account_include@ == self.account_include@ + keys@,
    {
        let mut config = self;
        let mut added = keys;
        config.account_include.append(&mut added);
        config
    }

    /// Requires none of the keys, added to those before, to occur.
    pub fn with_account_exclude(self, keys: Vec<PubkeyBytes>) -> (r: Self)
        ensures
            r == (YellowstoneGrpcConfig { account_exclude: r.account_exclude, ..self }),
            r.account_exclude@ == self.account_exclude@ + keys@,
    {
        let mut config = self;
        let mut added = keys;
        config.account_exclude.append(&mut added);
        config
    }

    /// Requires all of the keys, added to those before, to occur.
    pub fn with_account_required(self, keys: Vec<PubkeyBytes>) -> (r: Self)
        ensures
            r == (YellowstoneGrpcConfig { account_required: r.account_required, ..self }),
            r.account_required@ == self.account_required@ + keys@,
    {
        let mut config = self;
        let mut added = keys;
        config.account_required.append(&mut added);
        config
    }

    /// Adds account keys to an account stream.
    pub fn with_accounts(self, keys: Vec<PubkeyBytes>) -> (r: Self)
        ensures
            r == (YellowstoneGrpcConfig { accounts: r.accounts, ..self }),
            r.accounts@ == self.accounts@ + keys@,
    {
        let mut config = self;
        let mut added = keys;
        config.accounts.append(&mut added);
        config
    }

    /// Adds owners to an account stream.
    pub fn with_owners(self, keys: Vec<PubkeyBytes>) -> (r: Self)
        ensures
            r == (YellowstoneGrpcConfig { owners: r.owners, ..self }),
            r.owners@ == self.owners@ + keys@,
    {
        let mut config = self;
        let mut added = keys;
        config.owners.append(&mut added);
        config
    }

    /// Requires account updates to carry a transaction signature.
    pub fn require_transaction_signature(self) -> (r: Self)
        ensures
            r == (YellowstoneGrpcConfig { require_txn_signature: true, ..self }),
    {
        let mut config = self;
        config.require_txn_signature = true;
        config
    }

    /// Bounds the size of a message from the provider.
    pub fn with_max_decoding_message_size(self, bytes: usize) -> (r: Self)
        ensures
            r == (YellowstoneGrpcConfig { max_decoding_message_size: bytes, ..self }),
    {
        let mut config = self;
        config.max_decoding_message_size = bytes;
        config
    }

    /// Sets the time to connect.
    pub fn with_connect_timeout(self, timeout: Duration) -> (r: Self)
        ensures
            r == (YellowstoneGrpcConfig { connect_timeout: Some(timeout), ..self }),
    {
        let mut config = self;
        config.connect_timeout = Some(timeout);
        config
    }

    /// Sets the time without progress after which a session counts as stalled.
    pub fn with_stall_timeout(self, timeout: Duration) -> (r: Self)
        ensures
            r == (YellowstoneGrpcConfig { stall_timeout: Some(timeout), ..self }),
    {
        let mut config = self;
        config.stall_timeout = Some(timeout);
        config
    }

    /// Sets the time between pings.
    pub fn with_ping_interval(self, interval: Duration) -> (r: Self)
        ensures
            r == (YellowstoneGrpcConfig { ping_interval: Some(interval), ..self }),
    {
        let mut config = self;
        config.ping_interval = Some(interval);
        config
    }

    /// Sets the pause before a reconnect.
    pub fn with_reconnect_delay(self, delay: Duration) -> (r: Self)
        ensures
            r == (YellowstoneGrpcConfig { reconnect_delay: delay, ..self }),
    {
        let mut config = self;
        config.reconnect_delay = delay;
        config
    }

    /// Sets the failures in a row after which the source gives up.
    pub fn with_max_reconnect_attempts(self, attempts: u32) -> (r: Self)
        ensures
            r == (YellowstoneGrpcConfig { max_reconnect_attempts: Some(attempts), ..self }),
    {
        let mut config = self;
        config.max_reconnect_attempts = Some(attempts);
        config
    }

    /// Sets the replay.
    pub fn with_replay_mode(self, mode: ProviderReplayMode) -> (r: Self)
        ensures
            r == (YellowstoneGrpcConfig { replay_mode: mode, ..self }),
    {
        let mut config = self;
        config.replay_mode = mode;
        config
    }

    /// The first setting that the selected stream does not support.
    pub open spec fn unsupported(self) -> Option<YellowstoneGrpcConfigOption> {
        if self.stream == YellowstoneGrpcStream::Accounts {
            if self.vote is Some {
                Some(YellowstoneGrpcConfigOption::VoteFilter)
            } else if self.failed is Some {
                Some(YellowstoneGrpcConfigOption::FailedFilter)
            } else if self.signature is Some {
                Some(YellowstoneGrpcConfigOption::SignatureFilter)
            } else if self.account_include@.len() > 0 {
                Some(YellowstoneGrpcConfigOption::AccountIncludeFilter)
            } else if self.account_exclude@.len() > 0 {
                Some(YellowstoneGrpcConfigOption::AccountExcludeFilter)
            } else if self.account_required@.len() > 0 {
                Some(YellowstoneGrpcConfigOption::AccountRequiredFilter)
            } else {
                None
            }
        } else if self.accounts@.len() > 0 {
            Some(YellowstoneGrpcConfigOption::Accounts)
        } else if self.owners@.len() > 0 {
            Some(YellowstoneGrpcConfigOption::Owners)
        } else if self.require_txn_signature {
            Some(YellowstoneGrpcConfigOption::RequireTransactionSignature)
        } else {
            None
        }
    }

    fn unsupported_option(&self) -> (r: Option<YellowstoneGrpcConfigOption>)
        ensures
            r == self.unsupported(),
    {
        if self.stream == YellowstoneGrpcStream::Accounts {
            if self.vote.is_some() {
                Some(YellowstoneGrpcConfigOption::VoteFilter)
            } else if self.failed.is_some() {
                Some(YellowstoneGrpcConfigOption::FailedFilter)
            } else if self.signature.is_some() {
                Some(YellowstoneGrpcConfigOption::SignatureFilter)
            } else if self.account_include.len() > 0 {
                Some(YellowstoneGrpcConfigOption::AccountIncludeFilter)
            } else if self.account_exclude.len() > 0 {
                Some(YellowstoneGrpcConfigOption::AccountExcludeFilter)
            } else if self.account_required.len() > 0 {
                Some(YellowstoneGrpcConfigOption::AccountRequiredFilter)
            } else {
                None
            }
        } else if self.accounts.len() > 0 {
            Some(YellowstoneGrpcConfigOption::Accounts)
        } else if self.owners.len() > 0 {
            Some(YellowstoneGrpcConfigOption::Owners)
        } else if self.require_txn_signature {
            Some(YellowstoneGrpcConfigOption::RequireTransactionSignature)
        } else {
            None
        }
    }

    /// Refuses the first setting that the selected stream does not support.
    pub fn validate(&self) -> (r: Result<(), YellowstoneGrpcConfigError>)
        ensures
            match self.unsupported() {
                None => r is Ok,
                Some(option) => r == Err::<(), _>(
                    YellowstoneGrpcConfigError::UnsupportedOption { stream: self.stream.kind_of_stream(), option },
                ),
            },
    {
        match self.unsupported_option() {
            None => Ok(()),
            Some(option) => Err(
                YellowstoneGrpcConfigError::UnsupportedOption { stream: self.stream.kind(), option },
            ),
        }
    }

    /// The slot to subscribe from after `tracked_slot`.
    pub fn replay_from_slot(&self, tracked_slot: u64) -> (r: Option<u64>)
        ensures
            r == replay_start(self.replay_mode, tracked_slot, self.commitment.overlap()),
    {
        replay_start_slot(self.replay_mode, tracked_slot, self.commitment.replay_overlap())
    }

    /// The filter of a transaction or transaction-status stream.
    pub fn transaction_filter(&self) -> (r: GrpcTransactionFilter)
        ensures
            self.asks_for_transactions(r),
    {
        transaction_filter(
            self.vote,
            self.failed,
            self.signature,
            &self.account_include,
            &self.account_exclude,
            &self.account_required,
        )
    }

    /// The filter of an account stream.
    pub fn account_filter(&self) -> (r: GrpcAccountFilter)
        ensures
            filters_accounts(r, self.accounts@, self.owners@, self.require_txn_signature),
    {
        account_filter(&self.accounts, &self.owners, self.require_txn_signature)
    }

    /// Whether `filter` is this config's transaction filter.
    pub open spec fn asks_for_transactions(self, filter: GrpcTransactionFilter) -> bool {
        filters_transactions(
            filter,
            self.vote,
            self.failed,
            self.signature,
            self.account_include@,
            self.account_exclude@,
            self.account_required@,
        )
    }

    /// Whether `request` subscribes to what this config selects, after `tracked_slot`.
    pub open spec fn requests(self, request: GrpcSubscribeRequest, tracked_slot: u64) -> bool {
        &&& request.asks_for_slots(INTERNAL_SLOT_FILTER@)
        &&& request.ping is None
        &&& request.commitment == Some(self.commitment.code())
        &&& request.from_slot == replay_start(self.replay_mode, tracked_slot, self.commitment.overlap())
        &&& if self.stream == YellowstoneGrpcStream::Transaction {
            request.transactions matches Some(entry) && entry.0@ == SOURCE_FILTER@
                && self.asks_for_transactions(entry.1)
        } else {
            request.transactions is None
        }
        &&& if self.stream == YellowstoneGrpcStream::TransactionStatus {
            request.transactions_status matches Some(entry) && entry.0@ == SOURCE_FILTER@
                && self.asks_for_transactions(entry.1)
        } else {
            request.transactions_status is None
        }
        &&& if self.stream == YellowstoneGrpcStream::Accounts {
            request.accounts matches Some(entry) && entry.0@ == SOURCE_FILTER@ && filters_accounts(
                entry.1,
                self.accounts@,
                self.owners@,
                self.require_txn_signature,
            )
        } else {
            request.accounts is None
        }
        &&& if self.stream == YellowstoneGrpcStream::BlockMeta {
            request.blocks_meta matches Some(name) && name@ == SOURCE_FILTER@
        } else {
            request.blocks_meta is None
        }
    }

    /// The request of a source that has seen no slot.
    pub fn subscribe_request(&self) -> (r: GrpcSubscribeRequest)
        ensures
            self.requests(r, 0),
    {
        self.subscribe_request_with_state(0)
    }

    /// The request of a source that has seen `tracked_slot`.
    pub fn subscribe_request_with_state(&self, tracked_slot: u64) -> (r: GrpcSubscribeRequest)
        ensures
            self.requests(r, tracked_slot),
    {
        let mut request = GrpcSubscribeRequest {
            slots: Some(slots_by_commitment(INTERNAL_SLOT_FILTER)),
            transactions: None,
            transactions_status: None,
            accounts: None,
            blocks_meta: None,
            commitment: Some(self.commitment.as_code()),
            from_slot: self.replay_from_slot(tracked_slot),
            ping: None,
        };
        match self.stream {
            YellowstoneGrpcStream::Transaction => {
                request.transactions = Some((SOURCE_FILTER.to_owned(), self.transaction_filter()));
            },
            YellowstoneGrpcStream::TransactionStatus => {
                request.transactions_status = Some((SOURCE_FILTER.to_owned(), self.transaction_filter()));
            },
            YellowstoneGrpcStream::Accounts => {
                request.accounts = Some((SOURCE_FILTER.to_owned(), self.account_filter()));
            },
            YellowstoneGrpcStream::BlockMeta => {
                request.blocks_meta = Some(SOURCE_FILTER.to_owned());
            },
        }
        request
    }

    /// The runtime mode of the selected stream.
    pub fn runtime_mode(&self) -> (r: ProviderStreamMode)
        ensures
            r == self.stream.mode_of_stream(),
    {
        self.stream.mode()
    }

    /// The identity to reserve: none without an instance label.
    pub fn source_identity(&self) -> (r: Option<ProviderSourceIdentity>)
        ensures
            match r {
                Some(identity) => self.source.instance matches Some(own) && self.source.describes(
                    self.stream.source_of_stream(),
                    own@,
                    identity,
                ),
                None => self.source.instance is None,
            },
    {
        self.source.source_identity(self.stream.source_id())
    }

    /// The identity under which the source runs: its label, or one made with `sequence`.
    pub fn resolved_source_identity(&self, sequence: u64) -> (r: ProviderSourceIdentity)
        ensures
            match self.source.instance {
                Some(own) => self.source.describes(self.stream.source_of_stream(), own@, r),
                None => self.source.describes(
                    self.stream.source_of_stream(),
                    self.stream.source_of_stream().label() + "-"@ + decimal_text(sequence as nat),
                    r,
                ),
            },
    {
        self.source.resolved_source_identity(self.stream.source_id(), sequence)
    }

    /// What the kind label of a source reads as in the text that reports it before its first
    /// session.
    pub open spec fn short_label(label: Seq<char>) -> Seq<char> {
        match without_prefix(label, "yellowstone_grpc_"@) {
            Some(rest) => rest,
            None => label,
        }
    }

    /// The texts that a source of this config reports with.
    pub fn messages(&self, source: &ProviderSourceIdentity) -> (r: SourceMessages)
        ensures
            r.waiting@ == "waiting for first yellowstone "@ + Self::short_label(source.kind.label())
                + " session ack"@,
            r.ended@ == "yellowstone "@ + self.stream.kind_of_stream().label()@ + " stream ended unexpectedly"@,
            r.exhausted@ == "exhausted yellowstone reconnect attempts after "@,
    {
        let label = source.kind_str();
        let short = match strip_text_prefix(label, "yellowstone_grpc_") {
            Some(rest) => rest,
            None => label,
        };
        SourceMessages {
            waiting: joined3("waiting for first yellowstone ", short, " session ack"),
            ended: joined3("yellowstone ", self.stream.kind().as_str(), " stream ended unexpectedly"),
            exhausted: "exhausted yellowstone reconnect attempts after ".to_owned(),
        }
    }
}

/// Config of a Yellowstone slot source.
#[derive(Clone, Debug)]
pub struct YellowstoneGrpcSlotsConfig {
    /// Endpoint.
    pub endpoint: String,
    /// Access token.
    pub x_token: Option<String>,
    /// Source policy.
    pub source: SourceSettings,
    /// Commitment.
    pub commitment: YellowstoneGrpcCommitment,
    /// Time to connect.
    pub connect_timeout: Option<Duration>,
    /// Time without progress after which a session counts as stalled.
    pub stall_timeout: Option<Duration>,
    /// Time between pings.
    pub ping_interval: Option<Duration>,
    /// Pause before a reconnect.
    pub reconnect_delay: Duration,
    /// Failures in a row after which the source gives up.
    pub max_reconnect_attempts: Option<u32>,
    /// Replay.
    pub replay_mode: ProviderReplayMode,
}

impl YellowstoneGrpcSlotsConfig {
    /// Creates a config of an optional, secondary slot source.
    pub fn new(endpoint: &str) -> (r: Self)
        ensures
            r.endpoint@ == endpoint@,
            r.x_token is None,
            r.source == SourceSettings::in_role(ProviderSourceReadiness::Optional, ProviderSourceRole::Secondary),
            r.commitment == YellowstoneGrpcCommitment::Processed,
            is_secs(r.connect_timeout, 10),
            is_secs(r.stall_timeout, 30),
            is_secs(r.ping_interval, 30),
            r.reconnect_delay.nanos() == 1_000_000_000,
            r.max_reconnect_attempts is None,
            r.replay_mode == ProviderReplayMode::Resume,
    {
        YellowstoneGrpcSlotsConfig {
            endpoint: endpoint.to_owned(),
            x_token: None,
            source: SourceSettings::new(ProviderSourceReadiness::Optional, ProviderSourceRole::Secondary),
            commitment: YellowstoneGrpcCommitment::Processed,
            connect_timeout: Some(Duration::from_secs(10)),
            stall_timeout: Some(Duration::from_secs(30)),
            ping_interval: Some(Duration::from_secs(30)),
            reconnect_delay: Duration::from_secs(1),
            max_reconnect_attempts: None,
            replay_mode: ProviderReplayMode::Resume,
        }
    }

    /// Returns the endpoint.
    pub fn endpoint(&self) -> (r: &str)
        ensures
            r@ == self.endpoint@,
    {
        self.endpoint.as_str()
    }

    /// Sets the instance label.
    pub fn with_source_instance(self, instance: &str) -> (r: Self)
        ensures
            r == (YellowstoneGrpcSlotsConfig { source: SourceSettings { instance: r.source.instance, ..self.source }, ..self }),
            r.source.instance matches Some(label) && label@ == instance@,
    {
        let mut config = self;
        config.source.instance = Some(shared_text(instance));
        config
    }

    /// Sets whether the source takes part in readiness.
    pub fn with_readiness(self, readiness: ProviderSourceReadiness) -> (r: Self)
        ensures
            r == (YellowstoneGrpcSlotsConfig { source: SourceSettings { readiness, ..self.source }, ..self }),
    {
        let mut config = self;
        config.source.readiness = readiness;
        config
    }

    /// Sets the role, and the priority to that role's default.
    pub fn with_source_role(self, role: ProviderSourceRole) -> (r: Self)
        ensures
            r == (YellowstoneGrpcSlotsConfig {
                source: SourceSettings { role, priority: role.priority(), ..self.source },
                ..self
            }),
    {
        let mut config = self;
        config.source.role = role;
        config.source.priority = role.default_priority();
        config
    }

    /// Sets the arbitration priority.
    pub fn with_source_priority(self, priority: u16) -> (r: Self)
        ensures
            r == (YellowstoneGrpcSlotsConfig { source: SourceSettings { priority, ..self.source }, ..self }),
    {
        let mut config = self;
        config.source.priority = priority;
        config
    }

    /// Sets the treatment of duplicates.
    pub fn with_source_arbitration(self, arbitration: ProviderSourceArbitrationMode) -> (r: Self)
        ensures
            r == (YellowstoneGrpcSlotsConfig { source: SourceSettings { arbitration, ..self.source }, ..self }),
    {
        let mut config = self;
        config.source.arbitration = arbitration;
        config
    }

    /// Sets the access token.
    pub fn with_x_token(self, x_token: &str) -> (r: Self)
        ensures
            r == (YellowstoneGrpcSlotsConfig { x_token: r.x_token, ..self }),
            r.x_token matches Some(own) && own@ == x_token@,
    {
        let mut config = self;
        config.x_token = Some(x_token.to_owned());
        config
    }

    /// Chooses the commitment.
    pub fn with_commitment(self, commitment: YellowstoneGrpcCommitment) -> (r: Self)
        ensures
            r == (YellowstoneGrpcSlotsConfig { commitment, ..self }),
    {
        let mut config = self;
        config.commitment = commitment;
        config
    }

    /// Sets the time to connect.
    pub fn with_connect_timeout(self, timeout: Duration) -> (r: Self)
        ensures
            r == (YellowstoneGrpcSlotsConfig { connect_timeout: Some(timeout), ..self }),
    {
        let mut config = self;
        config.connect_timeout = Some(timeout);
        config
    }

    /// Sets the time without progress after which a session counts as stalled.
    pub fn with_stall_timeout(self, timeout: Duration) -> (r: Self)
        ensures
            r == (YellowstoneGrpcSlotsConfig { stall_timeout: Some(timeout), ..self }),
    {
        let mut config = self;
        config.stall_timeout = Some(timeout);
        config
    }

    /// Sets the time between pings.
    pub fn with_ping_interval(self, interval: Duration) -> (r: Self)
        ensures
            r == (YellowstoneGrpcSlotsConfig { ping_interval: Some(interval), ..self }),
    {
        let mut config = self;
        config.ping_interval = Some(interval);
        config
    }

    /// Sets the pause before a reconnect.
    pub fn with_reconnect_delay(self, delay: Duration) -> (r: Self)
        ensures
            r == (YellowstoneGrpcSlotsConfig { reconnect_delay: delay, ..self }),
    {
        let mut config = self;
        config.reconnect_delay = delay;
        config
    }

    /// Sets the failures in a row after which the source gives up.
    pub fn with_max_reconnect_attempts(self, attempts: u32) -> (r: Self)
        ensures
            r == (YellowstoneGrpcSlotsConfig { max_reconnect_attempts: Some(attempts), ..self }),
    {
        let mut config = self;
        config.max_reconnect_attempts = Some(attempts);
        config
    }

    /// Sets the replay.
    pub fn with_replay_mode(self, mode: ProviderReplayMode) -> (r: Self)
        ensures
            r == (YellowstoneGrpcSlotsConfig { replay_mode: mode, ..self }),
    {
        let mut config = self;
        config.replay_mode = mode;
        config
    }

    /// The runtime mode of a slot source.
    pub fn runtime_mode(&self) -> (r: ProviderStreamMode)
        ensures
            r == ProviderStreamMode::YellowstoneGrpcSlots,
    {
        ProviderStreamMode::YellowstoneGrpcSlots
    }

    /// The identity to reserve: none without an instance label.
    pub fn source_identity(&self) -> (r: Option<ProviderSourceIdentity>)
        ensures
            match r {
                Some(identity) => self.source.instance matches Some(own) && self.source.describes(
                    ProviderSourceId::YellowstoneGrpcSlots,
                    own@,
                    identity,
                ),
                None => self.source.instance is None,
            },
    {
        self.source.source_identity(ProviderSourceId::YellowstoneGrpcSlots)
    }

    /// The identity under which the source runs: its label, or one made with `sequence`.
    pub fn resolved_source_identity(&self, sequence: u64) -> (r: ProviderSourceIdentity)
        ensures
            match self.source.instance {
                Some(own) => self.source.describes(ProviderSourceId::YellowstoneGrpcSlots, own@, r),
                None => self.source.describes(
                    ProviderSourceId::YellowstoneGrpcSlots,
                    ProviderSourceId::YellowstoneGrpcSlots.label() + "-"@ + decimal_text(sequence as nat),
                    r,
                ),
            },
    {
        self.source.resolved_source_identity(ProviderSourceId::YellowstoneGrpcSlots, sequence)
    }

    /// The slot to subscribe from after `tracked_slot`.
    pub fn replay_from_slot(&self, tracked_slot: u64) -> (r: Option<u64>)
        ensures
            r == replay_start(self.replay_mode, tracked_slot, self.commitment.overlap()),
    {
        replay_start_slot(self.replay_mode, tracked_slot, self.commitment.replay_overlap())
    }

    /// The request of a source that has seen `tracked_slot`.
    pub fn subscribe_request_with_state(&self, tracked_slot: u64) -> (r: GrpcSubscribeRequest)
        ensures
            r.asks_for_slots(SOURCE_FILTER@),
            r.ping is None,
            r.transactions is None,
            r.transactions_status is None,
            r.accounts is None,
            r.blocks_meta is None,
            r.commitment == Some(self.commitment.code()),
            r.from_slot == replay_start(self.replay_mode, tracked_slot, self.commitment.overlap()),
    {
        GrpcSubscribeRequest {
            slots: Some(slots_by_commitment(SOURCE_FILTER)),
            transactions: None,
            transactions_status: None,
            accounts: None,
            blocks_meta: None,
            commitment: Some(self.commitment.as_code()),
            from_slot: self.replay_from_slot(tracked_slot),
            ping: None,
        }
    }

    /// The texts that a slot source reports with.
    pub fn messages(&self) -> (r: SourceMessages)
        ensures
            r.waiting@ == "waiting for first yellowstone slot session ack"@,
            r.ended@ == "yellowstone slot stream ended unexpectedly"@,
            r.exhausted@ == "exhausted yellowstone slot reconnect attempts after "@,
    {
        SourceMessages {
            waiting: "waiting for first yellowstone slot session ack".to_owned(),
            ended: "yellowstone slot stream ended unexpectedly".to_owned(),
            exhausted: "exhausted yellowstone slot reconnect attempts after ".to_owned(),
        }
    }
}

/// A failure of the stream protocol.
#[derive(Clone, Copy, Debug, PartialEq, Eq, Structural)]
pub enum YellowstoneGrpcProtocolError {
    /// A primary stream made no progress.
    StreamStalled {
        /// The stream.
        stream: YellowstoneGrpcStreamKind,
    },
    /// The slot stream made no progress.
    SlotStreamStalled,
    /// No reconnect attempts are left.
    ReconnectBudgetExhausted {
        /// Failures in a row.
        attempts: u32,
    },
}

impl YellowstoneGrpcProtocolError {
    /// The text of the error.
    pub open spec fn text(self) -> Seq<char> {
        match self {
            YellowstoneGrpcProtocolError::StreamStalled { stream } => "yellowstone "@ + stream.label()@
                + " stream stalled without inbound progress"@,
            YellowstoneGrpcProtocolError::SlotStreamStalled => {
                "yellowstone slot stream stalled without inbound progress"@
            },
            YellowstoneGrpcProtocolError::ReconnectBudgetExhausted { attempts } => {
                "exhausted yellowstone reconnect attempts after "@ + decimal_text(attempts as nat) + " failures"@
            },
        }
    }

    /// Writes the error for a human reader.
    pub fn to_text(&self) -> (r: String)
        ensures
            r@ == self.text(),
    {
        match self {
            YellowstoneGrpcProtocolError::StreamStalled { stream } => joined3(
                "yellowstone ",
                stream.as_str(),
                " stream stalled without inbound progress",
            ),
            YellowstoneGrpcProtocolError::SlotStreamStalled => {
                "yellowstone slot stream stalled without inbound progress".to_owned()
            },
            YellowstoneGrpcProtocolError::ReconnectBudgetExhausted { attempts } => {
                let number = decimal(*attempts as u64);
                joined3("exhausted yellowstone reconnect attempts after ", number.as_str(), " failures")
            },
        }
    }
}

/// An error of a Yellowstone source. Errors of the client and of the transport come as text.
#[derive(Debug)]
pub enum YellowstoneGrpcError {
    /// The config cannot be used.
    Config(YellowstoneGrpcConfigError),
    /// The client could not be built.
    Build(String),
    /// The client failed.
    Client(String),
    /// The stream ended with a status.
    Status(String),
    /// An update could not be converted.
    Convert(&'static str),
    /// The stream protocol failed.
    Protocol(YellowstoneGrpcProtocolError),
    /// Nobody receives updates any more.
    QueueClosed,
    /// The source is reserved already.
    DuplicateSourceIdentity(ProviderSourceIdentityRegistrationError),
}

impl YellowstoneGrpcError {
    /// The text of the error.
    pub open spec fn text(self) -> Seq<char> {
        match self {
            YellowstoneGrpcError::Config(error) => error.text(),
            YellowstoneGrpcError::Build(text) => text@,
            YellowstoneGrpcError::Client(text) => text@,
            YellowstoneGrpcError::Status(text) => "yellowstone stream status: "@ + text@,
            YellowstoneGrpcError::Convert(what) => "yellowstone transaction conversion failed: "@ + what@,
            YellowstoneGrpcError::Protocol(error) => error.text(),
            YellowstoneGrpcError::QueueClosed => "provider-stream queue closed"@,
            YellowstoneGrpcError::DuplicateSourceIdentity(error) => error.text(),
        }
    }

    /// Writes the error for a human reader.
    pub fn to_text(&self) -> (r: String)
        ensures
            r@ == self.text(),
    {
        match self {
            YellowstoneGrpcError::Config(error) => error.to_text(),
            YellowstoneGrpcError::Build(text) => text.clone(),
            YellowstoneGrpcError::Client(text) => text.clone(),
            YellowstoneGrpcError::Status(text) => joined("yellowstone stream status: ", text.as_str()),
            YellowstoneGrpcError::Convert(what) => joined("yellowstone transaction conversion failed: ", what),
            YellowstoneGrpcError::Protocol(error) => error.to_text(),
            YellowstoneGrpcError::QueueClosed => "provider-stream queue closed".to_owned(),
            YellowstoneGrpcError::DuplicateSourceIdentity(error) => error.to_text(),
        }
    }

    /// The reason under which the error is reported.
    pub open spec fn health_reason(self) -> ProviderSourceHealthReason {
        match self {
            YellowstoneGrpcError::Build(_) | YellowstoneGrpcError::Client(_) | YellowstoneGrpcError::Status(_) => {
                ProviderSourceHealthReason::UpstreamTransportFailure
            },
            _ => ProviderSourceHealthReason::UpstreamProtocolFailure,
        }
    }
}

/// The reason under which an error is reported: a transport failure where client, builder or
/// stream failed, a protocol failure otherwise.
pub fn yellowstone_health_reason(error: &YellowstoneGrpcError) -> (r: ProviderSourceHealthReason)
    ensures
        r == error.health_reason(),
{
    match error {
        YellowstoneGrpcError::Build(_) | YellowstoneGrpcError::Client(_) | YellowstoneGrpcError::Status(_) => {
            ProviderSourceHealthReason::UpstreamTransportFailure
        },
        _ => ProviderSourceHealthReason::UpstreamProtocolFailure,
    }
}

/// What is wrong with a wire message.
pub open spec fn message_error(message: GrpcMessage) -> Option<&'static str> {
    first_error(
        header_error(message.header),
        first_error(
            keys_error(message.account_keys@),
            first_error(
                blockhash_error(message.recent_blockhash@),
                first_error(
                    instructions_error(message.instructions@),
                    lookups_error(message.versioned, message.address_table_lookups@),
                ),
            ),
        ),
    )
}

/// What is wrong with a wire transaction whose first signature may be known already.
pub open spec fn transaction_error(tx: GrpcTransaction, first: Option<Seq<u8>>) -> Option<&'static str> {
    first_error(
        signatures_error(tx.signatures@, first),
        match tx.message {
            None => Some("missing transaction message"),
            Some(message) => message_error(message),
        },
    )
}

/// What is wrong with a transaction update.
pub open spec fn transaction_update_error(info: Option<GrpcTransactionInfo>) -> Option<&'static str> {
    match info {
        None => Some("missing transaction payload"),
        Some(info) => if info.signature@.len() != 64 {
            Some("invalid signature")
        } else {
            match info.transaction {
                None => Some("missing versioned transaction"),
                Some(tx) => transaction_error(tx, Some(info.signature@)),
            }
        },
    }
}

/// Converts a wire message.
pub fn convert_message(message: &GrpcMessage) -> (r: Result<VersionedMessage, &'static str>)
    ensures
        match r {
            Ok(read) => message_error(*message) is None && read@ == message_view(*message),
            Err(error) => message_error(*message) == Some(error),
        },
{
    let header = match convert_header(message.header) {
        Ok(header) => header,
        Err(error) => {
            return Err(error);
        },
    };
    let account_keys = match convert_keys(&message.account_keys) {
        Ok(keys) => keys,
        Err(error) => {
            return Err(error);
        },
    };
    let recent_blockhash = match convert_blockhash(&message.recent_blockhash) {
        Ok(hash) => hash,
        Err(error) => {
            return Err(error);
        },
    };
    let instructions = match convert_instructions(&message.instructions) {
        Ok(instructions) => instructions,
        Err(error) => {
            return Err(error);
        },
    };
    match convert_lookups(message.versioned, &message.address_table_lookups) {
        Ok(address_table_lookups) => Ok(
            VersionedMessage { header, account_keys, recent_blockhash, instructions, address_table_lookups },
        ),
        Err(error) => Err(error),
    }
}

/// Converts a wire transaction. A first signature that is known already takes the place of the
/// first one.
pub fn convert_transaction(tx: &GrpcTransaction, first_signature: Option<SignatureBytes>) -> (r: Result<
    VersionedTransaction,
    &'static str,
>)
    ensures
        match r {
            Ok(read) => {
                &&& transaction_error(*tx, signature_view(first_signature)) is None
                &&& read@ == (TransactionView {
                    signatures: signatures_view(tx.signatures@, signature_view(first_signature)),
                    message: message_view(tx.message->0),
                })
            },
            Err(error) => transaction_error(*tx, signature_view(first_signature)) == Some(error),
        },
{
    let signatures = match convert_signatures(&tx.signatures, first_signature) {
        Ok(signatures) => signatures,
        Err(error) => {
            return Err(error);
        },
    };
    match &tx.message {
        None => Err("missing transaction message"),
        Some(message) => match convert_message(message) {
            Ok(message) => Ok(VersionedTransaction { signatures, message }),
            Err(error) => Err(error),
        },
    }
}

/// Makes the event of a transaction update.
pub fn transaction_event_from_update(
    slot: u64,
    transaction: Option<GrpcTransactionInfo>,
    commitment_status: TxCommitmentStatus,
    watermarks: ProviderCommitmentWatermarks,
) -> (r: Result<TransactionEvent, &'static str>)
    ensures
        match r {
            Ok(event) => {
                &&& transaction_update_error(transaction) is None
                &&& tells_transaction(
                    event,
                    slot,
                    transaction->0,
                    signatures_view(
                        transaction->0.transaction->0.signatures@,
                        Some(transaction->0.signature@),
                    ),
                    commitment_status,
                    watermarks,
                    None,
                )
            },
            Err(error) => transaction_update_error(transaction) == Some(error),
        },
{
    let info = match transaction {
        None => {
            return Err("missing transaction payload");
        },
        Some(info) => info,
    };
    let signature = match signature_bytes_from_slice(info.signature.as_slice()) {
        None => {
            return Err("invalid signature");
        },
        Some(signature) => signature,
    };
    match &info.transaction {
        None => Err("missing versioned transaction"),
        Some(tx) => match convert_transaction(tx, Some(signature)) {
            Ok(tx) => Ok(transaction_event(slot, info.is_vote, signature, tx, commitment_status, watermarks)),
            Err(error) => Err(error),
        },
    }
}

/// Makes the event of an account update, whose data must not exceed the largest permitted size.
pub fn account_update_event_from_yellowstone(
    update: GrpcAccountUpdate,
    commitment_status: TxCommitmentStatus,
    watermarks: ProviderCommitmentWatermarks,
) -> (r: Result<AccountUpdateEvent, &'static str>)
    ensures
        match r {
            Ok(event) => account_error(update, Some(10_485_760usize)) is None && tells_account(
                event,
                update,
                commitment_status,
                watermarks,
                None,
            ),
            Err(error) => account_error(update, Some(10_485_760usize)) == Some(error),
        },
{
    let most: usize = max_account_data_len();
    account_update_event(update, commitment_status, watermarks, Some(most))
}

/// Takes a slot's status in, makes an event of it where the slot did not have it before, and
/// drops the statuses of old slots once there are many.
pub fn slot_status_event_from_update(
    slot: u64,
    parent_slot: Option<u64>,
    status: Option<ForkSlotStatus>,
    watermarks: &mut ProviderCommitmentWatermarks,
    slot_states: &mut HashMap<u64, ForkSlotStatus>,
) -> (r: Option<SlotStatusEvent>)
    ensures
        *final(watermarks) == marks_after_status(*old(watermarks), slot, status),
        final(slot_states)@ == kept_states(old(slot_states)@, slot, status),
        match r {
            Some(event) => status_is_news(old(slot_states)@, slot, status) && tells_slot_status(
                event,
                old(slot_states)@,
                slot,
                parent_slot,
                status,
                *final(watermarks),
                None,
            ),
            None => !status_is_news(old(slot_states)@, slot, status),
        },
{
    let event = slot_status_event(slot, parent_slot, status, watermarks, slot_states);
    if status.is_some() {
        prune_recent_slots(slot_states, slot, SLOT_STATUS_RETAINED_LAG, SLOT_STATUS_PRUNE_THRESHOLD);
    }
    event
}

/// The statuses that are kept after a slot was seen in a status.
pub open spec fn kept_states(
    states: Map<u64, ForkSlotStatus>,
    slot: u64,
    status: Option<ForkSlotStatus>,
) -> Map<u64, ForkSlotStatus> {
    if status is Some {
        recent_slots(
            states_after(states, slot, status),
            slot,
            SLOT_STATUS_RETAINED_LAG,
            SLOT_STATUS_PRUNE_THRESHOLD as nat,
        )
    } else {
        states
    }
}

/// What happened to a session.
#[derive(Debug)]
pub enum YellowstoneSessionEvent {
    /// A ping is due.
    PingDue,
    /// The stall deadline passed.
    StallDeadlinePassed,
    /// The stream ended.
    StreamEnded,
    /// The stream ended with a status, given as text.
    StreamFailed(String),
    /// An update arrived.
    Update {
        /// The update.
        update: GrpcUpdate,
        /// When it arrived.
        at: Instant,
    },
}

/// What a session does next.
#[derive(Debug)]
pub enum YellowstoneSessionAction {
    /// Wait for the next event.
    Continue,
    /// Send a ping.
    SendPing,
    /// Put an update into the queue.
    Emit(ProviderStreamUpdate),
    /// End without an error.
    End,
    /// End with an error.
    Fail(YellowstoneGrpcError),
}

/// What a primary source knows across its sessions.
#[derive(Clone, Copy, Debug)]
pub struct YellowstonePrimaryState {
    /// Highest slot seen.
    pub tracked_slot: u64,
    /// Commitment watermarks.
    pub watermarks: ProviderCommitmentWatermarks,
    /// Whether the running session is established.
    pub session_established: bool,
    /// When the running session last made progress.
    pub last_progress: Instant,
}

impl YellowstonePrimaryState {
    /// The state of a source that has seen nothing.
    pub fn new(now: Instant) -> (r: Self)
        ensures
            r.tracked_slot == 0,
            r.watermarks == (ProviderCommitmentWatermarks { confirmed_slot: None, finalized_slot: None }),
            !r.session_established,
            r.last_progress == now,
    {
        YellowstonePrimaryState {
            tracked_slot: 0,
            watermarks: ProviderCommitmentWatermarks { confirmed_slot: None, finalized_slot: None },
            session_established: false,
            last_progress: now,
        }
    }

    /// Starts a session on an acknowledged subscription, and says how it is reported.
    pub fn begin_session(
        &mut self,
        config: &YellowstoneGrpcConfig,
        source: &ProviderSourceIdentity,
        now: Instant,
    ) -> (r: ProviderSourceHealthEvent)
        ensures
            *final(self) == (YellowstonePrimaryState {
                session_established: true,
                last_progress: now,
                ..*old(self)
            }),
            r.tells(
                *source,
                config.source.readiness,
                ProviderSourceHealthStatus::Healthy,
                ProviderSourceHealthReason::SubscriptionAckReceived,
                PROVIDER_SUBSCRIPTION_ACKNOWLEDGED@,
            ),
    {
        self.session_established = true;
        self.last_progress = now;
        ProviderSourceHealthEvent::about(
            source,
            config.source.readiness,
            ProviderSourceHealthStatus::Healthy,
            ProviderSourceHealthReason::SubscriptionAckReceived,
            PROVIDER_SUBSCRIPTION_ACKNOWLEDGED.to_owned(),
        )
    }

    /// When the running session counts as stalled.
    pub fn stall_deadline(&self, config: &YellowstoneGrpcConfig) -> (r: Option<Instant>)
        ensures
            stall_point(self.last_progress, config.stall_timeout, r),
    {
        stall_deadline(self.last_progress, config.stall_timeout)
    }

    /// The state after a slot was seen at the subscription's commitment.
    pub open spec fn saw(self, slot: u64, commitment: TxCommitmentStatus, at: Instant) -> Self {
        YellowstonePrimaryState {
            tracked_slot: later_slot(self.tracked_slot, slot),
            watermarks: self.watermarks.observed(slot, commitment),
            last_progress: at,
            ..self
        }
    }

    /// Whether an update that arrived `at` leads to `next` and `action`.
    pub open spec fn takes_update(
        self,
        config: YellowstoneGrpcConfig,
        source: ProviderSourceRef,
        update: GrpcUpdate,
        at: Instant,
        next: Self,
        action: YellowstoneSessionAction,
    ) -> bool {
        let commitment = config.commitment.tx_commitment();
        match update {
            GrpcUpdate::Transaction { slot, transaction } if config.stream
                == YellowstoneGrpcStream::Transaction => {
                &&& next == self.saw(slot, commitment, at)
                &&& match transaction_update_error(transaction) {
                    Some(error) => action matches YellowstoneSessionAction::Fail(
                        YellowstoneGrpcError::Convert(what),
                    ) && what == error,
                    None => action matches YellowstoneSessionAction::Emit(
                        ProviderStreamUpdate::Transaction(event),
                    ) && tells_transaction(
                        event,
                        slot,
                        transaction->0,
                        signatures_view(
                            transaction->0.transaction->0.signatures@,
                            Some(transaction->0.signature@),
                        ),
                        commitment,
                        next.watermarks,
                        Some(source),
                    ),
                }
            },
            GrpcUpdate::TransactionStatus(status) if config.stream
                == YellowstoneGrpcStream::TransactionStatus => {
                &&& next == self.saw(status.slot, commitment, at)
                &&& match status_error(status) {
                    Some(error) => action matches YellowstoneSessionAction::Fail(
                        YellowstoneGrpcError::Convert(what),
                    ) && what == error,
                    None => action matches YellowstoneSessionAction::Emit(
                        ProviderStreamUpdate::TransactionStatus(event),
                    ) && tells_status(event, status, commitment, next.watermarks, Some(source)),
                }
            },
            GrpcUpdate::Account(account) if config.stream == YellowstoneGrpcStream::Accounts => {
                &&& next == self.saw(account.slot, commitment, at)
                &&& match account_error(account, Some(10_485_760usize)) {
                    Some(error) => action matches YellowstoneSessionAction::Fail(
                        YellowstoneGrpcError::Convert(what),
                    ) && what == error,
                    None => action matches YellowstoneSessionAction::Emit(
                        ProviderStreamUpdate::AccountUpdate(event),
                    ) && tells_account(event, account, commitment, next.watermarks, Some(source)),
                }
            },
            GrpcUpdate::BlockMeta(block) if config.stream == YellowstoneGrpcStream::BlockMeta => {
                let blockhash = spelled_hash(block.blockhash@);
                let parent_blockhash = spelled_hash(block.parent_blockhash@);
                &&& next == self.saw(block.slot, commitment, at)
                &&& match block_meta_error(blockhash, parent_blockhash) {
                    Some(error) => action matches YellowstoneSessionAction::Fail(
                        YellowstoneGrpcError::Convert(what),
                    ) && what == error,
                    None => action matches YellowstoneSessionAction::Emit(
                        ProviderStreamUpdate::BlockMeta(event),
                    ) && tells_block_meta(
                        event,
                        block,
                        blockhash,
                        parent_blockhash,
                        commitment,
                        next.watermarks,
                        Some(source),
                    ),
                }
            },
            GrpcUpdate::Slot(slot) => {
                &&& next == (YellowstonePrimaryState {
                    tracked_slot: later_slot(self.tracked_slot, slot.slot),
                    watermarks: marks_after_status(self.watermarks, slot.slot, slot_status_of(slot.status)),
                    last_progress: at,
                    ..self
                })
                &&& action is Continue
            },
            GrpcUpdate::Ping => {
                &&& next == (YellowstonePrimaryState { last_progress: at, ..self })
                &&& action is SendPing
            },
            _ => {
                &&& next == (YellowstonePrimaryState { last_progress: at, ..self })
                &&& action is Continue
            },
        }
    }

    /// Whether an event leads to `next` and `action`.
    pub open spec fn step(
        self,
        config: YellowstoneGrpcConfig,
        source: ProviderSourceRef,
        event: YellowstoneSessionEvent,
        next: Self,
        action: YellowstoneSessionAction,
    ) -> bool {
        match event {
            YellowstoneSessionEvent::PingDue => next == self && action is SendPing,
            YellowstoneSessionEvent::StallDeadlinePassed => {
                &&& next == self
                &&& action matches YellowstoneSessionAction::Fail(YellowstoneGrpcError::Protocol(error)) && error == YellowstoneGrpcProtocolError::StreamStalled { stream: config.stream.kind_of_stream() }
            },
            YellowstoneSessionEvent::StreamEnded => next == self && action is End,
            YellowstoneSessionEvent::StreamFailed(text) => {
                &&& next == self
                &&& action matches YellowstoneSessionAction::Fail(YellowstoneGrpcError::Status(told)) && told == text
            },
            YellowstoneSessionEvent::Update { update, at } => self.takes_update(
                config,
                source,
                update,
                at,
                next,
                action,
            ),
        }
    }

    /// Says what a session does on an event.
    pub fn on_event(
        &mut self,
        config: &YellowstoneGrpcConfig,
        source: &ProviderSourceRef,
        event: YellowstoneSessionEvent,
    ) -> (r: YellowstoneSessionAction)
        ensures
            old(self).step(*config, *source, event, *final(self), r),
    {
        match event {
            YellowstoneSessionEvent::PingDue => YellowstoneSessionAction::SendPing,
            YellowstoneSessionEvent::StallDeadlinePassed => YellowstoneSessionAction::Fail(
                YellowstoneGrpcError::Protocol(
                    YellowstoneGrpcProtocolError::StreamStalled { stream: config.stream.kind() },
                ),
            ),
            YellowstoneSessionEvent::StreamEnded => YellowstoneSessionAction::End,
            YellowstoneSessionEvent::StreamFailed(text) => YellowstoneSessionAction::Fail(
                YellowstoneGrpcError::Status(text),
            ),
            YellowstoneSessionEvent::Update { update, at } => self.on_update(config, source, update, at),
        }
    }

    fn see(&mut self, slot: u64, commitment: TxCommitmentStatus)
        ensures
            *final(self) == old(self).saw(slot, commitment, old(self).last_progress),
    {
        if slot > self.tracked_slot {
            self.tracked_slot = slot;
        }
        self.watermarks.observe_transaction_commitment(slot, commitment);
    }

    fn on_update(
        &mut self,
        config: &YellowstoneGrpcConfig,
        source: &ProviderSourceRef,
        update: GrpcUpdate,
        at: Instant,
    ) -> (r: YellowstoneSessionAction)
        ensures
            old(self).takes_update(*config, *source, update, at, *final(self), r),
    {
        let commitment = config.commitment.as_tx_commitment();
        self.last_progress = at;
        match update {
            GrpcUpdate::Transaction { slot, transaction } => {
                if config.stream == YellowstoneGrpcStream::Transaction {
                    self.see(slot, commitment);
                    match transaction_event_from_update(slot, transaction, commitment, self.watermarks) {
                        Ok(event) => YellowstoneSessionAction::Emit(
                            ProviderStreamUpdate::Transaction(event).with_provider_source_ref(source),
                        ),
                        Err(error) => YellowstoneSessionAction::Fail(YellowstoneGrpcError::Convert(error)),
                    }
                } else {
                    YellowstoneSessionAction::Continue
                }
            },
            GrpcUpdate::TransactionStatus(status) => {
                if config.stream == YellowstoneGrpcStream::TransactionStatus {
                    self.see(status.slot, commitment);
                    match transaction_status_event_from_update(commitment, self.watermarks, status) {
                        Ok(event) => YellowstoneSessionAction::Emit(
                            ProviderStreamUpdate::TransactionStatus(event).with_provider_source_ref(source),
                        ),
                        Err(error) => YellowstoneSessionAction::Fail(YellowstoneGrpcError::Convert(error)),
                    }
                } else {
                    YellowstoneSessionAction::Continue
                }
            },
            GrpcUpdate::Account(account) => {
                if config.stream == YellowstoneGrpcStream::Accounts {
                    self.see(account.slot, commitment);
                    match account_update_event_from_yellowstone(account, commitment, self.watermarks) {
                        Ok(event) => YellowstoneSessionAction::Emit(
                            ProviderStreamUpdate::AccountUpdate(event).with_provider_source_ref(source),
                        ),
                        Err(error) => YellowstoneSessionAction::Fail(YellowstoneGrpcError::Convert(error)),
                    }
                } else {
                    YellowstoneSessionAction::Continue
                }
            },
            GrpcUpdate::BlockMeta(block) => {
                if config.stream == YellowstoneGrpcStream::BlockMeta {
                    self.see(block.slot, commitment);
                    match block_meta_event_from_update(commitment, self.watermarks, &block) {
                        Ok(event) => YellowstoneSessionAction::Emit(
                            ProviderStreamUpdate::BlockMeta(event).with_provider_source_ref(source),
                        ),
                        Err(error) => YellowstoneSessionAction::Fail(YellowstoneGrpcError::Convert(error)),
                    }
                } else {
                    YellowstoneSessionAction::Continue
                }
            },
            GrpcUpdate::Slot(slot) => {
                if slot.slot > self.tracked_slot {
                    self.tracked_slot = slot.slot;
                }
                observe_slot_status(&mut self.watermarks, slot.slot, slot_status_from_code(slot.status));
                YellowstoneSessionAction::Continue
            },
            GrpcUpdate::Ping => YellowstoneSessionAction::SendPing,
            GrpcUpdate::Other => YellowstoneSessionAction::Continue,
        }
    }
}

/// What a slot source knows across its sessions.
#[derive(Debug)]
pub struct YellowstoneSlotState {
    /// Highest slot seen.
    pub tracked_slot: u64,
    /// Commitment watermarks.
    pub watermarks: ProviderCommitmentWatermarks,
    /// Last status of each slot.
    pub slot_states: HashMap<u64, ForkSlotStatus>,
    /// Whether the running session is established.
    pub session_established: bool,
    /// When the running session last made progress.
    pub last_progress: Instant,
}

impl YellowstoneSlotState {
    /// The state of a source that has seen nothing.
    pub fn new(now: Instant) -> (r: Self)
        ensures
            r.tracked_slot == 0,
            r.watermarks == (ProviderCommitmentWatermarks { confirmed_slot: None, finalized_slot: None }),
            r.slot_states@ == Map::<u64, ForkSlotStatus>::empty(),
            !r.session_established,
            r.last_progress == now,
    {
        YellowstoneSlotState {
            tracked_slot: 0,
            watermarks: ProviderCommitmentWatermarks { confirmed_slot: None, finalized_slot: None },
            slot_states: HashMap::with_capacity(SLOT_STATUS_PRUNE_THRESHOLD),
            session_established: false,
            last_progress: now,
        }
    }

    /// Starts a session on an acknowledged subscription, and says how it is reported.
    pub fn begin_session(
        &mut self,
        config: &YellowstoneGrpcSlotsConfig,
        source: &ProviderSourceIdentity,
        now: Instant,
    ) -> (r: ProviderSourceHealthEvent)
        ensures
            *final(self) == (YellowstoneSlotState {
                session_established: true,
                last_progress: now,
                ..*old(self)
            }),
            r.tells(
                *source,
                config.source.readiness,
                ProviderSourceHealthStatus::Healthy,
                ProviderSourceHealthReason::SubscriptionAckReceived,
                PROVIDER_SUBSCRIPTION_ACKNOWLEDGED@,
            ),
    {
        self.session_established = true;
        self.last_progress = now;
        ProviderSourceHealthEvent::about(
            source,
            config.source.readiness,
            ProviderSourceHealthStatus::Healthy,
            ProviderSourceHealthReason::SubscriptionAckReceived,
            PROVIDER_SUBSCRIPTION_ACKNOWLEDGED.to_owned(),
        )
    }

    /// When the running session counts as stalled.
    pub fn stall_deadline(&self, config: &YellowstoneGrpcSlotsConfig) -> (r: Option<Instant>)
        ensures
            stall_point(self.last_progress, config.stall_timeout, r),
    {
        stall_deadline(self.last_progress, config.stall_timeout)
    }

    /// Whether two states differ in nothing but progress.
    pub open spec fn differs_in_progress(self, other: Self) -> bool {
        &&& self.tracked_slot == other.tracked_slot
        &&& self.watermarks == other.watermarks
        &&& self.slot_states@ == other.slot_states@
        &&& self.session_established == other.session_established
    }

    /// Whether an event leads to `next` and `action`.
    pub open spec fn step(
        self,
        source: ProviderSourceRef,
        event: YellowstoneSessionEvent,
        next: Self,
        action: YellowstoneSessionAction,
    ) -> bool {
        match event {
            YellowstoneSessionEvent::PingDue => next == self && action is SendPing,
            YellowstoneSessionEvent::StallDeadlinePassed => {
                &&& next == self
                &&& action matches YellowstoneSessionAction::Fail(YellowstoneGrpcError::Protocol(error)) && error == YellowstoneGrpcProtocolError::SlotStreamStalled
            },
            YellowstoneSessionEvent::StreamEnded => next == self && action is End,
            YellowstoneSessionEvent::StreamFailed(text) => {
                &&& next == self
                &&& action matches YellowstoneSessionAction::Fail(YellowstoneGrpcError::Status(told)) && told == text
            },
            YellowstoneSessionEvent::Update { update, at } => {
                &&& next.last_progress == at
                &&& match update {
                    GrpcUpdate::Slot(slot) => self.takes_slot(source, slot, next, action),
                    GrpcUpdate::Ping => next.differs_in_progress(self) && action is SendPing,
                    _ => next.differs_in_progress(self) && action is Continue,
                }
            },
        }
    }

    /// Whether a slot's status leads to `next` and `action`.
    pub open spec fn takes_slot(
        self,
        source: ProviderSourceRef,
        slot: GrpcSlotUpdate,
        next: Self,
        action: YellowstoneSessionAction,
    ) -> bool {
        let status = slot_status_of(slot.status);
        &&& next.tracked_slot == later_slot(self.tracked_slot, slot.slot)
        &&& next.watermarks == marks_after_status(self.watermarks, slot.slot, status)
        &&& next.slot_states@ == kept_states(self.slot_states@, slot.slot, status)
        &&& next.session_established == self.session_established
        &&& if status_is_news(self.slot_states@, slot.slot, status) {
            action matches YellowstoneSessionAction::Emit(ProviderStreamUpdate::SlotStatus(event))
                && tells_slot_status(
                event,
                self.slot_states@,
                slot.slot,
                slot.parent,
                status,
                next.watermarks,
                Some(source),
            )
        } else {
            action is Continue
        }
    }

    /// Says what a session does on an event.
    pub fn on_event(
        &mut self,
        source: &ProviderSourceRef,
        event: YellowstoneSessionEvent,
    ) -> (r: YellowstoneSessionAction)
        ensures
            old(self).step(*source, event, *final(self), r),
    {
        match event {
            YellowstoneSessionEvent::PingDue => YellowstoneSessionAction::SendPing,
            YellowstoneSessionEvent::StallDeadlinePassed => YellowstoneSessionAction::Fail(
                YellowstoneGrpcError::Protocol(YellowstoneGrpcProtocolError::SlotStreamStalled),
            ),
            YellowstoneSessionEvent::StreamEnded => YellowstoneSessionAction::End,
            YellowstoneSessionEvent::StreamFailed(text) => YellowstoneSessionAction::Fail(
                YellowstoneGrpcError::Status(text),
            ),
            YellowstoneSessionEvent::Update { update, at } => {
                self.last_progress = at;
                match update {
                    GrpcUpdate::Slot(slot) => {
                        if slot.slot > self.tracked_slot {
                            self.tracked_slot = slot.slot;
                        }
                        let status = slot_status_from_code(slot.status);
                        match slot_status_event_from_update(
                            slot.slot,
                            slot.parent,
                            status,
                            &mut self.watermarks,
                            &mut self.slot_states,
                        ) {
                            Some(event) => YellowstoneSessionAction::Emit(
                                ProviderStreamUpdate::SlotStatus(event).with_provider_source_ref(source),
                            ),
                            None => YellowstoneSessionAction::Continue,
                        }
                    },
                    GrpcUpdate::Ping => YellowstoneSessionAction::SendPing,
                    _ => YellowstoneSessionAction::Continue,
                }
            },
        }
    }
}

/// A session never loses track: its highest slot and its watermarks only rise, and whatever
/// arrives from the provider counts as progress.
pub proof fn session_only_advances(
    state: YellowstonePrimaryState,
    config: YellowstoneGrpcConfig,
    source: ProviderSourceRef,
    event: YellowstoneSessionEvent,
    next: YellowstonePrimaryState,
    action: YellowstoneSessionAction,
)
    requires
        state.step(config, source, event, next, action),
    ensures
        next.tracked_slot >= state.tracked_slot,
        at_or_above(next.watermarks.confirmed_slot, state.watermarks.confirmed_slot),
        at_or_above(next.watermarks.finalized_slot, state.watermarks.finalized_slot),
        state.watermarks.ordered() ==> next.watermarks.ordered(),
        next.session_established == state.session_established,
        event matches YellowstoneSessionEvent::Update { at, .. } ==> next.last_progress == at,
{
}

/// A slot whose status is reported twice in a row is reported to consumers once.
pub proof fn repeated_status_is_silent(
    states: Map<u64, ForkSlotStatus>,
    slot: u64,
    status: Option<ForkSlotStatus>,
)
    ensures
        !status_is_news(kept_states(states, slot, status), slot, status),
{
}

/// The commitments are numbered on the wire from the weakest to the strongest, from zero on, and each is
/// told as itself.
pub proof fn commitments_are_numbered(commitment: YellowstoneGrpcCommitment)
    ensures
        commitment.code() == 0 <==> commitment is Processed,
        commitment.code() == 1 <==> commitment is Confirmed,
        commitment.code() == 2 <==> commitment is Finalized,
        commitment.tx_commitment() is Processed <==> commitment is Processed,
        commitment.tx_commitment() is Confirmed <==> commitment is Confirmed,
        commitment.tx_commitment() is Finalized <==> commitment is Finalized,
        commitment.overlap() > 0 <==> commitment is Processed,
        commitment is Processed ==> commitment.overlap() == 31,
{
}

/// A stream runs in the mode and as the source of its own kind, which have one label, and its kind is
/// named in texts.
pub proof fn streams_are_of_their_kind(stream: YellowstoneGrpcStream, kind: YellowstoneGrpcStreamKind)
    ensures
        stream.mode_of_stream().label()@ == stream.source_of_stream().label(),
        stream is Transaction <==> stream.mode_of_stream() == ProviderStreamMode::YellowstoneGrpc,
        stream is TransactionStatus <==> stream.mode_of_stream()
            == ProviderStreamMode::YellowstoneGrpcTransactionStatus,
        stream is Accounts <==> stream.mode_of_stream() == ProviderStreamMode::YellowstoneGrpcAccounts,
        stream is BlockMeta <==> stream.mode_of_stream() == ProviderStreamMode::YellowstoneGrpcBlockMeta,
        stream is Transaction <==> stream.source_of_stream() is YellowstoneGrpc,
        stream is TransactionStatus <==> stream.source_of_stream() is YellowstoneGrpcTransactionStatus,
        stream is Accounts <==> stream.source_of_stream() is YellowstoneGrpcAccounts,
        stream is BlockMeta <==> stream.source_of_stream() is YellowstoneGrpcBlockMeta,
        stream is Transaction <==> stream.kind_of_stream() is Transaction,
        stream is TransactionStatus <==> stream.kind_of_stream() is TransactionStatus,
        stream is Accounts <==> stream.kind_of_stream() is Accounts,
        stream is BlockMeta <==> stream.kind_of_stream() is BlockMeta,
        kind is Transaction ==> kind.label() == "transaction",
        kind is TransactionStatus ==> kind.label() == "transaction-status",
        kind is Accounts ==> kind.label() == "account",
        kind is BlockMeta ==> kind.label() == "block-meta",
        kind is Slots ==> kind.label() == "slot",
{
}

/// A request asks for the stream that is configured and for no other, for the slots that move the
/// watermarks, at the configured commitment, and from the slot that the replay mode says.
pub proof fn requests_ask_for_one_stream(
    config: YellowstoneGrpcConfig,
    request: GrpcSubscribeRequest,
    tracked_slot: u64,
)
    requires
        config.requests(request, tracked_slot),
    ensures
        request.transactions is Some <==> config.stream is Transaction,
        request.transactions_status is Some <==> config.stream is TransactionStatus,
        request.accounts is Some <==> config.stream is Accounts,
        request.blocks_meta is Some <==> config.stream is BlockMeta,
        request.slots is Some && (request.slots->0).0@ == INTERNAL_SLOT_FILTER@
            && (request.slots->0).1.filter_by_commitment == Some(true),
        request.ping is None,
        config.commitment is Processed ==> request.commitment == Some(0i32),
        config.commitment is Confirmed ==> request.commitment == Some(1i32),
        config.commitment is Finalized ==> request.commitment == Some(2i32),
        config.replay_mode is Live ==> request.from_slot is None,
        tracked_slot == 0 ==> (request.from_slot is Some <==> config.replay_mode is FromSlot),
        tracked_slot > 0 && !(config.replay_mode is Live) ==> request.from_slot is Some && request.from_slot->0
            <= tracked_slot,
        tracked_slot > 31 && !(config.replay_mode is Live) && config.commitment is Processed
            ==> tracked_slot - request.from_slot->0 == 31,
        tracked_slot > 0 && !(config.replay_mode is Live) && !(config.commitment is Processed)
            ==> request.from_slot == Some(tracked_slot),
        config.stream is Transaction ==> (request.transactions->0).0@ == SOURCE_FILTER@
            && (request.transactions->0).1.vote == config.vote && (request.transactions->0).1.failed
            == config.failed && (request.transactions->0).1.account_include@.len()
            == config.account_include@.len() && (request.transactions->0).1.account_exclude@.len()
            == config.account_exclude@.len() && (request.transactions->0).1.account_required@.len()
            == config.account_required@.len(),
        config.stream is TransactionStatus ==> (request.transactions_status->0).0@ == SOURCE_FILTER@
            && (request.transactions_status->0).1.vote == config.vote && (request.transactions_status->0).1.failed
            == config.failed && (request.transactions_status->0).1.account_include@.len()
            == config.account_include@.len() && (request.transactions_status->0).1.account_exclude@.len()
            == config.account_exclude@.len() && (request.transactions_status->0).1.account_required@.len()
            == config.account_required@.len(),
        config.stream is Accounts ==> (request.accounts->0).0@ == SOURCE_FILTER@
            && (request.accounts->0).1.account@.len() == config.accounts@.len()
            && (request.accounts->0).1.owner@.len() == config.owners@.len()
            && (request.accounts->0).1.nonempty_txn_signature == Some(config.require_txn_signature),
        config.stream is BlockMeta ==> request.blocks_meta->0@ == SOURCE_FILTER@,
{
}

/// A transaction is taken exactly if it is all there and every part of it can be held; what is missing is
/// told before what cannot be held.
pub proof fn transactions_are_taken_whole(info: Option<GrpcTransactionInfo>)
    ensures
        ({
            let error = transaction_update_error(info);
            let tx = info->0.transaction->0;
            let message = tx.message->0;
            let whole = info is Some && info->0.signature@.len() == 64 && info->0.transaction is Some;
            &&& info is None ==> error == Some("missing transaction payload")
            &&& info is Some && info->0.signature@.len() != 64 ==> error == Some("invalid signature")
            &&& info is Some && info->0.signature@.len() == 64 && info->0.transaction is None ==> error == Some(
                "missing versioned transaction",
            )
            &&& whole && tx.message is None ==> error is Some
            &&& whole && tx.message is None && signatures_error(tx.signatures@, Some(info->0.signature@)) is None
                ==> error == Some("missing transaction message")
            &&& error is None <==> whole && tx.message is Some && signatures_error(
                tx.signatures@,
                Some(info->0.signature@),
            ) is None && header_error(message.header) is None && keys_error(message.account_keys@) is None
                && blockhash_error(message.recent_blockhash@) is None && instructions_error(
                message.instructions@,
            ) is None && lookups_error(message.versioned, message.address_table_lookups@) is None
        }),
{
}

/// A session hands on what its stream is for and nothing else, marked with its source; it ends when the
/// stream does, and fails when the stream fails or stalls, or when what it subscribed to cannot be held.
pub proof fn sessions_hand_on_their_stream(
    state: YellowstonePrimaryState,
    config: YellowstoneGrpcConfig,
    source: ProviderSourceRef,
    event: YellowstoneSessionEvent,
    next: YellowstonePrimaryState,
    action: YellowstoneSessionAction,
)
    requires
        state.step(config, source, event, next, action),
    ensures
        action matches YellowstoneSessionAction::Emit(update) ==> {
            &&& event is Update
            &&& delivered_by(update, source)
            &&& update is Transaction <==> config.stream is Transaction
            &&& update is TransactionStatus <==> config.stream is TransactionStatus
            &&& update is AccountUpdate <==> config.stream is Accounts
            &&& update is BlockMeta <==> config.stream is BlockMeta
            &&& update is Transaction ==> update->Transaction_0.slot <= next.tracked_slot
            &&& update is TransactionStatus ==> update->TransactionStatus_0.slot <= next.tracked_slot
            &&& update is AccountUpdate ==> update->AccountUpdate_0.slot <= next.tracked_slot
            &&& update is BlockMeta ==> update->BlockMeta_0.slot <= next.tracked_slot
        },
        action is End <==> event is StreamEnded,
        event is StallDeadlinePassed ==> action is Fail && action->Fail_0 is Protocol && action->Fail_0->Protocol_0
            == (YellowstoneGrpcProtocolError::StreamStalled { stream: config.stream.kind_of_stream() }),
        event is StreamFailed ==> action is Fail,
        !(event is Update) ==> next == state,
        event matches YellowstoneSessionEvent::Update { update, at, .. } ==> {
            let own = (update is Transaction && config.stream is Transaction) || (update is TransactionStatus
                && config.stream is TransactionStatus) || (update is Account && config.stream is Accounts) || (
            update is BlockMeta && config.stream is BlockMeta);
            &&& next.last_progress == at
            &&& own ==> action is Emit || (action is Fail && action->Fail_0 is Convert)
            &&& !own ==> !(action is Emit) && !(action is Fail)
            &&& !own && !(update is Slot) ==> next.tracked_slot == state.tracked_slot && next.watermarks
                == state.watermarks
            &&& own && config.commitment is Processed ==> next.watermarks == state.watermarks
            &&& own && !(config.commitment is Finalized) ==> next.watermarks.finalized_slot
                == state.watermarks.finalized_slot
        },
{
}

/// What was received is handed on exactly if it can be held, at the slot it came in, which the session has
/// then tracked; at a commitment above processed the confirmed watermark has reached that slot.
pub proof fn received_updates_are_handed_on(
    state: YellowstonePrimaryState,
    config: YellowstoneGrpcConfig,
    source: ProviderSourceRef,
    event: YellowstoneSessionEvent,
    next: YellowstonePrimaryState,
    action: YellowstoneSessionAction,
)
    requires
        state.step(config, source, event, next, action),
        event is Update,
    ensures
        config.stream is Transaction ==> (event->update matches GrpcUpdate::Transaction { slot, transaction } ==> {
            &&& action is Emit <==> transaction_update_error(transaction) is None
            &&& action is Emit ==> action->Emit_0->Transaction_0.slot == slot
            &&& action is Emit ==> action->Emit_0->Transaction_0.confirmed_slot
                == next.watermarks.confirmed_slot
            &&& next.tracked_slot == later_slot(state.tracked_slot, slot)
            &&& !(config.commitment is Processed) ==> next.watermarks.confirmed_slot is Some
                && next.watermarks.confirmed_slot->0 >= slot
        }),
        config.stream is TransactionStatus ==> (event->update matches GrpcUpdate::TransactionStatus(status) ==> {
            &&& action is Emit <==> status.signature@.len() == 64
            &&& action is Emit ==> action->Emit_0->TransactionStatus_0.slot == status.slot
            &&& next.tracked_slot == later_slot(state.tracked_slot, status.slot)
            &&& !(config.commitment is Processed) ==> next.watermarks.confirmed_slot is Some
                && next.watermarks.confirmed_slot->0 >= status.slot
        }),
        config.stream is Accounts ==> (event->update matches GrpcUpdate::Account(account) ==> {
            &&& action is Emit <==> account_error(account, Some(10_485_760usize)) is None
            &&& action is Emit ==> action->Emit_0->AccountUpdate_0.slot == account.slot
            &&& next.tracked_slot == later_slot(state.tracked_slot, account.slot)
            &&& !(config.commitment is Processed) ==> next.watermarks.confirmed_slot is Some
                && next.watermarks.confirmed_slot->0 >= account.slot
        }),
        config.stream is BlockMeta ==> (event->update matches GrpcUpdate::BlockMeta(block) ==> {
            &&& action is Emit <==> spelled_hash(block.blockhash@) is Some && spelled_hash(
                block.parent_blockhash@,
            ) is Some
            &&& action is Emit ==> action->Emit_0->BlockMeta_0.slot == block.slot
            &&& next.tracked_slot == later_slot(state.tracked_slot, block.slot)
            &&& !(config.commitment is Processed) ==> next.watermarks.confirmed_slot is Some
                && next.watermarks.confirmed_slot->0 >= block.slot
        }),
        event->update matches GrpcUpdate::Slot(slot) ==> {
            &&& action is Continue
            &&& next.tracked_slot == later_slot(state.tracked_slot, slot.slot)
            &&& slot.status != 1 && slot.status != 2 ==> next.watermarks == state.watermarks
            &&& slot.status == 1 || slot.status == 2 ==> next.watermarks.confirmed_slot is Some
                && next.watermarks.confirmed_slot->0 >= slot.slot
            &&& slot.status == 2 ==> next.watermarks.finalized_slot is Some
                && next.watermarks.finalized_slot->0 >= slot.slot
        },
        event->update is Ping ==> action is SendPing,
{
}

/// A slot session hands on each change of a slot's status and nothing else, and remembers the status; a
/// status of an unknown code changes no slot.
pub proof fn slot_sessions_tell_changes(
    state: YellowstoneSlotState,
    source: ProviderSourceRef,
    event: YellowstoneSessionEvent,
    next: YellowstoneSlotState,
    action: YellowstoneSessionAction,
)
    requires
        state.step(source, event, next, action),
    ensures
        action is End <==> event is StreamEnded,
        action is Fail <==> event is StreamFailed || event is StallDeadlinePassed,
        event is StallDeadlinePassed ==> action->Fail_0 is Protocol && action->Fail_0->Protocol_0
            is SlotStreamStalled,
        !(event is Update) ==> next == state,
        event is Update ==> next.last_progress == event->at,
        event is Update && !(event->update is Slot) ==> next.tracked_slot == state.tracked_slot
            && next.watermarks == state.watermarks && next.slot_states@ == state.slot_states@ && !(
        action is Emit),
        action matches YellowstoneSessionAction::Emit(update) ==> event is Update && event->update is Slot
            && update is SlotStatus && delivered_by(update, source),
        event is Update ==> (event->update matches GrpcUpdate::Slot(slot) ==> {
            let known = 0 <= slot.status <= 6;
            &&& action is Emit <==> known && !(state.slot_states@.contains_key(slot.slot)
                && state.slot_states@[slot.slot] == slot_status_of(slot.status)->0)
            &&& action is Emit ==> action->Emit_0->SlotStatus_0.slot == slot.slot
                && action->Emit_0->SlotStatus_0.parent_slot == slot.parent
                && action->Emit_0->SlotStatus_0.status == slot_status_of(slot.status)->0
            &&& next.tracked_slot == later_slot(state.tracked_slot, slot.slot)
            &&& known ==> next.slot_states@.contains_key(slot.slot) && next.slot_states@[slot.slot]
                == slot_status_of(slot.status)->0
            &&& !known ==> next.slot_states@ == state.slot_states@
            &&& slot.status != 1 && slot.status != 2 ==> next.watermarks == state.watermarks
            &&& slot.status == 1 || slot.status == 2 ==> next.watermarks.confirmed_slot is Some
                && next.watermarks.confirmed_slot->0 >= slot.slot
            &&& slot.status == 2 ==> next.watermarks.finalized_slot is Some
                && next.watermarks.finalized_slot->0 >= slot.slot
        }),
{
}

/// A config is refused exactly if it holds a filter that its stream has no use for: one on transactions
/// for an account stream, one on accounts for any other. The first such filter is told.
pub proof fn foreign_filters_are_refused(config: YellowstoneGrpcConfig)
    ensures
        ({
            let told = config.unsupported();
            let accounts = config.stream is Accounts;
            let first = config.vote is Some || config.failed is Some || config.signature is Some;
            &&& accounts ==> (told is None <==> config.vote is None && config.failed is None
                && config.signature is None && config.account_include@.len() == 0
                && config.account_exclude@.len() == 0 && config.account_required@.len() == 0)
            &&& !accounts ==> (told is None <==> config.accounts@.len() == 0 && config.owners@.len() == 0
                && !config.require_txn_signature)
            &&& told == Some(YellowstoneGrpcConfigOption::VoteFilter) <==> accounts && config.vote is Some
            &&& told == Some(YellowstoneGrpcConfigOption::FailedFilter) <==> accounts && config.vote is None
                && config.failed is Some
            &&& told == Some(YellowstoneGrpcConfigOption::SignatureFilter) <==> accounts && config.vote is None
                && config.failed is None && config.signature is Some
            &&& told == Some(YellowstoneGrpcConfigOption::AccountIncludeFilter) <==> accounts && !first
                && config.account_include@.len() > 0
            &&& told == Some(YellowstoneGrpcConfigOption::AccountExcludeFilter) <==> accounts && !first
                && config.account_include@.len() == 0 && config.account_exclude@.len() > 0
            &&& told == Some(YellowstoneGrpcConfigOption::AccountRequiredFilter) <==> accounts && !first
                && config.account_include@.len() == 0 && config.account_exclude@.len() == 0
                && config.account_required@.len() > 0
            &&& told == Some(YellowstoneGrpcConfigOption::Accounts) <==> !accounts && config.accounts@.len() > 0
            &&& told == Some(YellowstoneGrpcConfigOption::Owners) <==> !accounts && config.accounts@.len() == 0
                && config.owners@.len() > 0
            &&& told == Some(YellowstoneGrpcConfigOption::RequireTransactionSignature) <==> !accounts
                && config.accounts@.len() == 0 && config.owners@.len() == 0 && config.require_txn_signature
        }),
{
}

/// The options that an error can name are named so.
pub proof fn option_labels_are_stable(option: YellowstoneGrpcConfigOption, stream: YellowstoneGrpcStreamKind)
    ensures
        option is VoteFilter ==> option.label() == "vote filter",
        option is FailedFilter ==> option.label() == "failed filter",
        option is SignatureFilter ==> option.label() == "signature filter",
        option is AccountIncludeFilter ==> option.label() == "account-include filter",
        option is AccountExcludeFilter ==> option.label() == "account-exclude filter",
        option is AccountRequiredFilter ==> option.label() == "account-required filter",
        option is Accounts ==> option.label() == "accounts filter",
        option is Owners ==> option.label() == "owners filter",
        option is RequireTransactionSignature ==> option.label() == "require-transaction-signature",
        (YellowstoneGrpcConfigError::UnsupportedOption { stream, option }).text() == option.label()@
            + " is not supported for yellowstone "@ + stream.label()@ + " streams"@,
{
}

/// A failure of the transport is one that the client or the stream met; every other failure is one of the
/// protocol. The text of an error holds what it was made with.
pub proof fn errors_are_told(error: YellowstoneGrpcError)
    ensures
        error.health_reason() == ProviderSourceHealthReason::UpstreamTransportFailure <==> error is Build
            || error is Client || error is Status,
        error.health_reason() != ProviderSourceHealthReason::UpstreamTransportFailure ==> error.health_reason()
            == ProviderSourceHealthReason::UpstreamProtocolFailure,
        error matches YellowstoneGrpcError::Build(text) ==> error.text() == text@,
        error matches YellowstoneGrpcError::Client(text) ==> error.text() == text@,
        error matches YellowstoneGrpcError::Status(text) ==> error.text() == "yellowstone stream status: "@
            + text@,
        error matches YellowstoneGrpcError::Convert(what) ==> error.text()
            == "yellowstone transaction conversion failed: "@ + what@,
        error is QueueClosed ==> error.text() == "provider-stream queue closed"@,
        error matches YellowstoneGrpcError::Protocol(inner) ==> {
            &&& error.text() == inner.text()
            &&& inner matches YellowstoneGrpcProtocolError::StreamStalled { stream } ==> error.text()
                == "yellowstone "@ + stream.label()@ + " stream stalled without inbound progress"@
            &&& inner is SlotStreamStalled ==> error.text()
                == "yellowstone slot stream stalled without inbound progress"@
            &&& inner matches YellowstoneGrpcProtocolError::ReconnectBudgetExhausted { attempts }
                ==> error.text() == "exhausted yellowstone reconnect attempts after "@ + decimal_text(
                attempts as nat,
            ) + " failures"@
        },
{
}

/// What is remembered of slots: the status just seen, and of the others each that was remembered, unless
/// more than 8,192 are and it is more than 4,096 slots behind.
pub proof fn recent_statuses_are_kept(
    states: Map<u64, ForkSlotStatus>,
    slot: u64,
    status: ForkSlotStatus,
    other: u64,
)
    requires
        other != slot,
    ensures
        kept_states(states, slot, None) == states,
        kept_states(states, slot, Some(status)).contains_key(slot),
        kept_states(states, slot, Some(status))[slot] == status,
        kept_states(states, slot, Some(status)).contains_key(other) <==> states.contains_key(other) && (
        states.insert(slot, status).len() <= 8_192 || slot - other <= 4_096),
        kept_states(states, slot, Some(status)).contains_key(other) ==> kept_states(
            states,
            slot,
            Some(status),
        )[other] == states[other],
{
}

} // verus!
