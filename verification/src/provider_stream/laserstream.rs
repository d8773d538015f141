//! LaserStream sources: configs, subscription requests, channel settings, sessions and errors.
use crate::bytes::{signature_bytes_from_slice, spelled_hash, PubkeyBytes, SignatureBytes};
use crate::event::{ForkSlotStatus, TxCommitmentStatus};
use crate::framework::{AccountUpdateEvent, TransactionEvent};
use crate::provider_stream::grpc::{
    account_error, account_filter, account_update_event, block_meta_error,
    block_meta_event_from_update, blockhash_error, convert_blockhash, convert_header,
    convert_instructions, convert_keys, convert_lookups, convert_signatures, filters_accounts,
    filters_transactions, first_error, header_error, instructions_error, keys_error, later_slot,
    lookups_error, marks_after_status, message_view, observe_slot_status, signatures_error,
    signatures_view, slot_status_event, slot_status_from_code, slot_status_of, slots_by_commitment, stall_deadline,
    stall_point, states_after, status_error, status_is_news, tells_account, tells_block_meta,
    tells_slot_status, tells_status, tells_transaction, transaction_event, transaction_filter,
    transaction_status_event_from_update, GrpcAccountFilter, GrpcAccountUpdate, GrpcMessage,
    GrpcSlotUpdate, GrpcSubscribeRequest, GrpcTransaction, GrpcTransactionFilter,
    GrpcTransactionInfo, GrpcUpdate, SOURCE_FILTER,
};
use crate::provider_stream::source::{
    shared_text, ProviderSourceArbitrationMode, ProviderSourceHealthEvent,
    ProviderSourceHealthReason, ProviderSourceHealthStatus, ProviderSourceId,
    ProviderSourceIdentity, ProviderSourceReadiness, ProviderSourceRef, ProviderSourceRole,
    SourceSettings,
};
use crate::provider_stream::supervisor::{SourceMessages, PROVIDER_SUBSCRIPTION_ACKNOWLEDGED};
use crate::provider_stream::update::{delivered_by, ProviderStreamUpdate};
use crate::provider_stream::watermarks::{at_or_above, ProviderCommitmentWatermarks};
use crate::provider_stream::yellowstone::is_secs;
use crate::provider_stream::{
    replay_start, replay_start_slot, ProviderReplayMode, ProviderStreamMode,
};
use crate::text::{decimal, decimal_text, joined, joined3, same_text};
use crate::time::{Duration, Instant};
use crate::transaction::{TransactionView, VersionedMessage, VersionedTransaction};
use std::collections::HashMap;
use vstd::prelude::*;

verus! {

/// Name of the slot filter that feeds the watermarks.
pub const INTERNAL_WATERMARK_SLOT_FILTER: &'static str = "__sof_watermark_slots";

/// Default bound on the size of a message from the provider.
pub const DEFAULT_MAX_DECODING_MESSAGE_SIZE: usize = 67_108_864;

/// Commitment of a subscription.
#[derive(Clone, Copy, Debug, PartialEq, Eq, Structural)]
pub enum LaserStreamCommitment {
    /// Processed.
    Processed,
    /// Confirmed.
    Confirmed,
    /// Finalized.
    Finalized,
}

impl Default for LaserStreamCommitment {
    fn default() -> (r: Self)
        ensures
            r == LaserStreamCommitment::Processed,
    {
        LaserStreamCommitment::Processed
    }
}

impl LaserStreamCommitment {

    /// The code of the commitment on the wire.
    pub open spec fn code(self) -> i32 {
        match self {
            LaserStreamCommitment::Processed => 0,
            LaserStreamCommitment::Confirmed => 1,
            LaserStreamCommitment::Finalized => 2,
        }
    }

    /// The code of the commitment on the wire.
    pub fn as_code(self) -> (r: i32)
        ensures
            r == self.code(),
    {
        match self {
            LaserStreamCommitment::Processed => 0,
            LaserStreamCommitment::Confirmed => 1,
            LaserStreamCommitment::Finalized => 2,
        }
    }

    /// The commitment of the events of a subscription.
    pub open spec fn tx_commitment(self) -> TxCommitmentStatus {
        match self {
            LaserStreamCommitment::Processed => TxCommitmentStatus::Processed,
            LaserStreamCommitment::Confirmed => TxCommitmentStatus::Confirmed,
            LaserStreamCommitment::Finalized => TxCommitmentStatus::Finalized,
        }
    }

    /// The commitment of the events of a subscription.
    pub fn as_tx_commitment(self) -> (r: TxCommitmentStatus)
        ensures
            r == self.tx_commitment(),
    {
        match self {
            LaserStreamCommitment::Processed => TxCommitmentStatus::Processed,
            LaserStreamCommitment::Confirmed => TxCommitmentStatus::Confirmed,
            LaserStreamCommitment::Finalized => TxCommitmentStatus::Finalized,
        }
    }
}

/// A stream that a primary config can select.
#[derive(Clone, Copy, Debug, PartialEq, Eq, Structural)]
pub enum LaserStreamStream {
    /// Transactions.
    Transaction,
    /// Transaction outcomes.
    TransactionStatus,
    /// Accounts.
    Accounts,
    /// Block meta.
    BlockMeta,
}

impl Default for LaserStreamStream {
    fn default() -> (r: Self)
        ensures
            r == LaserStreamStream::Transaction,
    {
        LaserStreamStream::Transaction
    }
}

/// A stream as errors name it.
#[derive(Clone, Copy, Debug, PartialEq, Eq, Structural)]
pub enum LaserStreamStreamKind {
    /// Transactions.
    Transaction,
    /// Transaction outcomes.
    TransactionStatus,
    /// Accounts.
    Accounts,
    /// Block meta.
    BlockMeta,
    /// Slots.
    Slots,
}

impl LaserStreamStreamKind {

    /// The name of the stream.
    pub open spec fn label(self) -> &'static str {
        match self {
            LaserStreamStreamKind::Transaction => "transaction",
            LaserStreamStreamKind::TransactionStatus => "transaction-status",
            LaserStreamStreamKind::Accounts => "account",
            LaserStreamStreamKind::BlockMeta => "block-meta",
            LaserStreamStreamKind::Slots => "slot",
        }
    }

    /// The name of the stream.
    pub fn as_str(self) -> (r: &'static str)
        ensures
            r == self.label(),
    {
        match self {
            LaserStreamStreamKind::Transaction => "transaction",
            LaserStreamStreamKind::TransactionStatus => "transaction-status",
            LaserStreamStreamKind::Accounts => "account",
            LaserStreamStreamKind::BlockMeta => "block-meta",
            LaserStreamStreamKind::Slots => "slot",
        }
    }
}

impl LaserStreamStream {

    /// The stream as errors name it.
    pub open spec fn kind_of_stream(self) -> LaserStreamStreamKind {
        match self {
            LaserStreamStream::Transaction => LaserStreamStreamKind::Transaction,
            LaserStreamStream::TransactionStatus => LaserStreamStreamKind::TransactionStatus,
            LaserStreamStream::Accounts => LaserStreamStreamKind::Accounts,
            LaserStreamStream::BlockMeta => LaserStreamStreamKind::BlockMeta,
        }
    }

    /// The stream as errors name it.
    pub fn kind(self) -> (r: LaserStreamStreamKind)
        ensures
            r == self.kind_of_stream(),
    {
        match self {
            LaserStreamStream::Transaction => LaserStreamStreamKind::Transaction,
            LaserStreamStream::TransactionStatus => LaserStreamStreamKind::TransactionStatus,
            LaserStreamStream::Accounts => LaserStreamStreamKind::Accounts,
            LaserStreamStream::BlockMeta => LaserStreamStreamKind::BlockMeta,
        }
    }

    /// The runtime mode of the stream.
    pub open spec fn mode_of_stream(self) -> ProviderStreamMode {
        match self {
            LaserStreamStream::Transaction => ProviderStreamMode::LaserStream,
            LaserStreamStream::TransactionStatus => ProviderStreamMode::LaserStreamTransactionStatus,
            LaserStreamStream::Accounts => ProviderStreamMode::LaserStreamAccounts,
            LaserStreamStream::BlockMeta => ProviderStreamMode::LaserStreamBlockMeta,
        }
    }

    /// The runtime mode of the stream.
    pub fn mode(self) -> (r: ProviderStreamMode)
        ensures
            r == self.mode_of_stream(),
    {
        match self {
            LaserStreamStream::Transaction => ProviderStreamMode::LaserStream,
            LaserStreamStream::TransactionStatus => ProviderStreamMode::LaserStreamTransactionStatus,
            LaserStreamStream::Accounts => ProviderStreamMode::LaserStreamAccounts,
            LaserStreamStream::BlockMeta => ProviderStreamMode::LaserStreamBlockMeta,
        }
    }

    /// The source kind of the stream.
    pub open spec fn source_of_stream(self) -> ProviderSourceId {
        match self {
            LaserStreamStream::Transaction => ProviderSourceId::LaserStream,
            LaserStreamStream::TransactionStatus => ProviderSourceId::LaserStreamTransactionStatus,
            LaserStreamStream::Accounts => ProviderSourceId::LaserStreamAccounts,
            LaserStreamStream::BlockMeta => ProviderSourceId::LaserStreamBlockMeta,
        }
    }

    /// The source kind of the stream.
    pub fn source_id(self) -> (r: ProviderSourceId)
        ensures
            r == self.source_of_stream(),
    {
        match self {
            LaserStreamStream::Transaction => ProviderSourceId::LaserStream,
            LaserStreamStream::TransactionStatus => ProviderSourceId::LaserStreamTransactionStatus,
            LaserStreamStream::Accounts => ProviderSourceId::LaserStreamAccounts,
            LaserStreamStream::BlockMeta => ProviderSourceId::LaserStreamBlockMeta,
        }
    }
}

/// Settings that the LaserStream client is handed.
#[derive(Clone, Debug)]
pub struct LaserStreamClientConfig {
    /// Endpoint.
    pub endpoint: String,
    /// Access key.
    pub api_key: String,
    /// Channel settings.
    pub channel: LaserStreamChannelOptions,
    /// Whether the client replays after a reconnect.
    pub replay: bool,
    /// Reconnect attempts of the client.
    pub max_reconnect_attempts: Option<u32>,
}

/// Channel settings, each absent where the default applies.
#[derive(Clone, Copy, Debug, PartialEq, Eq, Structural)]
pub struct LaserStreamChannelOptions {
    /// Whole seconds to connect.
    pub connect_timeout_secs: Option<u64>,
    /// Whole seconds for a request.
    pub timeout_secs: Option<u64>,
    /// Bound on messages received.
    pub max_decoding_message_size: Option<usize>,
    /// Bound on messages sent.
    pub max_encoding_message_size: Option<usize>,
}

/// Channel settings with the defaults filled in.
#[derive(Clone, Copy, Debug, PartialEq, Eq, Structural)]
pub struct LaserStreamChannelPlan {
    /// Seconds to connect.
    pub connect_timeout_secs: u64,
    /// Seconds for a request.
    pub timeout_secs: u64,
    /// Seconds between keep-alive pings.
    pub http2_keep_alive_interval_secs: u64,
    /// Seconds to wait for a keep-alive answer.
    pub keep_alive_timeout_secs: u64,
    /// Whether an idle connection is kept alive.
    pub keep_alive_while_idle: bool,
    /// Stream window in bytes.
    pub initial_stream_window_size: u32,
    /// Connection window in bytes.
    pub initial_connection_window_size: u32,
    /// Whether windows adapt.
    pub http2_adaptive_window: bool,
    /// Whether small packets are sent at once.
    pub tcp_nodelay: bool,
    /// Request buffer.
    pub buffer_size: usize,
    /// Bound on messages received.
    pub max_decoding_message_size: usize,
    /// Bound on messages sent.
    pub max_encoding_message_size: usize,
}

impl LaserStreamChannelOptions {
    /// The settings with the defaults filled in.
    pub open spec fn planned(self) -> LaserStreamChannelPlan {
        LaserStreamChannelPlan {
            connect_timeout_secs: if self.connect_timeout_secs is Some {
                self.connect_timeout_secs->0
            } else {
                10
            },
            timeout_secs: if self.timeout_secs is Some {
                self.timeout_secs->0
            } else {
                30
            },
            http2_keep_alive_interval_secs: 30,
            keep_alive_timeout_secs: 5,
            keep_alive_while_idle: true,
            initial_stream_window_size: 4_194_304,
            initial_connection_window_size: 8_388_608,
            http2_adaptive_window: true,
            tcp_nodelay: true,
            buffer_size: 65_536,
            max_decoding_message_size: if self.max_decoding_message_size is Some {
                self.max_decoding_message_size->0
            } else {
                1_000_000_000
            },
            max_encoding_message_size: if self.max_encoding_message_size is Some {
                self.max_encoding_message_size->0
            } else {
                32_000_000
            },
        }
    }

    /// Fills the defaults in.
    pub fn plan(self) -> (r: LaserStreamChannelPlan)
        ensures
            r == self.planned(),
    {
        LaserStreamChannelPlan {
            connect_timeout_secs: self.connect_timeout_secs.unwrap_or(10),
            timeout_secs: self.timeout_secs.unwrap_or(30),
            http2_keep_alive_interval_secs: 30,
            keep_alive_timeout_secs: 5,
            keep_alive_while_idle: true,
            initial_stream_window_size: 4_194_304,
            initial_connection_window_size: 8_388_608,
            http2_adaptive_window: true,
            tcp_nodelay: true,
            buffer_size: 65_536,
            max_decoding_message_size: self.max_decoding_message_size.unwrap_or(1_000_000_000),
            max_encoding_message_size: self.max_encoding_message_size.unwrap_or(32_000_000),
        }
    }
}

/// The whole seconds of a timeout that may be absent.
pub open spec fn timeout_secs(timeout: Option<Duration>) -> Option<u64> {
    match timeout {
        Some(span) => Some((span.nanos() / 1_000_000_000) as u64),
        None => None,
    }
}

fn whole_secs(timeout: Option<Duration>) -> (r: Option<u64>)
    ensures
        r == timeout_secs(timeout),
{
    match timeout {
        Some(span) => Some(span.as_secs()),
        None => None,
    }
}

/// Whether a client config carries these settings.
pub open spec fn configures_client(
    client: LaserStreamClientConfig,
    endpoint: Seq<char>,
    api_key: Seq<char>,
    channel: LaserStreamChannelOptions,
    replay_mode: ProviderReplayMode,
    max_reconnect_attempts: Option<u32>,
) -> bool {
    &&& client.endpoint@ == endpoint
    &&& client.api_key@ == api_key
    &&& client.channel == channel
    &&& client.replay == (replay_mode !is Live)
    &&& client.max_reconnect_attempts == max_reconnect_attempts
}

/// Config of a primary LaserStream source.
#[derive(Clone, Debug)]
pub struct LaserStreamConfig {
    /// Endpoint.
    pub endpoint: String,
    /// Access key.
    pub api_key: String,
    /// Source policy.
    pub source: SourceSettings,
    /// Selected stream.
    pub stream: LaserStreamStream,
    /// Commitment.
    pub commitment: LaserStreamCommitment,
    /// Vote filter.
    pub vote: Option<bool>,
    /// Failed filter.
    pub failed: Option<bool>,
    /// Signature filter.
    pub signature: Option<SignatureBytes>,
    /// Account-include filter.
    pub account_include: Vec<PubkeyBytes>,
    /// Account-exclude filter.
    pub account_exclude: Vec<PubkeyBytes>,
    /// Account-required filter.
    pub account_required: Vec<PubkeyBytes>,
    /// Account keys of an account stream.
    pub accounts: Vec<PubkeyBytes>,
    /// Owners of an account stream.
    pub owners: Vec<PubkeyBytes>,
    /// Whether account updates must carry a transaction signature.
    pub require_txn_signature: bool,
    /// Time to connect.
    pub connect_timeout: Option<Duration>,
    /// Time for a request.
    pub timeout: Option<Duration>,
    /// Time without progress after which a session counts as stalled.
    pub stall_timeout: Option<Duration>,
    /// Bound on messages received.
    pub max_decoding_message_size: Option<usize>,
    /// Bound on messages sent.
    pub max_encoding_message_size: Option<usize>,
    /// Pause before a reconnect.
    pub reconnect_delay: Duration,
    /// Failures in a row after which the source gives up.
    pub max_reconnect_attempts: Option<u32>,
    /// Replay.
    pub replay_mode: ProviderReplayMode,
}

impl LaserStreamConfig {
    /// Creates a config of a transaction stream without filters.
    pub fn new(endpoint: &str, api_key: &str) -> (r: Self)
        ensures
            r.endpoint@ == endpoint@,
            r.api_key@ == api_key@,
            r.source == SourceSettings::in_role(ProviderSourceReadiness::Required, ProviderSourceRole::Primary),
            r.stream == LaserStreamStream::Transaction,
            r.commitment == LaserStreamCommitment::Processed,
            r.vote is None,
            r.failed is None,
            r.signature is None,
            r.account_include@.len() == 0,
            r.account_exclude@.len() == 0,
            r.account_required@.len() == 0,
            r.accounts@.len() == 0,
            r.owners@.len() == 0,
            !r.require_txn_signature,
            is_secs(r.connect_timeout, 10),
            is_secs(r.timeout, 30),
            is_secs(r.stall_timeout, 30),
            r.max_decoding_message_size == Some(DEFAULT_MAX_DECODING_MESSAGE_SIZE),
            r.max_encoding_message_size is None,
            r.reconnect_delay.nanos() == 1_000_000_000,
            r.max_reconnect_attempts is None,
            r.replay_mode == ProviderReplayMode::Resume,
    {
        LaserStreamConfig {
            endpoint: endpoint.to_owned(),
            api_key: api_key.to_owned(),
            source: SourceSettings::new(ProviderSourceReadiness::Required, ProviderSourceRole::Primary),
            stream: LaserStreamStream::Transaction,
            commitment: LaserStreamCommitment::Processed,
            vote: None,
            failed: None,
            signature: None,
            account_include: Vec::new(),
            account_exclude: Vec::new(),
            account_required: Vec::new(),
            accounts: Vec::new(),
            owners: Vec::new(),
            require_txn_signature: false,
            connect_timeout: Some(Duration::from_secs(10)),
            timeout: Some(Duration::from_secs(30)),
            stall_timeout: Some(Duration::from_secs(30)),
            max_decoding_message_size: Some(DEFAULT_MAX_DECODING_MESSAGE_SIZE),
            max_encoding_message_size: None,
            reconnect_delay: Duration::from_secs(1),
            max_reconnect_attempts: None,
            replay_mode: ProviderReplayMode::Resume,
        }
    }

    /// Returns the endpoint.
    pub fn endpoint(&self) -> (r: &str)
        ensures
            r@ == self.endpoint@,
    {
        self.endpoint.as_str()
    }

    /// Sets the instance label.
    pub fn with_source_instance(self, instance: &str) -> (r: Self)
        ensures
            r == (LaserStreamConfig { source: SourceSettings { instance: r.source.instance, ..self.source }, ..self }),
            r.source.instance matches Some(label) && label@ == instance@,
    {
        let mut config = self;
        config.source.instance = Some(shared_text(instance));
        config
    }

    /// Sets whether the source takes part in readiness.
    pub fn with_readiness(self, readiness: ProviderSourceReadiness) -> (r: Self)
        ensures
            r == (LaserStreamConfig { source: SourceSettings { readiness, ..self.source }, ..self }),
    {
        let mut config = self;
        config.source.readiness = readiness;
        config
    }

    /// Sets the role, and the priority to that role's default.
    pub fn with_source_role(self, role: ProviderSourceRole) -> (r: Self)
        ensures
            r == (LaserStreamConfig {
                source: SourceSettings { role, priority: role.priority(), ..self.source },
                ..self
            }),
    {
        let mut config = self;
        config.source.role = role;
        config.source.priority = role.default_priority();
        config
    }

    /// Sets the arbitration priority.
    pub fn with_source_priority(self, priority: u16) -> (r: Self)
        ensures
            r == (LaserStreamConfig { source: SourceSettings { priority, ..self.source }, ..self }),
    {
        let mut config = self;
        config.source.priority = priority;
        config
    }

    /// Sets the treatment of duplicates.
    pub fn with_source_arbitration(self, arbitration: ProviderSourceArbitrationMode) -> (r: Self)
        ensures
            r == (LaserStreamConfig { source: SourceSettings { arbitration, ..self.source }, ..self }),
    {
        let mut config = self;
        config.source.arbitration = arbitration;
        config
    }

    /// Selects the stream.
    pub fn with_stream(self, stream: LaserStreamStream) -> (r: Self)
        ensures
            r == (LaserStreamConfig { stream, ..self }),
    {
        let mut config = self;
        config.stream = stream;
        config
    }

    /// Chooses the commitment.
    pub fn with_commitment(self, commitment: LaserStreamCommitment) -> (r: Self)
        ensures
            r == (LaserStreamConfig { commitment, ..self }),
    {
        let mut config = self;
        config.commitment = commitment;
        config
    }

    /// Sets the vote filter.
    pub fn with_vote(self, vote: bool) -> (r: Self)
        ensures
            r == (LaserStreamConfig { vote: Some(vote), ..self }),
    {
        let mut config = self;
        config.vote = Some(vote);
        config
    }

    /// Sets the failed filter.
    pub fn with_failed(self, failed: bool) -> (r: Self)
        ensures
            r == (LaserStreamConfig { failed: Some(failed), ..self }),
    {
        let mut config = self;
        config.failed = Some(failed);
        config
    }

    /// Narrows the stream to one signature.
    pub fn with_signature(self, signature: SignatureBytes) -> (r: Self)
        ensures
            r == (LaserStreamConfig { signature: Some(signature), ..self }),
    {
        let mut config = self;
        config.signature = Some(signature);
        config
    }

    /// Requires one of the keys, added to those before, to occur.
    pub fn with_account_include(self, keys: Vec<PubkeyBytes>) -> (r: Self)
        ensures
            r == (LaserStreamConfig { account_include: r.account_include, ..self }),
            r.account_include@ == self.account_include@ + keys@,
    {
        let mut config = self;
        let mut added = keys;
        config.account_include.append(&mut added);
        config
    }

    /// Requires none of the keys, added to those before, to occur.
    pub fn with_account_exclude(self, keys: Vec<PubkeyBytes>) -> (r: Self)
        ensures
            r == (LaserStreamConfig { account_exclude: r.account_exclude, ..self }),
            r.account_exclude@ == self.account_exclude@ + keys@,
    {
        let mut config = self;
        let mut added = keys;
        config.account_exclude.append(&mut added);
        config
    }

    /// Requires all of the keys, added to those before, to occur.
    pub fn with_account_required(self, keys: Vec<PubkeyBytes>) -> (r: Self)
        ensures
            r == (LaserStreamConfig { account_required: r.account_required, ..self }),
            r.account_required@ == self.account_required@ + keys@,
    {
        let mut config = self;
        let mut added = keys;
        config.account_required.append(&mut added);
        config
    }

    /// Adds account keys to an account stream.
    pub fn with_accounts(self, keys: Vec<PubkeyBytes>) -> (r: Self)
        ensures
            r == (LaserStreamConfig { accounts: r.accounts, ..self }),
            r.accounts@ == self.accounts@ + keys@,
    {
        let mut config = self;
        let mut added = keys;
        config.accounts.append(&mut added);
        config
    }

    /// Adds owners to an account stream.
    pub fn with_owners(self, keys: Vec<PubkeyBytes>) -> (r: Self)
        ensures
            r == (LaserStreamConfig { owners: r.owners, ..self }),
            r.owners@ == self.owners@ + keys@,
    {
        let mut config = self;
        let mut added = keys;
        config.owners.append(&mut added);
        config
    }

    /// Requires account updates to carry a transaction signature.
    pub fn require_transaction_signature(self) -> (r: Self)
        ensures
            r == (LaserStreamConfig { require_txn_signature: true, ..self }),
    {
        let mut config = self;
        config.require_txn_signature = true;
        config
    }

    /// Sets the time to connect.
    pub fn with_connect_timeout(self, timeout: Duration) -> (r: Self)
        ensures
            r == (LaserStreamConfig { connect_timeout: Some(timeout), ..self }),
    {
        let mut config = self;
        config.connect_timeout = Some(timeout);
        config
    }

    /// Sets the time for a request.
    pub fn with_timeout(self, timeout: Duration) -> (r: Self)
        ensures
            r == (LaserStreamConfig { timeout: Some(timeout), ..self }),
    {
        let mut config = self;
        config.timeout = Some(timeout);
        config
    }

    /// Sets the time without progress after which a session counts as stalled.
    pub fn with_stall_timeout(self, timeout: Duration) -> (r: Self)
        ensures
            r == (LaserStreamConfig { stall_timeout: Some(timeout), ..self }),
    {
        let mut config = self;
        config.stall_timeout = Some(timeout);
        config
    }

    /// Bounds messages received.
    pub fn with_max_decoding_message_size(self, bytes: usize) -> (r: Self)
        ensures
            r == (LaserStreamConfig { max_decoding_message_size: Some(bytes), ..self }),
    {
        let mut config = self;
        config.max_decoding_message_size = Some(bytes);
        config
    }

    /// Bounds messages sent.
    pub fn with_max_encoding_message_size(self, bytes: usize) -> (r: Self)
        ensures
            r == (LaserStreamConfig { max_encoding_message_size: Some(bytes), ..self }),
    {
        let mut config = self;
        config.max_encoding_message_size = Some(bytes);
        config
    }

    /// Sets the failures in a row after which the source gives up.
    pub fn with_max_reconnect_attempts(self, attempts: u32) -> (r: Self)
        ensures
            r == (LaserStreamConfig { max_reconnect_attempts: Some(attempts), ..self }),
    {
        let mut config = self;
        config.max_reconnect_attempts = Some(attempts);
        config
    }

    /// Sets the pause before a reconnect.
    pub fn with_reconnect_delay(self, delay: Duration) -> (r: Self)
        ensures
            r == (LaserStreamConfig { reconnect_delay: delay, ..self }),
    {
        let mut config = self;
        config.reconnect_delay = delay;
        config
    }

    /// Sets the replay.
    pub fn with_replay_mode(self, mode: ProviderReplayMode) -> (r: Self)
        ensures
            r == (LaserStreamConfig { replay_mode: mode, ..self }),
    {
        let mut config = self;
        config.replay_mode = mode;
        config
    }

    /// The settings that the client is handed.
    pub fn client_config(&self) -> (r: LaserStreamClientConfig)
        ensures
            configures_client(
                r,
                self.endpoint@,
                self.api_key@,
                LaserStreamChannelOptions {
                    connect_timeout_secs: timeout_secs(self.connect_timeout),
                    timeout_secs: timeout_secs(self.timeout),
                    max_decoding_message_size: self.max_decoding_message_size,
                    max_encoding_message_size: self.max_encoding_message_size,
                },
                self.replay_mode,
                self.max_reconnect_attempts,
            ),
    {
        LaserStreamClientConfig {
            endpoint: self.endpoint.clone(),
            api_key: self.api_key.clone(),
            channel: LaserStreamChannelOptions {
                connect_timeout_secs: whole_secs(self.connect_timeout),
                timeout_secs: whole_secs(self.timeout),
                max_decoding_message_size: self.max_decoding_message_size,
                max_encoding_message_size: self.max_encoding_message_size,
            },
            replay: match self.replay_mode {
                ProviderReplayMode::Live => false,
                _ => true,
            },
            max_reconnect_attempts: self.max_reconnect_attempts,
        }
    }

    /// The slot to subscribe from after `tracked_slot`.
    pub fn replay_from_slot(&self, tracked_slot: u64) -> (r: Option<u64>)
        ensures
            r == replay_start(self.replay_mode, tracked_slot, 0),
    {
        replay_start_slot(self.replay_mode, tracked_slot, 0)
    }

    /// The filter of a transaction or transaction-status stream.
    pub fn transaction_filter(&self) -> (r: GrpcTransactionFilter)
        ensures
            self.asks_for_transactions(r),
    {
        transaction_filter(
            self.vote,
            self.failed,
            self.signature,
            &self.account_include,
            &self.account_exclude,
            &self.account_required,
        )
    }

    /// The filter of an account stream.
    pub fn account_filter(&self) -> (r: GrpcAccountFilter)
        ensures
            filters_accounts(r, self.accounts@, self.owners@, self.require_txn_signature),
    {
        account_filter(&self.accounts, &self.owners, self.require_txn_signature)
    }

    /// Whether `filter` is this config's transaction filter.
    pub open spec fn asks_for_transactions(self, filter: GrpcTransactionFilter) -> bool {
        filters_transactions(
            filter,
            self.vote,
            self.failed,
            self.signature,
            self.account_include@,
            self.account_exclude@,
            self.account_required@,
        )
    }

    /// Whether `request` subscribes to what this config selects, after `tracked_slot`.
    pub open spec fn requests(self, request: GrpcSubscribeRequest, tracked_slot: u64) -> bool {
        &&& request.asks_for_slots(INTERNAL_WATERMARK_SLOT_FILTER@)
        &&& request.ping is None
        &&& request.commitment == Some(self.commitment.code())
        &&& request.from_slot == replay_start(self.replay_mode, tracked_slot, 0)
        &&& if self.stream == LaserStreamStream::Transaction {
            request.transactions matches Some(entry) && entry.0@ == SOURCE_FILTER@
                && self.asks_for_transactions(entry.1)
        } else {
            request.transactions is None
        }
        &&& if self.stream == LaserStreamStream::TransactionStatus {
            request.transactions_status matches Some(entry) && entry.0@ == SOURCE_FILTER@
                && self.asks_for_transactions(entry.1)
        } else {
            request.transactions_status is None
        }
        &&& if self.stream == LaserStreamStream::Accounts {
            request.accounts matches Some(entry) && entry.0@ == SOURCE_FILTER@ && filters_accounts(
                entry.1,
                self.accounts@,
                self.owners@,
                self.require_txn_signature,
            )
        } else {
            request.accounts is None
        }
        &&& if self.stream == LaserStreamStream::BlockMeta {
            request.blocks_meta matches Some(name) && name@ == SOURCE_FILTER@
        } else {
            request.blocks_meta is None
        }
    }

    /// The request of a source that has seen no slot.
    pub fn subscribe_request(&self) -> (r: GrpcSubscribeRequest)
        ensures
            self.requests(r, 0),
    {
        self.subscribe_request_with_state(0)
    }

    /// The request of a source that has seen `tracked_slot`.
    pub fn subscribe_request_with_state(&self, tracked_slot: u64) -> (r: GrpcSubscribeRequest)
        ensures
            self.requests(r, tracked_slot),
    {
        let mut request = GrpcSubscribeRequest {
            slots: Some(slots_by_commitment(INTERNAL_WATERMARK_SLOT_FILTER)),
            transactions: None,
            transactions_status: None,
            accounts: None,
            blocks_meta: None,
            commitment: Some(self.commitment.as_code()),
            from_slot: self.replay_from_slot(tracked_slot),
            ping: None,
        };
        match self.stream {
            LaserStreamStream::Transaction => {
                request.transactions = Some((SOURCE_FILTER.to_owned(), self.transaction_filter()));
            },
            LaserStreamStream::TransactionStatus => {
                request.transactions_status = Some((SOURCE_FILTER.to_owned(), self.transaction_filter()));
            },
            LaserStreamStream::Accounts => {
                request.accounts = Some((SOURCE_FILTER.to_owned(), self.account_filter()));
            },
            LaserStreamStream::BlockMeta => {
                request.blocks_meta = Some(SOURCE_FILTER.to_owned());
            },
        }
        request
    }

    /// The runtime mode of the selected stream.
    pub fn runtime_mode(&self) -> (r: ProviderStreamMode)
        ensures
            r == self.stream.mode_of_stream(),
    {
        self.stream.mode()
    }

    /// The identity to reserve: none without an instance label.
    pub fn source_identity(&self) -> (r: Option<ProviderSourceIdentity>)
        ensures
            match r {
                Some(identity) => self.source.instance matches Some(own) && self.source.describes(
                    self.stream.source_of_stream(),
                    own@,
                    identity,
                ),
                None => self.source.instance is None,
            },
    {
        self.source.source_identity(self.stream.source_id())
    }

    /// The identity under which the source runs: its label, or one made with `sequence`.
    pub fn resolved_source_identity(&self, sequence: u64) -> (r: ProviderSourceIdentity)
        ensures
            match self.source.instance {
                Some(own) => self.source.describes(self.stream.source_of_stream(), own@, r),
                None => self.source.describes(
                    self.stream.source_of_stream(),
                    self.stream.source_of_stream().label() + "-"@ + decimal_text(sequence as nat),
                    r,
                ),
            },
    {
        self.source.resolved_source_identity(self.stream.source_id(), sequence)
    }

    /// The texts that a source of this config reports with. It is not announced before its first
    /// session.
    pub fn messages(&self) -> (r: SourceMessages)
        ensures
            r.waiting@ == Seq::<char>::empty(),
            r.ended@ == "laserstream "@ + self.stream.kind_of_stream().label()@ + " stream ended unexpectedly"@,
            r.exhausted@ == "exhausted laserstream reconnect attempts after "@,
    {
        SourceMessages {
            waiting: String::new(),
            ended: joined3("laserstream ", self.stream.kind().as_str(), " stream ended unexpectedly"),
            exhausted: "exhausted laserstream reconnect attempts after ".to_owned(),
        }
    }
}

/// Config of a LaserStream slot source.
#[derive(Clone, Debug)]
pub struct LaserStreamSlotsConfig {
    /// Endpoint.
    pub endpoint: String,
    /// Access key.
    pub api_key: String,
    /// Source policy.
    pub source: SourceSettings,
    /// Commitment.
    pub commitment: LaserStreamCommitment,
    /// Time to connect.
    pub connect_timeout: Option<Duration>,
    /// Time for a request.
    pub timeout: Option<Duration>,
    /// Time without progress after which a session counts as stalled.
    pub stall_timeout: Option<Duration>,
    /// Bound on messages received.
    pub max_decoding_message_size: Option<usize>,
    /// Bound on messages sent.
    pub max_encoding_message_size: Option<usize>,
    /// Pause before a reconnect.
    pub reconnect_delay: Duration,
    /// Failures in a row after which the source gives up.
    pub max_reconnect_attempts: Option<u32>,
    /// Replay.
    pub replay_mode: ProviderReplayMode,
}

impl LaserStreamSlotsConfig {
    /// Creates a config of an optional, secondary slot source.
    pub fn new(endpoint: &str, api_key: &str) -> (r: Self)
        ensures
            r.endpoint@ == endpoint@,
            r.api_key@ == api_key@,
            r.source == SourceSettings::in_role(ProviderSourceReadiness::Optional, ProviderSourceRole::Secondary),
            r.commitment == LaserStreamCommitment::Processed,
            is_secs(r.connect_timeout, 10),
            is_secs(r.timeout, 30),
            is_secs(r.stall_timeout, 30),
            r.max_decoding_message_size == Some(DEFAULT_MAX_DECODING_MESSAGE_SIZE),
            r.max_encoding_message_size is None,
            r.reconnect_delay.nanos() == 1_000_000_000,
            r.max_reconnect_attempts is None,
            r.replay_mode == ProviderReplayMode::Resume,
    {
        LaserStreamSlotsConfig {
            endpoint: endpoint.to_owned(),
            api_key: api_key.to_owned(),
            source: SourceSettings::new(ProviderSourceReadiness::Optional, ProviderSourceRole::Secondary),
            commitment: LaserStreamCommitment::Processed,
            connect_timeout: Some(Duration::from_secs(10)),
            timeout: Some(Duration::from_secs(30)),
            stall_timeout: Some(Duration::from_secs(30)),
            max_decoding_message_size: Some(DEFAULT_MAX_DECODING_MESSAGE_SIZE),
            max_encoding_message_size: None,
            reconnect_delay: Duration::from_secs(1),
            max_reconnect_attempts: None,
            replay_mode: ProviderReplayMode::Resume,
        }
    }

    /// Returns the endpoint.
    pub fn endpoint(&self) -> (r: &str)
        ensures
            r@ == self.endpoint@,
    {
        self.endpoint.as_str()
    }

    /// Sets the instance label.
    pub fn with_source_instance(self, instance: &str) -> (r: Self)
        ensures
            r == (LaserStreamSlotsConfig { source: SourceSettings { instance: r.source.instance, ..self.source }, ..self }),
            r.source.instance matches Some(label) && label@ == instance@,
    {
        let mut config = self;
        config.source.instance = Some(shared_text(instance));
        config
    }

    /// Sets whether the source takes part in readiness.
    pub fn with_readiness(self, readiness: ProviderSourceReadiness) -> (r: Self)
        ensures
            r == (LaserStreamSlotsConfig { source: SourceSettings { readiness, ..self.source }, ..self }),
    {
        let mut config = self;
        config.source.readiness = readiness;
        config
    }

    /// Sets the role, and the priority to that role's default.
    pub fn with_source_role(self, role: ProviderSourceRole) -> (r: Self)
        ensures
            r == (LaserStreamSlotsConfig {
                source: SourceSettings { role, priority: role.priority(), ..self.source },
                ..self
            }),
    {
        let mut config = self;
        config.source.role = role;
        config.source.priority = role.default_priority();
        config
    }

    /// Sets the arbitration priority.
    pub fn with_source_priority(self, priority: u16) -> (r: Self)
        ensures
            r == (LaserStreamSlotsConfig { source: SourceSettings { priority, ..self.source }, ..self }),
    {
        let mut config = self;
        config.source.priority = priority;
        config
    }

    /// Sets the treatment of duplicates.
    pub fn with_source_arbitration(self, arbitration: ProviderSourceArbitrationMode) -> (r: Self)
        ensures
            r == (LaserStreamSlotsConfig { source: SourceSettings { arbitration, ..self.source }, ..self }),
    {
        let mut config = self;
        config.source.arbitration = arbitration;
        config
    }

    /// Chooses the commitment.
    pub fn with_commitment(self, commitment: LaserStreamCommitment) -> (r: Self)
        ensures
            r == (LaserStreamSlotsConfig { commitment, ..self }),
    {
        let mut config = self;
        config.commitment = commitment;
        config
    }

    /// Sets the time to connect.
    pub fn with_connect_timeout(self, timeout: Duration) -> (r: Self)
        ensures
            r == (LaserStreamSlotsConfig { connect_timeout: Some(timeout), ..self }),
    {
        let mut config = self;
        config.connect_timeout = Some(timeout);
        config
    }

    /// Sets the time for a request.
    pub fn with_timeout(self, timeout: Duration) -> (r: Self)
        ensures
            r == (LaserStreamSlotsConfig { timeout: Some(timeout), ..self }),
    {
        let mut config = self;
        config.timeout = Some(timeout);
        config
    }

    /// Sets the time without progress after which a session counts as stalled.
    pub fn with_stall_timeout(self, timeout: Duration) -> (r: Self)
        ensures
            r == (LaserStreamSlotsConfig { stall_timeout: Some(timeout), ..self }),
    {
        let mut config = self;
        config.stall_timeout = Some(timeout);
        config
    }

    /// Bounds messages received.
    pub fn with_max_decoding_message_size(self, bytes: usize) -> (r: Self)
        ensures
            r == (LaserStreamSlotsConfig { max_decoding_message_size: Some(bytes), ..self }),
    {
        let mut config = self;
        config.max_decoding_message_size = Some(bytes);
        config
    }

    /// Bounds messages sent.
    pub fn with_max_encoding_message_size(self, bytes: usize) -> (r: Self)
        ensures
            r == (LaserStreamSlotsConfig { max_encoding_message_size: Some(bytes), ..self }),
    {
        let mut config = self;
        config.max_encoding_message_size = Some(bytes);
        config
    }

    /// Sets the failures in a row after which the source gives up.
    pub fn with_max_reconnect_attempts(self, attempts: u32) -> (r: Self)
        ensures
            r == (LaserStreamSlotsConfig { max_reconnect_attempts: Some(attempts), ..self }),
    {
        let mut config = self;
        config.max_reconnect_attempts = Some(attempts);
        config
    }

    /// Sets the pause before a reconnect.
    pub fn with_reconnect_delay(self, delay: Duration) -> (r: Self)
        ensures
            r == (LaserStreamSlotsConfig { reconnect_delay: delay, ..self }),
    {
        let mut config = self;
        config.reconnect_delay = delay;
        config
    }

    /// Sets the replay.
    pub fn with_replay_mode(self, mode: ProviderReplayMode) -> (r: Self)
        ensures
            r == (LaserStreamSlotsConfig { replay_mode: mode, ..self }),
    {
        let mut config = self;
        config.replay_mode = mode;
        config
    }

    /// The settings that the client is handed.
    pub fn client_config(&self) -> (r: LaserStreamClientConfig)
        ensures
            configures_client(
                r,
                self.endpoint@,
                self.api_key@,
                LaserStreamChannelOptions {
                    connect_timeout_secs: timeout_secs(self.connect_timeout),
                    timeout_secs: timeout_secs(self.timeout),
                    max_decoding_message_size: self.max_decoding_message_size,
                    max_encoding_message_size: self.max_encoding_message_size,
                },
                self.replay_mode,
                self.max_reconnect_attempts,
            ),
    {
        LaserStreamClientConfig {
            endpoint: self.endpoint.clone(),
            api_key: self.api_key.clone(),
            channel: LaserStreamChannelOptions {
                connect_timeout_secs: whole_secs(self.connect_timeout),
                timeout_secs: whole_secs(self.timeout),
                max_decoding_message_size: self.max_decoding_message_size,
                max_encoding_message_size: self.max_encoding_message_size,
            },
            replay: match self.replay_mode {
                ProviderReplayMode::Live => false,
                _ => true,
            },
            max_reconnect_attempts: self.max_reconnect_attempts,
        }
    }

    /// The slot to subscribe from after `tracked_slot`.
    pub fn replay_from_slot(&self, tracked_slot: u64) -> (r: Option<u64>)
        ensures
            r == replay_start(self.replay_mode, tracked_slot, 0),
    {
        replay_start_slot(self.replay_mode, tracked_slot, 0)
    }

    /// The runtime mode of a slot source.
    pub fn runtime_mode(&self) -> (r: ProviderStreamMode)
        ensures
            r == ProviderStreamMode::LaserStreamSlots,
    {
        ProviderStreamMode::LaserStreamSlots
    }

    /// The identity to reserve: none without an instance label.
    pub fn source_identity(&self) -> (r: Option<ProviderSourceIdentity>)
        ensures
            match r {
                Some(identity) => self.source.instance matches Some(own) && self.source.describes(
                    ProviderSourceId::LaserStreamSlots,
                    own@,
                    identity,
                ),
                None => self.source.instance is None,
            },
    {
        self.source.source_identity(ProviderSourceId::LaserStreamSlots)
    }

    /// The identity under which the source runs: its label, or one made with `sequence`.
    pub fn resolved_source_identity(&self, sequence: u64) -> (r: ProviderSourceIdentity)
        ensures
            match self.source.instance {
                Some(own) => self.source.describes(ProviderSourceId::LaserStreamSlots, own@, r),
                None => self.source.describes(
                    ProviderSourceId::LaserStreamSlots,
                    ProviderSourceId::LaserStreamSlots.label() + "-"@ + decimal_text(sequence as nat),
                    r,
                ),
            },
    {
        self.source.resolved_source_identity(ProviderSourceId::LaserStreamSlots, sequence)
    }

    /// The request of a source that has seen `tracked_slot`.
    pub fn subscribe_request_with_state(&self, tracked_slot: u64) -> (r: GrpcSubscribeRequest)
        ensures
            r.asks_for_slots(SOURCE_FILTER@),
            r.ping is None,
            r.transactions is None,
            r.transactions_status is None,
            r.accounts is None,
            r.blocks_meta is None,
            r.commitment == Some(self.commitment.code()),
            r.from_slot == replay_start(self.replay_mode, tracked_slot, 0),
    {
        GrpcSubscribeRequest {
            slots: Some(slots_by_commitment(SOURCE_FILTER)),
            transactions: None,
            transactions_status: None,
            accounts: None,
            blocks_meta: None,
            commitment: Some(self.commitment.as_code()),
            from_slot: self.replay_from_slot(tracked_slot),
            ping: None,
        }
    }

    /// The texts that a slot source reports with. It is not announced before its first session.
    pub fn messages(&self) -> (r: SourceMessages)
        ensures
            r.waiting@ == Seq::<char>::empty(),
            r.ended@ == "laserstream slot stream ended unexpectedly"@,
            r.exhausted@ == "exhausted laserstream slot reconnect attempts after "@,
    {
        SourceMessages {
            waiting: String::new(),
            ended: "laserstream slot stream ended unexpectedly".to_owned(),
            exhausted: "exhausted laserstream slot reconnect attempts after ".to_owned(),
        }
    }
}

/// A failure of the stream protocol. Errors of the client and of the transport come as text.
#[derive(Debug)]
pub enum LaserStreamProtocolError {
    /// A primary stream made no progress.
    StreamStalled {
        /// The stream.
        stream: LaserStreamStreamKind,
    },
    /// The slot stream made no progress.
    SlotStreamStalled,
    /// The access key cannot be sent.
    InvalidApiKey(String),
    /// The endpoint cannot be parsed.
    InvalidEndpoint(String),
    /// TLS cannot be set up.
    TlsConfig(String),
    /// No connection.
    ConnectionFailed(String),
    /// The first request cannot be sent.
    InitialSubscribeSend(String),
    /// The subscription was refused.
    SubscriptionFailed(String),
    /// The stream ended with a status.
    StreamStatus(String),
    /// No reconnect attempts are left.
    ReconnectBudgetExhausted {
        /// Failures in a row.
        attempts: u32,
    },
}

impl LaserStreamProtocolError {
    /// The text of the error.
    pub open spec fn text(self) -> Seq<char> {
        match self {
            LaserStreamProtocolError::StreamStalled { stream } => "laserstream "@ + stream.label()@
                + " stream stalled without inbound progress"@,
            LaserStreamProtocolError::SlotStreamStalled => {
                "laserstream slot stream stalled without inbound progress"@
            },
            LaserStreamProtocolError::InvalidApiKey(text) => "invalid api key metadata: "@ + text@,
            LaserStreamProtocolError::InvalidEndpoint(text) => "failed to parse endpoint: "@ + text@,
            LaserStreamProtocolError::TlsConfig(text) => "tls config error: "@ + text@,
            LaserStreamProtocolError::ConnectionFailed(text) => "connection failed: "@ + text@,
            LaserStreamProtocolError::InitialSubscribeSend(text) => {
                "failed to send initial subscription request: "@ + text@
            },
            LaserStreamProtocolError::SubscriptionFailed(text) => "subscription failed: "@ + text@,
            LaserStreamProtocolError::StreamStatus(text) => "laserstream stream status: "@ + text@,
            LaserStreamProtocolError::ReconnectBudgetExhausted { attempts } => {
                "exhausted laserstream reconnect attempts after "@ + decimal_text(attempts as nat) + " failures"@
            },
        }
    }

    /// Writes the error for a human reader.
    pub fn to_text(&self) -> (r: String)
        ensures
            r@ == self.text(),
    {
        match self {
            LaserStreamProtocolError::StreamStalled { stream } => joined3(
                "laserstream ",
                stream.as_str(),
                " stream stalled without inbound progress",
            ),
            LaserStreamProtocolError::SlotStreamStalled => {
                "laserstream slot stream stalled without inbound progress".to_owned()
            },
            LaserStreamProtocolError::InvalidApiKey(text) => joined("invalid api key metadata: ", text.as_str()),
            LaserStreamProtocolError::InvalidEndpoint(text) => joined("failed to parse endpoint: ", text.as_str()),
            LaserStreamProtocolError::TlsConfig(text) => joined("tls config error: ", text.as_str()),
            LaserStreamProtocolError::ConnectionFailed(text) => joined("connection failed: ", text.as_str()),
            LaserStreamProtocolError::InitialSubscribeSend(text) => joined(
                "failed to send initial subscription request: ",
                text.as_str(),
            ),
            LaserStreamProtocolError::SubscriptionFailed(text) => joined("subscription failed: ", text.as_str()),
            LaserStreamProtocolError::StreamStatus(text) => joined("laserstream stream status: ", text.as_str()),
            LaserStreamProtocolError::ReconnectBudgetExhausted { attempts } => {
                let number = decimal(*attempts as u64);
                joined3("exhausted laserstream reconnect attempts after ", number.as_str(), " failures")
            },
        }
    }
}

/// An error of a LaserStream source.
#[derive(Debug)]
pub enum LaserStreamError {
    /// The client failed, with its error as text.
    Client(String),
    /// An update could not be converted.
    Convert(&'static str),
    /// The stream protocol failed.
    Protocol(LaserStreamProtocolError),
    /// Nobody receives updates any more.
    QueueClosed,
}

impl LaserStreamError {
    /// The text of the error.
    pub open spec fn text(self) -> Seq<char> {
        match self {
            LaserStreamError::Client(text) => text@,
            LaserStreamError::Convert(what) => "laserstream transaction conversion failed: "@ + what@,
            LaserStreamError::Protocol(error) => error.text(),
            LaserStreamError::QueueClosed => "provider-stream queue closed"@,
        }
    }

    /// Writes the error for a human reader.
    pub fn to_text(&self) -> (r: String)
        ensures
            r@ == self.text(),
    {
        match self {
            LaserStreamError::Client(text) => text.clone(),
            LaserStreamError::Convert(what) => joined("laserstream transaction conversion failed: ", what),
            LaserStreamError::Protocol(error) => error.to_text(),
            LaserStreamError::QueueClosed => "provider-stream queue closed".to_owned(),
        }
    }

    /// The reason under which the error is reported.
    pub open spec fn health_reason(self) -> ProviderSourceHealthReason {
        match self {
            LaserStreamError::Client(_) => ProviderSourceHealthReason::UpstreamTransportFailure,
            _ => ProviderSourceHealthReason::UpstreamProtocolFailure,
        }
    }
}

/// The reason under which an error is reported: a transport failure where the client failed, a
/// protocol failure otherwise.
pub fn laserstream_health_reason(error: &LaserStreamError) -> (r: ProviderSourceHealthReason)
    ensures
        r == error.health_reason(),
{
    match error {
        LaserStreamError::Client(_) => ProviderSourceHealthReason::UpstreamTransportFailure,
        _ => ProviderSourceHealthReason::UpstreamProtocolFailure,
    }
}

/// The token that requests carry: the access key, none where it is empty.
pub fn access_token(api_key: &str) -> (r: Option<&str>)
    ensures
        match r {
            Some(token) => token@ == api_key@ && api_key@.len() > 0,
            None => api_key@.len() == 0,
        },
{
    if api_key.is_empty() {
        None
    } else {
        Some(api_key)
    }
}

/// What is wrong with a wire message.
pub open spec fn message_error(message: GrpcMessage) -> Option<&'static str> {
    first_error(
        header_error(message.header),
        first_error(
            blockhash_error(message.recent_blockhash@),
            first_error(
                keys_error(message.account_keys@),
                first_error(
                    instructions_error(message.instructions@),
                    lookups_error(message.versioned, message.address_table_lookups@),
                ),
            ),
        ),
    )
}

/// What is wrong with a wire transaction.
pub open spec fn transaction_error(tx: GrpcTransaction) -> Option<&'static str> {
    first_error(
        signatures_error(tx.signatures@, None),
        match tx.message {
            None => Some("missing transaction message"),
            Some(message) => message_error(message),
        },
    )
}

/// What is wrong with a transaction update.
pub open spec fn transaction_update_error(info: Option<GrpcTransactionInfo>) -> Option<&'static str> {
    match info {
        None => Some("missing transaction payload"),
        Some(info) => if info.signature@.len() != 64 {
            Some("invalid signature")
        } else {
            match info.transaction {
                None => Some("missing versioned transaction"),
                Some(tx) => transaction_error(tx),
            }
        },
    }
}

fn convert_message(message: &GrpcMessage) -> (r: Result<VersionedMessage, &'static str>)
    ensures
        match r {
            Ok(read) => message_error(*message) is None && read@ == message_view(*message),
            Err(error) => message_error(*message) == Some(error),
        },
{
    let header = match convert_header(message.header) {
        Ok(header) => header,
        Err(error) => {
            return Err(error);
        },
    };
    let recent_blockhash = match convert_blockhash(&message.recent_blockhash) {
        Ok(hash) => hash,
        Err(error) => {
            return Err(error);
        },
    };
    let account_keys = match convert_keys(&message.account_keys) {
        Ok(keys) => keys,
        Err(error) => {
            return Err(error);
        },
    };
    let instructions = match convert_instructions(&message.instructions) {
        Ok(instructions) => instructions,
        Err(error) => {
            return Err(error);
        },
    };
    match convert_lookups(message.versioned, &message.address_table_lookups) {
        Ok(address_table_lookups) => Ok(
            VersionedMessage { header, account_keys, recent_blockhash, instructions, address_table_lookups },
        ),
        Err(error) => Err(error),
    }
}

/// Converts a wire transaction.
pub fn convert_transaction(tx: &GrpcTransaction) -> (r: Result<VersionedTransaction, &'static str>)
    ensures
        match r {
            Ok(read) => {
                &&& transaction_error(*tx) is None
                &&& read@ == (TransactionView {
                    signatures: signatures_view(tx.signatures@, None),
                    message: message_view(tx.message->0),
                })
            },
            Err(error) => transaction_error(*tx) == Some(error),
        },
{
    let signatures = match convert_signatures(&tx.signatures, None) {
        Ok(signatures) => signatures,
        Err(error) => {
            return Err(error);
        },
    };
    match &tx.message {
        None => Err("missing transaction message"),
        Some(message) => match convert_message(message) {
            Ok(message) => Ok(VersionedTransaction { signatures, message }),
            Err(error) => Err(error),
        },
    }
}

/// Makes the event of a transaction update.
pub fn transaction_event_from_update(
    slot: u64,
    transaction: Option<GrpcTransactionInfo>,
    commitment_status: TxCommitmentStatus,
    watermarks: ProviderCommitmentWatermarks,
) -> (r: Result<TransactionEvent, &'static str>)
    ensures
        match r {
            Ok(event) => {
                &&& transaction_update_error(transaction) is None
                &&& tells_transaction(
                    event,
                    slot,
                    transaction->0,
                    signatures_view(transaction->0.transaction->0.signatures@, None),
                    commitment_status,
                    watermarks,
                    None,
                )
            },
            Err(error) => transaction_update_error(transaction) == Some(error),
        },
{
    let info = match transaction {
        None => {
            return Err("missing transaction payload");
        },
        Some(info) => info,
    };
    let signature = match signature_bytes_from_slice(info.signature.as_slice()) {
        None => {
            return Err("invalid signature");
        },
        Some(signature) => signature,
    };
    match &info.transaction {
        None => Err("missing versioned transaction"),
        Some(tx) => match convert_transaction(tx) {
            Ok(tx) => Ok(transaction_event(slot, info.is_vote, signature, tx, commitment_status, watermarks)),
            Err(error) => Err(error),
        },
    }
}

/// Makes the event of an account update.
pub fn account_update_event_from_laserstream(
    update: GrpcAccountUpdate,
    commitment_status: TxCommitmentStatus,
    watermarks: ProviderCommitmentWatermarks,
) -> (r: Result<AccountUpdateEvent, &'static str>)
    ensures
        match r {
            Ok(event) => account_error(update, None) is None && tells_account(
                event,
                update,
                commitment_status,
                watermarks,
                None,
            ),
            Err(error) => account_error(update, None) == Some(error),
        },
{
    account_update_event(update, commitment_status, watermarks, None)
}

/// Whether a list of filter names holds a name.
pub open spec fn names_filter(filters: Seq<String>, name: Seq<char>) -> bool {
    exists|i: int| 0 <= i < filters.len() && (#[trigger] filters[i])@ == name
}

fn has_filter(filters: &Vec<String>, name: &str) -> (r: bool)
    ensures
        r == names_filter(filters@, name@),
{
    let mut i: usize = 0;
    while i < filters.len()
        invariant
            i <= filters@.len(),
            forall|j: int| 0 <= j < i ==> (#[trigger] filters@[j])@ != name@,
        decreases filters@.len() - i,
    {
        if same_text(filters[i].as_str(), name) {
            assert(filters@[i as int]@ == name@);
            return true;
        }
        i += 1;
    }
    false
}

/// What happened to a session.
#[derive(Debug)]
pub enum LaserStreamSessionEvent {
    /// The stall deadline passed.
    StallDeadlinePassed,
    /// The stream ended.
    StreamEnded,
    /// The stream ended with a status, given as text.
    StreamFailed(String),
    /// An update arrived.
    Update {
        /// The update.
        update: GrpcUpdate,
        /// Names of the filters that it matched.
        filters: Vec<String>,
        /// When it arrived.
        at: Instant,
    },
}

/// What a session does next.
#[derive(Debug)]
pub enum LaserStreamSessionAction {
    /// Wait for the next event.
    Continue,
    /// Put an update into the queue.
    Emit(ProviderStreamUpdate),
    /// End without an error.
    End,
    /// End with an error.
    Fail(LaserStreamError),
}

/// What a primary source knows across its sessions.
#[derive(Clone, Copy, Debug)]
pub struct LaserStreamPrimaryState {
    /// Highest slot seen.
    pub tracked_slot: u64,
    /// Commitment watermarks.
    pub watermarks: ProviderCommitmentWatermarks,
    /// Whether the running session is established.
    pub session_established: bool,
    /// When the running session last made progress.
    pub last_progress: Instant,
}

impl LaserStreamPrimaryState {
    /// The state of a source that has seen nothing.
    pub fn new(now: Instant) -> (r: Self)
        ensures
            r.tracked_slot == 0,
            r.watermarks == (ProviderCommitmentWatermarks { confirmed_slot: None, finalized_slot: None }),
            !r.session_established,
            r.last_progress == now,
    {
        LaserStreamPrimaryState {
            tracked_slot: 0,
            watermarks: ProviderCommitmentWatermarks { confirmed_slot: None, finalized_slot: None },
            session_established: false,
            last_progress: now,
        }
    }

    /// Starts a session on an acknowledged subscription, and says how it is reported.
    pub fn begin_session(
        &mut self,
        config: &LaserStreamConfig,
        source: &ProviderSourceIdentity,
        now: Instant,
    ) -> (r: ProviderSourceHealthEvent)
        ensures
            *final(self) == (LaserStreamPrimaryState {
                session_established: true,
                last_progress: now,
                ..*old(self)
            }),
            r.tells(
                *source,
                config.source.readiness,
                ProviderSourceHealthStatus::Healthy,
                ProviderSourceHealthReason::SubscriptionAckReceived,
                PROVIDER_SUBSCRIPTION_ACKNOWLEDGED@,
            ),
    {
        self.session_established = true;
        self.last_progress = now;
        ProviderSourceHealthEvent::about(
            source,
            config.source.readiness,
            ProviderSourceHealthStatus::Healthy,
            ProviderSourceHealthReason::SubscriptionAckReceived,
            PROVIDER_SUBSCRIPTION_ACKNOWLEDGED.to_owned(),
        )
    }

    /// When the running session counts as stalled.
    pub fn stall_deadline(&self, config: &LaserStreamConfig) -> (r: Option<Instant>)
        ensures
            stall_point(self.last_progress, config.stall_timeout, r),
    {
        stall_deadline(self.last_progress, config.stall_timeout)
    }

    /// The state after a slot was seen at the subscription's commitment.
    pub open spec fn saw(self, slot: u64, commitment: TxCommitmentStatus, at: Instant) -> Self {
        LaserStreamPrimaryState {
            tracked_slot: later_slot(self.tracked_slot, slot),
            watermarks: self.watermarks.observed(slot, commitment),
            last_progress: at,
            ..self
        }
    }

    /// Whether an update that arrived `at` leads to `next` and `action`.
    pub open spec fn takes_update(
        self,
        config: LaserStreamConfig,
        source: ProviderSourceRef,
        update: GrpcUpdate,
        filters: Seq<String>,
        at: Instant,
        next: Self,
        action: LaserStreamSessionAction,
    ) -> bool {
        let commitment = config.commitment.tx_commitment();
        match update {
            GrpcUpdate::Transaction { slot, transaction } if config.stream
                == LaserStreamStream::Transaction => {
                &&& next == self.saw(slot, commitment, at)
                &&& match transaction_update_error(transaction) {
                    Some(error) => action matches LaserStreamSessionAction::Fail(
                        LaserStreamError::Convert(what),
                    ) && what == error,
                    None => action matches LaserStreamSessionAction::Emit(
                        ProviderStreamUpdate::Transaction(event),
                    ) && tells_transaction(
                        event,
                        slot,
                        transaction->0,
                        signatures_view(transaction->0.transaction->0.signatures@, None),
                        commitment,
                        next.watermarks,
                        Some(source),
                    ),
                }
            },
            GrpcUpdate::TransactionStatus(status) if config.stream
                == LaserStreamStream::TransactionStatus => {
                &&& next == self.saw(status.slot, commitment, at)
                &&& match status_error(status) {
                    Some(error) => action matches LaserStreamSessionAction::Fail(
                        LaserStreamError::Convert(what),
                    ) && what == error,
                    None => action matches LaserStreamSessionAction::Emit(
                        ProviderStreamUpdate::TransactionStatus(event),
                    ) && tells_status(event, status, commitment, next.watermarks, Some(source)),
                }
            },
            GrpcUpdate::Account(account) if config.stream == LaserStreamStream::Accounts => {
                &&& next == self.saw(account.slot, commitment, at)
                &&& match account_error(account, None) {
                    Some(error) => action matches LaserStreamSessionAction::Fail(
                        LaserStreamError::Convert(what),
                    ) && what == error,
                    None => action matches LaserStreamSessionAction::Emit(
                        ProviderStreamUpdate::AccountUpdate(event),
                    ) && tells_account(event, account, commitment, next.watermarks, Some(source)),
                }
            },
            GrpcUpdate::BlockMeta(block) if config.stream == LaserStreamStream::BlockMeta => {
                let blockhash = spelled_hash(block.blockhash@);
                let parent_blockhash = spelled_hash(block.parent_blockhash@);
                &&& next == self.saw(block.slot, commitment, at)
                &&& match block_meta_error(blockhash, parent_blockhash) {
                    Some(error) => action matches LaserStreamSessionAction::Fail(
                        LaserStreamError::Convert(what),
                    ) && what == error,
                    None => action matches LaserStreamSessionAction::Emit(
                        ProviderStreamUpdate::BlockMeta(event),
                    ) && tells_block_meta(
                        event,
                        block,
                        blockhash,
                        parent_blockhash,
                        commitment,
                        next.watermarks,
                        Some(source),
                    ),
                }
            },
            GrpcUpdate::Slot(slot) => {
                &&& next == (LaserStreamPrimaryState {
                    tracked_slot: later_slot(self.tracked_slot, slot.slot),
                    watermarks: if names_filter(filters, INTERNAL_WATERMARK_SLOT_FILTER@) {
                        marks_after_status(self.watermarks, slot.slot, slot_status_of(slot.status))
                    } else {
                        self.watermarks
                    },
                    last_progress: at,
                    ..self
                })
                &&& action is Continue
            },
            _ => {
                &&& next == (LaserStreamPrimaryState { last_progress: at, ..self })
                &&& action is Continue
            },
        }
    }

    /// Whether an event leads to `next` and `action`.
    pub open spec fn step(
        self,
        config: LaserStreamConfig,
        source: ProviderSourceRef,
        event: LaserStreamSessionEvent,
        next: Self,
        action: LaserStreamSessionAction,
    ) -> bool {
        match event {
            LaserStreamSessionEvent::StallDeadlinePassed => {
                &&& next == self
                &&& action matches LaserStreamSessionAction::Fail(LaserStreamError::Protocol(error)) && error == (LaserStreamProtocolError::StreamStalled {
                    stream: config.stream.kind_of_stream(),
                })
            },
            LaserStreamSessionEvent::StreamEnded => next == self && action is End,
            LaserStreamSessionEvent::StreamFailed(text) => {
                &&& next == self
                &&& action matches LaserStreamSessionAction::Fail(LaserStreamError::Protocol(
                    LaserStreamProtocolError::StreamStatus(told),
                )) && told == text
            },
            LaserStreamSessionEvent::Update { update, filters, at } => self.takes_update(
                config,
                source,
                update,
                filters@,
                at,
                next,
                action,
            ),
        }
    }

    /// Says what a session does on an event.
    pub fn on_event(
        &mut self,
        config: &LaserStreamConfig,
        source: &ProviderSourceRef,
        event: LaserStreamSessionEvent,
    ) -> (r: LaserStreamSessionAction)
        ensures
            old(self).step(*config, *source, event, *final(self), r),
    {
        match event {
            LaserStreamSessionEvent::StallDeadlinePassed => LaserStreamSessionAction::Fail(
                LaserStreamError::Protocol(
                    LaserStreamProtocolError::StreamStalled { stream: config.stream.kind() },
                ),
            ),
            LaserStreamSessionEvent::StreamEnded => LaserStreamSessionAction::End,
            LaserStreamSessionEvent::StreamFailed(text) => LaserStreamSessionAction::Fail(
                LaserStreamError::Protocol(LaserStreamProtocolError::StreamStatus(text)),
            ),
            LaserStreamSessionEvent::Update { update, filters, at } => self.on_update(
                config,
                source,
                update,
                &filters,
                at,
            ),
        }
    }

    fn see(&mut self, slot: u64, commitment: TxCommitmentStatus)
        ensures
            *final(self) == old(self).saw(slot, commitment, old(self).last_progress),
    {
        if slot > self.tracked_slot {
            self.tracked_slot = slot;
        }
        self.watermarks.observe_transaction_commitment(slot, commitment);
    }

    fn on_update(
        &mut self,
        config: &LaserStreamConfig,
        source: &ProviderSourceRef,
        update: GrpcUpdate,
        filters: &Vec<String>,
        at: Instant,
    ) -> (r: LaserStreamSessionAction)
        ensures
            old(self).takes_update(*config, *source, update, filters@, at, *final(self), r),
    {
        let commitment = config.commitment.as_tx_commitment();
        self.last_progress = at;
        match update {
            GrpcUpdate::Transaction { slot, transaction } => {
                if config.stream == LaserStreamStream::Transaction {
                    self.see(slot, commitment);
                    match transaction_event_from_update(slot, transaction, commitment, self.watermarks) {
                        Ok(event) => LaserStreamSessionAction::Emit(
                            ProviderStreamUpdate::Transaction(event).with_provider_source_ref(source),
                        ),
                        Err(error) => LaserStreamSessionAction::Fail(LaserStreamError::Convert(error)),
                    }
                } else {
                    LaserStreamSessionAction::Continue
                }
            },
            GrpcUpdate::TransactionStatus(status) => {
                if config.stream == LaserStreamStream::TransactionStatus {
                    self.see(status.slot, commitment);
                    match transaction_status_event_from_update(commitment, self.watermarks, status) {
                        Ok(event) => LaserStreamSessionAction::Emit(
                            ProviderStreamUpdate::TransactionStatus(event).with_provider_source_ref(source),
                        ),
                        Err(error) => LaserStreamSessionAction::Fail(LaserStreamError::Convert(error)),
                    }
                } else {
                    LaserStreamSessionAction::Continue
                }
            },
            GrpcUpdate::Account(account) => {
                if config.stream == LaserStreamStream::Accounts {
                    self.see(account.slot, commitment);
                    match account_update_event_from_laserstream(account, commitment, self.watermarks) {
                        Ok(event) => LaserStreamSessionAction::Emit(
                            ProviderStreamUpdate::AccountUpdate(event).with_provider_source_ref(source),
                        ),
                        Err(error) => LaserStreamSessionAction::Fail(LaserStreamError::Convert(error)),
                    }
                } else {
                    LaserStreamSessionAction::Continue
                }
            },
            GrpcUpdate::BlockMeta(block) => {
                if config.stream == LaserStreamStream::BlockMeta {
                    self.see(block.slot, commitment);
                    match block_meta_event_from_update(commitment, self.watermarks, &block) {
                        Ok(event) => LaserStreamSessionAction::Emit(
                            ProviderStreamUpdate::BlockMeta(event).with_provider_source_ref(source),
                        ),
                        Err(error) => LaserStreamSessionAction::Fail(LaserStreamError::Convert(error)),
                    }
                } else {
                    LaserStreamSessionAction::Continue
                }
            },
            GrpcUpdate::Slot(slot) => {
                if slot.slot > self.tracked_slot {
                    self.tracked_slot = slot.slot;
                }
                if has_filter(filters, INTERNAL_WATERMARK_SLOT_FILTER) {
                    observe_slot_status(&mut self.watermarks, slot.slot, slot_status_from_code(slot.status));
                }
                LaserStreamSessionAction::Continue
            },
            GrpcUpdate::Ping => LaserStreamSessionAction::Continue,
            GrpcUpdate::Other => LaserStreamSessionAction::Continue,
        }
    }
}

/// What a slot source knows across its sessions.
#[derive(Debug)]
pub struct LaserStreamSlotState {
    /// Highest slot seen.
    pub tracked_slot: u64,
    /// Commitment watermarks.
    pub watermarks: ProviderCommitmentWatermarks,
    /// Last status of each slot.
    pub slot_states: HashMap<u64, ForkSlotStatus>,
    /// Whether the running session is established.
    pub session_established: bool,
    /// When the running session last made progress.
    pub last_progress: Instant,
}

impl LaserStreamSlotState {
    /// The state of a source that has seen nothing.
    pub fn new(now: Instant) -> (r: Self)
        ensures
            r.tracked_slot == 0,
            r.watermarks == (ProviderCommitmentWatermarks { confirmed_slot: None, finalized_slot: None }),
            r.slot_states@ == Map::<u64, ForkSlotStatus>::empty(),
            !r.session_established,
            r.last_progress == now,
    {
        LaserStreamSlotState {
            tracked_slot: 0,
            watermarks: ProviderCommitmentWatermarks { confirmed_slot: None, finalized_slot: None },
            slot_states: HashMap::new(),
            session_established: false,
            last_progress: now,
        }
    }

    /// Starts a session on an acknowledged subscription, and says how it is reported.
    pub fn begin_session(
        &mut self,
        config: &LaserStreamSlotsConfig,
        source: &ProviderSourceIdentity,
        now: Instant,
    ) -> (r: ProviderSourceHealthEvent)
        ensures
            *final(self) == (LaserStreamSlotState {
                session_established: true,
                last_progress: now,
                ..*old(self)
            }),
            r.tells(
                *source,
                config.source.readiness,
                ProviderSourceHealthStatus::Healthy,
                ProviderSourceHealthReason::SubscriptionAckReceived,
                PROVIDER_SUBSCRIPTION_ACKNOWLEDGED@,
            ),
    {
        self.session_established = true;
        self.last_progress = now;
        ProviderSourceHealthEvent::about(
            source,
            config.source.readiness,
            ProviderSourceHealthStatus::Healthy,
            ProviderSourceHealthReason::SubscriptionAckReceived,
            PROVIDER_SUBSCRIPTION_ACKNOWLEDGED.to_owned(),
        )
    }

    /// When the running session counts as stalled.
    pub fn stall_deadline(&self, config: &LaserStreamSlotsConfig) -> (r: Option<Instant>)
        ensures
            stall_point(self.last_progress, config.stall_timeout, r),
    {
        stall_deadline(self.last_progress, config.stall_timeout)
    }

    /// Whether two states differ in nothing but progress.
    pub open spec fn differs_in_progress(self, other: Self) -> bool {
        &&& self.tracked_slot == other.tracked_slot
        &&& self.watermarks == other.watermarks
        &&& self.slot_states@ == other.slot_states@
        &&& self.session_established == other.session_established
    }

    /// Whether an event leads to `next` and `action`.
    pub open spec fn step(
        self,
        source: ProviderSourceRef,
        event: LaserStreamSessionEvent,
        next: Self,
        action: LaserStreamSessionAction,
    ) -> bool {
        match event {
            LaserStreamSessionEvent::StallDeadlinePassed => {
                &&& next == self
                &&& action matches LaserStreamSessionAction::Fail(LaserStreamError::Protocol(error)) && error == LaserStreamProtocolError::SlotStreamStalled
            },
            LaserStreamSessionEvent::StreamEnded => next == self && action is End,
            LaserStreamSessionEvent::StreamFailed(text) => {
                &&& next == self
                &&& action matches LaserStreamSessionAction::Fail(LaserStreamError::Protocol(
                    LaserStreamProtocolError::StreamStatus(told),
                )) && told == text
            },
            LaserStreamSessionEvent::Update { update, filters: _, at } => {
                &&& next.last_progress == at
                &&& match update {
                    GrpcUpdate::Slot(slot) => self.takes_slot(source, slot, next, action),
                    _ => next.differs_in_progress(self) && action is Continue,
                }
            },
        }
    }

    /// Whether a slot's status leads to `next` and `action`.
    pub open spec fn takes_slot(
        self,
        source: ProviderSourceRef,
        slot: GrpcSlotUpdate,
        next: Self,
        action: LaserStreamSessionAction,
    ) -> bool {
        let status = slot_status_of(slot.status);
        &&& next.tracked_slot == later_slot(self.tracked_slot, slot.slot)
        &&& next.watermarks == marks_after_status(self.watermarks, slot.slot, status)
        &&& next.slot_states@ == states_after(self.slot_states@, slot.slot, status)
        &&& next.session_established == self.session_established
        &&& if status_is_news(self.slot_states@, slot.slot, status) {
            action matches LaserStreamSessionAction::Emit(ProviderStreamUpdate::SlotStatus(event))
                && tells_slot_status(
                event,
                self.slot_states@,
                slot.slot,
                slot.parent,
                status,
                next.watermarks,
                Some(source),
            )
        } else {
            action is Continue
        }
    }

    /// Says what a session does on an event.
    pub fn on_event(
        &mut self,
        source: &ProviderSourceRef,
        event: LaserStreamSessionEvent,
    ) -> (r: LaserStreamSessionAction)
        ensures
            old(self).step(*source, event, *final(self), r),
    {
        match event {
            LaserStreamSessionEvent::StallDeadlinePassed => LaserStreamSessionAction::Fail(
                LaserStreamError::Protocol(LaserStreamProtocolError::SlotStreamStalled),
            ),
            LaserStreamSessionEvent::StreamEnded => LaserStreamSessionAction::End,
            LaserStreamSessionEvent::StreamFailed(text) => LaserStreamSessionAction::Fail(
                LaserStreamError::Protocol(LaserStreamProtocolError::StreamStatus(text)),
            ),
            LaserStreamSessionEvent::Update { update, filters: _, at } => {
                self.last_progress = at;
                match update {
                    GrpcUpdate::Slot(slot) => {
                        if slot.slot > self.tracked_slot {
                            self.tracked_slot = slot.slot;
                        }
                        let status = slot_status_from_code(slot.status);
                        match slot_status_event(
                            slot.slot,
                            slot.parent,
                            status,
                            &mut self.watermarks,
                            &mut self.slot_states,
                        ) {
                            Some(event) => LaserStreamSessionAction::Emit(
                                ProviderStreamUpdate::SlotStatus(event).with_provider_source_ref(source),
                            ),
                            None => LaserStreamSessionAction::Continue,
                        }
                    },
                    _ => LaserStreamSessionAction::Continue,
                }
            },
        }
    }
}

/// A session never loses track: its highest slot and its watermarks only rise, and whatever
/// arrives from the provider counts as progress.
pub proof fn session_only_advances(
    state: LaserStreamPrimaryState,
    config: LaserStreamConfig,
    source: ProviderSourceRef,
    event: LaserStreamSessionEvent,
    next: LaserStreamPrimaryState,
    action: LaserStreamSessionAction,
)
    requires
        state.step(config, source, event, next, action),
    ensures
        next.tracked_slot >= state.tracked_slot,
        at_or_above(next.watermarks.confirmed_slot, state.watermarks.confirmed_slot),
        at_or_above(next.watermarks.finalized_slot, state.watermarks.finalized_slot),
        state.watermarks.ordered() ==> next.watermarks.ordered(),
        next.session_established == state.session_established,
        event matches LaserStreamSessionEvent::Update { at, .. } ==> next.last_progress == at,
{
}

/// The commitments are numbered on the wire from the weakest to the strongest, from zero on, and each is
/// told as itself.
pub proof fn commitments_are_numbered(commitment: LaserStreamCommitment)
    ensures
        commitment.code() == 0 <==> commitment is Processed,
        commitment.code() == 1 <==> commitment is Confirmed,
        commitment.code() == 2 <==> commitment is Finalized,
        commitment.tx_commitment() is Processed <==> commitment is Processed,
        commitment.tx_commitment() is Confirmed <==> commitment is Confirmed,
        commitment.tx_commitment() is Finalized <==> commitment is Finalized,
{
}

/// A stream runs in the mode and as the source of its own kind, which have one label, and its kind is
/// named in texts.
pub proof fn streams_are_of_their_kind(stream: LaserStreamStream, kind: LaserStreamStreamKind)
    ensures
        stream.mode_of_stream().label()@ == stream.source_of_stream().label(),
        stream is Transaction <==> stream.mode_of_stream() == ProviderStreamMode::LaserStream,
        stream is TransactionStatus <==> stream.mode_of_stream()
            == ProviderStreamMode::LaserStreamTransactionStatus,
        stream is Accounts <==> stream.mode_of_stream() == ProviderStreamMode::LaserStreamAccounts,
        stream is BlockMeta <==> stream.mode_of_stream() == ProviderStreamMode::LaserStreamBlockMeta,
        stream is Transaction <==> stream.source_of_stream() is LaserStream,
        stream is TransactionStatus <==> stream.source_of_stream() is LaserStreamTransactionStatus,
        stream is Accounts <==> stream.source_of_stream() is LaserStreamAccounts,
        stream is BlockMeta <==> stream.source_of_stream() is LaserStreamBlockMeta,
        stream is Transaction <==> stream.kind_of_stream() is Transaction,
        stream is TransactionStatus <==> stream.kind_of_stream() is TransactionStatus,
        stream is Accounts <==> stream.kind_of_stream() is Accounts,
        stream is BlockMeta <==> stream.kind_of_stream() is BlockMeta,
        kind is Transaction ==> kind.label() == "transaction",
        kind is TransactionStatus ==> kind.label() == "transaction-status",
        kind is Accounts ==> kind.label() == "account",
        kind is BlockMeta ==> kind.label() == "block-meta",
        kind is Slots ==> kind.label() == "slot",
{
}

/// A request asks for the stream that is configured and for no other, for the slots that move the
/// watermarks, at the configured commitment, and from the slot that the replay mode says.
pub proof fn requests_ask_for_one_stream(
    config: LaserStreamConfig,
    request: GrpcSubscribeRequest,
    tracked_slot: u64,
)
    requires
        config.requests(request, tracked_slot),
    ensures
        request.transactions is Some <==> config.stream is Transaction,
        request.transactions_status is Some <==> config.stream is TransactionStatus,
        request.accounts is Some <==> config.stream is Accounts,
        request.blocks_meta is Some <==> config.stream is BlockMeta,
        request.slots is Some && (request.slots->0).0@ == INTERNAL_WATERMARK_SLOT_FILTER@
            && (request.slots->0).1.filter_by_commitment == Some(true),
        request.ping is None,
        config.commitment is Processed ==> request.commitment == Some(0i32),
        config.commitment is Confirmed ==> request.commitment == Some(1i32),
        config.commitment is Finalized ==> request.commitment == Some(2i32),
        config.replay_mode is Live ==> request.from_slot is None,
        tracked_slot == 0 ==> (request.from_slot is Some <==> config.replay_mode is FromSlot),
        tracked_slot > 0 && !(config.replay_mode is Live) ==> request.from_slot is Some && request.from_slot->0
            <= tracked_slot,
        tracked_slot > 0 && !(config.replay_mode is Live) ==> request.from_slot == Some(tracked_slot),
        config.stream is Transaction ==> (request.transactions->0).0@ == SOURCE_FILTER@
            && (request.transactions->0).1.vote == config.vote && (request.transactions->0).1.failed
            == config.failed && (request.transactions->0).1.account_include@.len()
            == config.account_include@.len() && (request.transactions->0).1.account_exclude@.len()
            == config.account_exclude@.len() && (request.transactions->0).1.account_required@.len()
            == config.account_required@.len(),
        config.stream is TransactionStatus ==> (request.transactions_status->0).0@ == SOURCE_FILTER@
            && (request.transactions_status->0).1.vote == config.vote && (request.transactions_status->0).1.failed
            == config.failed && (request.transactions_status->0).1.account_include@.len()
            == config.account_include@.len() && (request.transactions_status->0).1.account_exclude@.len()
            == config.account_exclude@.len() && (request.transactions_status->0).1.account_required@.len()
            == config.account_required@.len(),
        config.stream is Accounts ==> (request.accounts->0).0@ == SOURCE_FILTER@
            && (request.accounts->0).1.account@.len() == config.accounts@.len()
            && (request.accounts->0).1.owner@.len() == config.owners@.len()
            && (request.accounts->0).1.nonempty_txn_signature == Some(config.require_txn_signature),
        config.stream is BlockMeta ==> request.blocks_meta->0@ == SOURCE_FILTER@,
{
}

/// A transaction is taken exactly if it is all there and every part of it can be held; what is missing is
/// told before what cannot be held.
pub proof fn transactions_are_taken_whole(info: Option<GrpcTransactionInfo>)
    ensures
        ({
            let error = transaction_update_error(info);
            let tx = info->0.transaction->0;
            let message = tx.message->0;
            let whole = info is Some && info->0.signature@.len() == 64 && info->0.transaction is Some;
            &&& info is None ==> error == Some("missing transaction payload")
            &&& info is Some && info->0.signature@.len() != 64 ==> error == Some("invalid signature")
            &&& info is Some && info->0.signature@.len() == 64 && info->0.transaction is None ==> error == Some(
                "missing versioned transaction",
            )
            &&& whole && tx.message is None ==> error is Some
            &&& whole && tx.message is None && signatures_error(tx.signatures@, None) is None
                ==> error == Some("missing transaction message")
            &&& error is None <==> whole && tx.message is Some && signatures_error(
                tx.signatures@,
                None,
            ) is None && header_error(message.header) is None && keys_error(message.account_keys@) is None
                && blockhash_error(message.recent_blockhash@) is None && instructions_error(
                message.instructions@,
            ) is None && lookups_error(message.versioned, message.address_table_lookups@) is None
        }),
{
}

/// A session hands on what its stream is for and nothing else, marked with its source; it ends when the
/// stream does, and fails when the stream fails or stalls, or when what it subscribed to cannot be held.
pub proof fn sessions_hand_on_their_stream(
    state: LaserStreamPrimaryState,
    config: LaserStreamConfig,
    source: ProviderSourceRef,
    event: LaserStreamSessionEvent,
    next: LaserStreamPrimaryState,
    action: LaserStreamSessionAction,
)
    requires
        state.step(config, source, event, next, action),
    ensures
        action matches LaserStreamSessionAction::Emit(update) ==> {
            &&& event is Update
            &&& delivered_by(update, source)
            &&& update is Transaction <==> config.stream is Transaction
            &&& update is TransactionStatus <==> config.stream is TransactionStatus
            &&& update is AccountUpdate <==> config.stream is Accounts
            &&& update is BlockMeta <==> config.stream is BlockMeta
            &&& update is Transaction ==> update->Transaction_0.slot <= next.tracked_slot
            &&& update is TransactionStatus ==> update->TransactionStatus_0.slot <= next.tracked_slot
            &&& update is AccountUpdate ==> update->AccountUpdate_0.slot <= next.tracked_slot
            &&& update is BlockMeta ==> update->BlockMeta_0.slot <= next.tracked_slot
        },
        action is End <==> event is StreamEnded,
        event is StallDeadlinePassed ==> action is Fail && action->Fail_0 is Protocol && action->Fail_0->Protocol_0
            == (LaserStreamProtocolError::StreamStalled { stream: config.stream.kind_of_stream() }),
        event is StreamFailed ==> action is Fail,
        !(event is Update) ==> next == state,
        event matches LaserStreamSessionEvent::Update { update, at, .. } ==> {
            let own = (update is Transaction && config.stream is Transaction) || (update is TransactionStatus
                && config.stream is TransactionStatus) || (update is Account && config.stream is Accounts) || (
            update is BlockMeta && config.stream is BlockMeta);
            &&& next.last_progress == at
            &&& own ==> action is Emit || (action is Fail && action->Fail_0 is Convert)
            &&& !own ==> !(action is Emit) && !(action is Fail)
            &&& !own && !(update is Slot) ==> next.tracked_slot == state.tracked_slot && next.watermarks
                == state.watermarks
            &&& own && config.commitment is Processed ==> next.watermarks == state.watermarks
            &&& own && !(config.commitment is Finalized) ==> next.watermarks.finalized_slot
                == state.watermarks.finalized_slot
        },
{
}

/// What was received is handed on exactly if it can be held, at the slot it came in, which the session has
/// then tracked; at a commitment above processed the confirmed watermark has reached that slot.
pub proof fn received_updates_are_handed_on(
    state: LaserStreamPrimaryState,
    config: LaserStreamConfig,
    source: ProviderSourceRef,
    event: LaserStreamSessionEvent,
    next: LaserStreamPrimaryState,
    action: LaserStreamSessionAction,
)
    requires
        state.step(config, source, event, next, action),
        event is Update,
    ensures
        config.stream is Transaction ==> (event->update matches GrpcUpdate::Transaction { slot, transaction } ==> {
            &&& action is Emit <==> transaction_update_error(transaction) is None
            &&& action is Emit ==> action->Emit_0->Transaction_0.slot == slot
            &&& action is Emit ==> action->Emit_0->Transaction_0.confirmed_slot
                == next.watermarks.confirmed_slot
            &&& next.tracked_slot == later_slot(state.tracked_slot, slot)
            &&& !(config.commitment is Processed) ==> next.watermarks.confirmed_slot is Some
                && next.watermarks.confirmed_slot->0 >= slot
        }),
        config.stream is TransactionStatus ==> (event->update matches GrpcUpdate::TransactionStatus(status) ==> {
            &&& action is Emit <==> status.signature@.len() == 64
            &&& action is Emit ==> action->Emit_0->TransactionStatus_0.slot == status.slot
            &&& next.tracked_slot == later_slot(state.tracked_slot, status.slot)
            &&& !(config.commitment is Processed) ==> next.watermarks.confirmed_slot is Some
                && next.watermarks.confirmed_slot->0 >= status.slot
        }),
        config.stream is Accounts ==> (event->update matches GrpcUpdate::Account(account) ==> {
            &&& action is Emit <==> account_error(account, None) is None
            &&& action is Emit ==> action->Emit_0->AccountUpdate_0.slot == account.slot
            &&& next.tracked_slot == later_slot(state.tracked_slot, account.slot)
            &&& !(config.commitment is Processed) ==> next.watermarks.confirmed_slot is Some
                && next.watermarks.confirmed_slot->0 >= account.slot
        }),
        config.stream is BlockMeta ==> (event->update matches GrpcUpdate::BlockMeta(block) ==> {
            &&& action is Emit <==> spelled_hash(block.blockhash@) is Some && spelled_hash(
                block.parent_blockhash@,
            ) is Some
            &&& action is Emit ==> action->Emit_0->BlockMeta_0.slot == block.slot
            &&& next.tracked_slot == later_slot(state.tracked_slot, block.slot)
            &&& !(config.commitment is Processed) ==> next.watermarks.confirmed_slot is Some
                && next.watermarks.confirmed_slot->0 >= block.slot
        }),
        event->update matches GrpcUpdate::Slot(slot) ==> {
            &&& action is Continue
            &&& next.tracked_slot == later_slot(state.tracked_slot, slot.slot)
            &&& slot.status != 1 && slot.status != 2 ==> next.watermarks == state.watermarks
            &&& (slot.status == 1 || slot.status == 2) && names_filter(
                event->filters@,
                INTERNAL_WATERMARK_SLOT_FILTER@,
            ) ==> next.watermarks.confirmed_slot is Some && next.watermarks.confirmed_slot->0 >= slot.slot
            &&& !names_filter(event->filters@, INTERNAL_WATERMARK_SLOT_FILTER@) ==> next.watermarks
                == state.watermarks
        },
{
}

/// A slot session hands on each change of a slot's status and nothing else, and remembers the status; a
/// status of an unknown code changes no slot.
pub proof fn slot_sessions_tell_changes(
    state: LaserStreamSlotState,
    source: ProviderSourceRef,
    event: LaserStreamSessionEvent,
    next: LaserStreamSlotState,
    action: LaserStreamSessionAction,
)
    requires
        state.step(source, event, next, action),
    ensures
        action is End <==> event is StreamEnded,
        action is Fail <==> event is StreamFailed || event is StallDeadlinePassed,
        event is StallDeadlinePassed ==> action->Fail_0 is Protocol && action->Fail_0->Protocol_0
            is SlotStreamStalled,
        !(event is Update) ==> next == state,
        event is Update ==> next.last_progress == event->at,
        event is Update && !(event->update is Slot) ==> next.tracked_slot == state.tracked_slot
            && next.watermarks == state.watermarks && next.slot_states@ == state.slot_states@ && !(
        action is Emit),
        action matches LaserStreamSessionAction::Emit(update) ==> event is Update && event->update is Slot
            && update is SlotStatus && delivered_by(update, source),
        event is Update ==> (event->update matches GrpcUpdate::Slot(slot) ==> {
            let known = 0 <= slot.status <= 6;
            &&& action is Emit <==> known && !(state.slot_states@.contains_key(slot.slot)
                && state.slot_states@[slot.slot] == slot_status_of(slot.status)->0)
            &&& action is Emit ==> action->Emit_0->SlotStatus_0.slot == slot.slot
                && action->Emit_0->SlotStatus_0.parent_slot == slot.parent
                && action->Emit_0->SlotStatus_0.status == slot_status_of(slot.status)->0
            &&& next.tracked_slot == later_slot(state.tracked_slot, slot.slot)
            &&& known ==> next.slot_states@.contains_key(slot.slot) && next.slot_states@[slot.slot]
                == slot_status_of(slot.status)->0
            &&& !known ==> next.slot_states@ == state.slot_states@
            &&& slot.status != 1 && slot.status != 2 ==> next.watermarks == state.watermarks
            &&& slot.status == 1 || slot.status == 2 ==> next.watermarks.confirmed_slot is Some
                && next.watermarks.confirmed_slot->0 >= slot.slot
            &&& slot.status == 2 ==> next.watermarks.finalized_slot is Some
                && next.watermarks.finalized_slot->0 >= slot.slot
        }),
{
}

/// A failure of the transport is one that the client met; every other failure is one of the protocol. The
/// text of an error holds what it was made with.
pub proof fn errors_are_told(error: LaserStreamError)
    ensures
        error.health_reason() == ProviderSourceHealthReason::UpstreamTransportFailure <==> error is Client,
        error.health_reason() != ProviderSourceHealthReason::UpstreamTransportFailure ==> error.health_reason()
            == ProviderSourceHealthReason::UpstreamProtocolFailure,
        error matches LaserStreamError::Client(text) ==> error.text() == text@,
        error matches LaserStreamError::Convert(what) ==> error.text()
            == "laserstream transaction conversion failed: "@ + what@,
        error is QueueClosed ==> error.text() == "provider-stream queue closed"@,
        error matches LaserStreamError::Protocol(inner) ==> {
            &&& error.text() == inner.text()
            &&& inner matches LaserStreamProtocolError::StreamStalled { stream } ==> error.text()
                == "laserstream "@ + stream.label()@ + " stream stalled without inbound progress"@
            &&& inner is SlotStreamStalled ==> error.text()
                == "laserstream slot stream stalled without inbound progress"@
            &&& inner matches LaserStreamProtocolError::InvalidApiKey(text) ==> error.text()
                == "invalid api key metadata: "@ + text@
            &&& inner matches LaserStreamProtocolError::InvalidEndpoint(text) ==> error.text()
                == "failed to parse endpoint: "@ + text@
            &&& inner matches LaserStreamProtocolError::TlsConfig(text) ==> error.text()
                == "tls config error: "@ + text@
            &&& inner matches LaserStreamProtocolError::ConnectionFailed(text) ==> error.text()
                == "connection failed: "@ + text@
            &&& inner matches LaserStreamProtocolError::InitialSubscribeSend(text) ==> error.text()
                == "failed to send initial subscription request: "@ + text@
            &&& inner matches LaserStreamProtocolError::SubscriptionFailed(text) ==> error.text()
                == "subscription failed: "@ + text@
            &&& inner matches LaserStreamProtocolError::StreamStatus(text) ==> error.text()
                == "laserstream stream status: "@ + text@
            &&& inner matches LaserStreamProtocolError::ReconnectBudgetExhausted { attempts } ==> error.text()
                == "exhausted laserstream reconnect attempts after "@ + decimal_text(attempts as nat)
                + " failures"@
        },
{
}

/// A channel is opened with the limits that are configured, and with a default where none is; all else is
/// the same for every channel.
pub proof fn channels_keep_configured_limits(options: LaserStreamChannelOptions, other: LaserStreamChannelOptions)
    ensures
        ({
            let plan = options.planned();
            &&& options.connect_timeout_secs matches Some(secs) ==> plan.connect_timeout_secs == secs
            &&& options.timeout_secs matches Some(secs) ==> plan.timeout_secs == secs
            &&& options.max_decoding_message_size matches Some(size) ==> plan.max_decoding_message_size == size
            &&& options.max_encoding_message_size matches Some(size) ==> plan.max_encoding_message_size == size
            &&& options.connect_timeout_secs is None ==> plan.connect_timeout_secs == 10
            &&& options.timeout_secs is None ==> plan.timeout_secs == 30
            &&& options.max_decoding_message_size is None ==> plan.max_decoding_message_size == 1_000_000_000
            &&& options.max_encoding_message_size is None ==> plan.max_encoding_message_size == 32_000_000
            &&& plan == (LaserStreamChannelPlan {
                connect_timeout_secs: plan.connect_timeout_secs,
                timeout_secs: plan.timeout_secs,
                max_decoding_message_size: plan.max_decoding_message_size,
                max_encoding_message_size: plan.max_encoding_message_size,
                ..other.planned()
            })
            &&& plan.initial_connection_window_size == 2 * plan.initial_stream_window_size
            &&& plan.initial_stream_window_size == 4 * 1_024 * 1_024
            &&& plan.keep_alive_timeout_secs == 5 && plan.http2_keep_alive_interval_secs == 30
            &&& plan.keep_alive_while_idle && plan.http2_adaptive_window && plan.tcp_nodelay
            &&& plan.buffer_size == 64 * 1_024
        }),
{
}

/// A timeout is told in whole seconds, rounded down.
pub proof fn timeouts_are_whole_seconds(timeout: Duration)
    requires
        timeout.nanos() / 1_000_000_000 <= u64::MAX,
    ensures
        timeout_secs(None) is None,
        timeout_secs(Some(timeout)) is Some,
        timeout_secs(Some(timeout))->0 * 1_000_000_000 <= timeout.nanos(),
        timeout.nanos() < timeout_secs(Some(timeout))->0 * 1_000_000_000 + 1_000_000_000,
{
}

/// A client replays exactly if its config asks for more than what is live, and carries everything else
/// over.
pub proof fn clients_replay_unless_live(
    client: LaserStreamClientConfig,
    endpoint: Seq<char>,
    api_key: Seq<char>,
    channel: LaserStreamChannelOptions,
    replay_mode: ProviderReplayMode,
    max_reconnect_attempts: Option<u32>,
)
    requires
        configures_client(client, endpoint, api_key, channel, replay_mode, max_reconnect_attempts),
    ensures
        client.replay <==> replay_mode is Resume || replay_mode is FromSlot,
        client.endpoint@ == endpoint && client.api_key@ == api_key && client.channel == channel,
        client.max_reconnect_attempts == max_reconnect_attempts,
{
}

} // verus!
