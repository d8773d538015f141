//! Updates that processed providers feed in, the sources they come from, and how a source is
//! kept alive.
pub mod fan_in;
pub mod grpc;
pub mod laserstream;
pub mod source;
pub mod supervisor;
pub mod update;
pub mod watermarks;
pub mod websocket;
pub mod yellowstone;

use vstd::prelude::*;

verus! {

/// Default queue capacity for processed provider-stream ingress.
pub const DEFAULT_PROVIDER_STREAM_QUEUE_CAPACITY: usize = 8_192;

/// The capacity that a provider queue is created with: the requested one, at least one.
pub fn provider_stream_queue_capacity(capacity: usize) -> (r: usize)
    ensures
        r == if capacity == 0 {
            1
        } else {
            capacity
        },
{
    if capacity == 0 {
        1
    } else {
        capacity
    }
}

/// The provider family that drives the ingress.
#[derive(Clone, Copy, Debug, PartialEq, Eq, Structural)]
pub enum ProviderStreamMode {
    /// Custom producers that push typed updates.
    Generic,
    /// Yellowstone gRPC transaction feeds.
    YellowstoneGrpc,
    /// Yellowstone gRPC transaction-status feeds.
    YellowstoneGrpcTransactionStatus,
    /// Yellowstone gRPC account feeds.
    YellowstoneGrpcAccounts,
    /// Yellowstone gRPC block-meta feeds.
    YellowstoneGrpcBlockMeta,
    /// Yellowstone gRPC slot feeds.
    YellowstoneGrpcSlots,
    /// LaserStream transaction feeds.
    LaserStream,
    /// LaserStream transaction-status feeds.
    LaserStreamTransactionStatus,
    /// LaserStream account feeds.
    LaserStreamAccounts,
    /// LaserStream block-meta feeds.
    LaserStreamBlockMeta,
    /// LaserStream slot feeds.
    LaserStreamSlots,
    /// Websocket `transactionSubscribe` feeds.
    WebsocketTransaction,
    /// Websocket `logsSubscribe` feeds.
    WebsocketLogs,
    /// Websocket `accountSubscribe` feeds.
    WebsocketAccount,
    /// Websocket `programSubscribe` feeds.
    WebsocketProgram,
}

impl ProviderStreamMode {
    /// The stable label of a mode.
    pub open spec fn label(self) -> &'static str {
        match self {
            ProviderStreamMode::Generic => "generic_provider",
            ProviderStreamMode::YellowstoneGrpc => "yellowstone_grpc",
            ProviderStreamMode::YellowstoneGrpcTransactionStatus => "yellowstone_grpc_transaction_status",
            ProviderStreamMode::YellowstoneGrpcAccounts => "yellowstone_grpc_accounts",
            ProviderStreamMode::YellowstoneGrpcBlockMeta => "yellowstone_grpc_block_meta",
            ProviderStreamMode::YellowstoneGrpcSlots => "yellowstone_grpc_slots",
            ProviderStreamMode::LaserStream => "laserstream",
            ProviderStreamMode::LaserStreamTransactionStatus => "laserstream_transaction_status",
            ProviderStreamMode::LaserStreamAccounts => "laserstream_accounts",
            ProviderStreamMode::LaserStreamBlockMeta => "laserstream_block_meta",
            ProviderStreamMode::LaserStreamSlots => "laserstream_slots",
            ProviderStreamMode::WebsocketTransaction => "websocket_transaction",
            ProviderStreamMode::WebsocketLogs => "websocket_logs",
            ProviderStreamMode::WebsocketAccount => "websocket_account",
            ProviderStreamMode::WebsocketProgram => "websocket_program",
        }
    }

    /// Returns the stable label used in logs and docs.
    pub fn as_str(self) -> (r: &'static str)
        ensures
            r == self.label(),
    {
        match self {
            ProviderStreamMode::Generic => "generic_provider",
            ProviderStreamMode::YellowstoneGrpc => "yellowstone_grpc",
            ProviderStreamMode::YellowstoneGrpcTransactionStatus => "yellowstone_grpc_transaction_status",
            ProviderStreamMode::YellowstoneGrpcAccounts => "yellowstone_grpc_accounts",
            ProviderStreamMode::YellowstoneGrpcBlockMeta => "yellowstone_grpc_block_meta",
            ProviderStreamMode::YellowstoneGrpcSlots => "yellowstone_grpc_slots",
            ProviderStreamMode::LaserStream => "laserstream",
            ProviderStreamMode::LaserStreamTransactionStatus => "laserstream_transaction_status",
            ProviderStreamMode::LaserStreamAccounts => "laserstream_accounts",
            ProviderStreamMode::LaserStreamBlockMeta => "laserstream_block_meta",
            ProviderStreamMode::LaserStreamSlots => "laserstream_slots",
            ProviderStreamMode::WebsocketTransaction => "websocket_transaction",
            ProviderStreamMode::WebsocketLogs => "websocket_logs",
            ProviderStreamMode::WebsocketAccount => "websocket_account",
            ProviderStreamMode::WebsocketProgram => "websocket_program",
        }
    }
}

/// Where a provider stream starts and resumes.
#[derive(Clone, Copy, Debug, PartialEq, Eq, Structural)]
pub enum ProviderReplayMode {
    /// Start at the live edge, never ask for history.
    Live,
    /// Start live and resume from the last tracked slot after a reconnect.
    Resume,
    /// Start at one slot, then resume from the last tracked slot after a reconnect.
    FromSlot(u64),
}

impl Default for ProviderReplayMode {
    fn default() -> (r: Self)
        ensures
            r == ProviderReplayMode::Resume,
    {
        ProviderReplayMode::Resume
    }
}

/// The slot that a subscription asks to start from: none where nothing is to be replayed, the
/// configured slot as long as no slot was tracked, afterwards the tracked slot moved back by
/// `overlap`, not below zero.
pub open spec fn replay_start(mode: ProviderReplayMode, tracked_slot: u64, overlap: u64) -> Option<u64> {
    let resumed = if tracked_slot >= overlap {
        (tracked_slot - overlap) as u64
    } else {
        0
    };
    match mode {
        ProviderReplayMode::Live => None,
        ProviderReplayMode::Resume => if tracked_slot == 0 {
            None
        } else {
            Some(resumed)
        },
        ProviderReplayMode::FromSlot(slot) => if tracked_slot == 0 {
            Some(slot)
        } else {
            Some(resumed)
        },
    }
}

/// The slot to subscribe from, given the tracked slot and how far a resumed stream overlaps.
pub fn replay_start_slot(mode: ProviderReplayMode, tracked_slot: u64, overlap: u64) -> (r: Option<u64>)
    ensures
        r == replay_start(mode, tracked_slot, overlap),
{
    let resumed: u64 = tracked_slot.saturating_sub(overlap);
    match mode {
        ProviderReplayMode::Live => None,
        ProviderReplayMode::Resume => if tracked_slot == 0 {
            None
        } else {
            Some(resumed)
        },
        ProviderReplayMode::FromSlot(slot) => if tracked_slot == 0 {
            Some(slot)
        } else {
            Some(resumed)
        },
    }
}

/// A resumed stream never skips a slot: whatever slot was tracked last, a stream that replays
/// starts at or before it, and it lags it by no more than the overlap.
pub proof fn replay_leaves_no_gap(mode: ProviderReplayMode, tracked_slot: u64, overlap: u64)
    requires
        tracked_slot > 0,
    ensures
        mode is Live <==> replay_start(mode, tracked_slot, overlap) is None,
        replay_start(mode, tracked_slot, overlap) matches Some(start) ==> start <= tracked_slot
            && tracked_slot - start <= overlap,
        replay_start(mode, tracked_slot, overlap) matches Some(start) ==> tracked_slot - start == overlap
            || start == 0,
{
}

/// Before any slot was tracked, only a stream that is to start at a slot asks for history, from that
/// slot on.
pub proof fn first_start_is_the_configured_one(mode: ProviderReplayMode, overlap: u64)
    ensures
        replay_start(mode, 0, overlap) is Some <==> mode is FromSlot,
        mode matches ProviderReplayMode::FromSlot(slot) ==> replay_start(mode, 0, overlap) == Some(slot),
{
}

/// Every mode has its own stable label.
pub proof fn mode_labels_are_stable(mode: ProviderStreamMode)
    ensures
        mode is Generic ==> mode.label() == "generic_provider",
        mode is YellowstoneGrpc ==> mode.label() == "yellowstone_grpc",
        mode is YellowstoneGrpcTransactionStatus ==> mode.label() == "yellowstone_grpc_transaction_status",
        mode is YellowstoneGrpcAccounts ==> mode.label() == "yellowstone_grpc_accounts",
        mode is YellowstoneGrpcBlockMeta ==> mode.label() == "yellowstone_grpc_block_meta",
        mode is YellowstoneGrpcSlots ==> mode.label() == "yellowstone_grpc_slots",
        mode is LaserStream ==> mode.label() == "laserstream",
        mode is LaserStreamTransactionStatus ==> mode.label() == "laserstream_transaction_status",
        mode is LaserStreamAccounts ==> mode.label() == "laserstream_accounts",
        mode is LaserStreamBlockMeta ==> mode.label() == "laserstream_block_meta",
        mode is LaserStreamSlots ==> mode.label() == "laserstream_slots",
        mode is WebsocketTransaction ==> mode.label() == "websocket_transaction",
        mode is WebsocketLogs ==> mode.label() == "websocket_logs",
        mode is WebsocketAccount ==> mode.label() == "websocket_account",
        mode is WebsocketProgram ==> mode.label() == "websocket_program",
{
}

} // verus!
