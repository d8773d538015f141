//! Websocket sessions: waiting for the acknowledgement, reading notifications, reacting to
//! frames.
use crate::bytes::{
    base64_bytes, bytes64_from_slice, decode_base64, pubkey_from_text, share_bytes,
    signature_from_text, spelled_pubkey, spelled_signature, PubkeyBytes, SignatureBytes,
};
use crate::event::TxCommitmentStatus;
use crate::framework::{AccountUpdateEvent, SerializedTransactionEvent, TransactionLogEvent};
use crate::provider_stream::grpc::{signature_view, stall_deadline, stall_point};
use crate::provider_stream::source::{
    ProviderSourceHealthEvent, ProviderSourceHealthReason, ProviderSourceHealthStatus,
    ProviderSourceIdentity, ProviderSourceRef,
};
use crate::provider_stream::supervisor::PROVIDER_SUBSCRIPTION_ACKNOWLEDGED;
use crate::provider_stream::update::ProviderStreamUpdate;
use crate::provider_stream::watermarks::{
    at_or_above, observe_non_transaction_commitment, raise, raised, ProviderCommitmentWatermarks,
};
use crate::provider_stream::websocket::{
    WebsocketLogsConfig, WebsocketLogsError, WebsocketLogsFilter, WebsocketPrimaryStream,
    WebsocketProtocolError, WebsocketStreamKind, WebsocketTransactionCommitment,
    WebsocketTransactionConfig, WebsocketTransactionError,
};
use crate::text::same_text;
use crate::time::{Duration, Instant};
use vstd::prelude::*;

verus! {

/// The answer to a subscription request, as far as it is read.
#[derive(Debug)]
pub struct WebsocketSubscriptionAck {
    /// Identifier of the request.
    pub id: Option<i64>,
    /// Whether the answer carries a result.
    pub has_result: bool,
    /// The provider's error as JSON text.
    pub error: Option<String>,
}

/// A message that was read from JSON, or the text that says why it could not be.
pub type ReadMessage<T> = Result<T, String>;

/// What is wrong with an answer: no valid JSON, or an error of the provider.
pub open spec fn ack_failure(message: ReadMessage<WebsocketSubscriptionAck>) -> Option<WebsocketProtocolError> {
    match message {
        Err(text) => Some(WebsocketProtocolError::InvalidJson(text)),
        Ok(ack) => match ack.error {
            Some(text) => Some(WebsocketProtocolError::SubscriptionError(text)),
            None => None,
        },
    }
}

/// Whether an answer acknowledges the subscription.
pub open spec fn acknowledges(message: ReadMessage<WebsocketSubscriptionAck>) -> bool {
    message matches Ok(ack) && ack.id == Some(1i64) && ack.has_result
}

fn read_ack(message: ReadMessage<WebsocketSubscriptionAck>) -> (r: Result<bool, WebsocketProtocolError>)
    ensures
        match r {
            Ok(acknowledged) => ack_failure(message) is None && acknowledged == acknowledges(message),
            Err(error) => ack_failure(message) == Some(error),
        },
{
    match message {
        Err(text) => Err(WebsocketProtocolError::InvalidJson(text)),
        Ok(ack) => match ack.error {
            Some(text) => Err(WebsocketProtocolError::SubscriptionError(text)),
            None => {
                let first: bool = match ack.id {
                    Some(id) => id == 1,
                    None => false,
                };
                Ok(first && ack.has_result)
            },
        },
    }
}

/// Says whether a message acknowledges the subscription of a primary source.
pub fn handle_subscription_text(message: ReadMessage<WebsocketSubscriptionAck>) -> (r: Result<
    bool,
    WebsocketTransactionError,
>)
    ensures
        match r {
            Ok(acknowledged) => ack_failure(message) is None && acknowledged == acknowledges(message),
            Err(error) => error matches WebsocketTransactionError::Protocol(inner) && ack_failure(message)
                == Some(inner),
        },
{
    match read_ack(message) {
        Ok(acknowledged) => Ok(acknowledged),
        Err(error) => Err(WebsocketTransactionError::Protocol(error)),
    }
}

/// Says whether a message acknowledges the subscription of a log source.
pub fn handle_logs_subscription_text(message: ReadMessage<WebsocketSubscriptionAck>) -> (r: Result<
    bool,
    WebsocketLogsError,
>)
    ensures
        match r {
            Ok(acknowledged) => ack_failure(message) is None && acknowledged == acknowledges(message),
            Err(error) => error matches WebsocketLogsError::Protocol(inner) && ack_failure(message) == Some(
                inner,
            ),
        },
{
    match read_ack(message) {
        Ok(acknowledged) => Ok(acknowledged),
        Err(error) => Err(WebsocketLogsError::Protocol(error)),
    }
}

/// What happened while a source waits for the acknowledgement.
#[derive(Debug)]
pub enum WebsocketAckEvent {
    /// A text or binary frame arrived.
    Message(ReadMessage<WebsocketSubscriptionAck>),
    /// A frame without meaning here arrived.
    OtherFrame,
    /// The websocket closed with a frame, given as text.
    Closed(String),
    /// The websocket ended.
    StreamEnded,
    /// The transport failed, with its error as text.
    TransportFailed(String),
    /// The time is up.
    TimedOut,
}

/// How long a source waits for the acknowledgement.
pub fn subscription_ack_timeout() -> (r: Duration)
    ensures
        r.nanos() == 10_000_000_000,
{
    Duration::from_secs(10)
}

/// The protocol failure that an event means for a waiting source, a transport failure aside.
pub open spec fn wait_failure(event: WebsocketAckEvent) -> Option<WebsocketProtocolError> {
    match event {
        WebsocketAckEvent::Message(message) => ack_failure(message),
        WebsocketAckEvent::OtherFrame => None,
        WebsocketAckEvent::Closed(frame) => Some(
            WebsocketProtocolError::ClosedBeforeSubscriptionAckWithFrame(frame),
        ),
        WebsocketAckEvent::StreamEnded => Some(WebsocketProtocolError::ClosedBeforeSubscriptionAck),
        WebsocketAckEvent::TransportFailed(_) => None,
        WebsocketAckEvent::TimedOut => Some(WebsocketProtocolError::SubscriptionAckTimeout),
    }
}

/// Whether an event ends the wait with an acknowledgement.
pub open spec fn wait_succeeds(event: WebsocketAckEvent) -> bool {
    event matches WebsocketAckEvent::Message(message) && acknowledges(message)
}

/// What an event means for a primary source that waits for the acknowledgement: it came, it did
/// not come yet, or the wait failed.
pub fn wait_for_subscription_ack(event: WebsocketAckEvent) -> (r: Result<bool, WebsocketTransactionError>)
    ensures
        match r {
            Ok(acknowledged) => event !is TransportFailed && wait_failure(event) is None && acknowledged
                == wait_succeeds(event),
            Err(WebsocketTransactionError::Transport(text)) => event
                matches WebsocketAckEvent::TransportFailed(told) && text == told,
            Err(WebsocketTransactionError::Protocol(error)) => wait_failure(event) == Some(error),
            Err(_) => false,
        },
{
    match event {
        WebsocketAckEvent::Message(message) => handle_subscription_text(message),
        WebsocketAckEvent::OtherFrame => Ok(false),
        WebsocketAckEvent::Closed(frame) => Err(
            WebsocketTransactionError::Protocol(
                WebsocketProtocolError::ClosedBeforeSubscriptionAckWithFrame(frame),
            ),
        ),
        WebsocketAckEvent::StreamEnded => Err(
            WebsocketTransactionError::Protocol(WebsocketProtocolError::ClosedBeforeSubscriptionAck),
        ),
        WebsocketAckEvent::TransportFailed(text) => Err(WebsocketTransactionError::Transport(text)),
        WebsocketAckEvent::TimedOut => Err(
            WebsocketTransactionError::Protocol(WebsocketProtocolError::SubscriptionAckTimeout),
        ),
    }
}

/// What an event means for a log source that waits for the acknowledgement.
pub fn wait_for_logs_subscription_ack(event: WebsocketAckEvent) -> (r: Result<bool, WebsocketLogsError>)
    ensures
        match r {
            Ok(acknowledged) => event !is TransportFailed && wait_failure(event) is None && acknowledged
                == wait_succeeds(event),
            Err(WebsocketLogsError::Transport(text)) => event matches WebsocketAckEvent::TransportFailed(
                told,
            ) && text == told,
            Err(WebsocketLogsError::Protocol(error)) => wait_failure(event) == Some(error),
            Err(_) => false,
        },
{
    match event {
        WebsocketAckEvent::Message(message) => handle_logs_subscription_text(message),
        WebsocketAckEvent::OtherFrame => Ok(false),
        WebsocketAckEvent::Closed(frame) => Err(
            WebsocketLogsError::Protocol(
                WebsocketProtocolError::ClosedBeforeSubscriptionAckWithFrame(frame),
            ),
        ),
        WebsocketAckEvent::StreamEnded => Err(
            WebsocketLogsError::Protocol(WebsocketProtocolError::ClosedBeforeSubscriptionAck),
        ),
        WebsocketAckEvent::TransportFailed(text) => Err(WebsocketLogsError::Transport(text)),
        WebsocketAckEvent::TimedOut => Err(
            WebsocketLogsError::Protocol(WebsocketProtocolError::SubscriptionAckTimeout),
        ),
    }
}

/// A length in the compact form of one to three bytes, seven bits in each, the lowest first: its
/// value and the bytes it takes, none where it is cut off or goes on after three bytes.
pub open spec fn short_len(bytes: Seq<u8>) -> Option<(nat, nat)> {
    if bytes.len() < 1 {
        None
    } else if bytes[0] < 128 {
        Some((bytes[0] as nat, 1))
    } else if bytes.len() < 2 {
        None
    } else if bytes[1] < 128 {
        Some(((bytes[0] - 128 + 128 * bytes[1]) as nat, 2))
    } else if bytes.len() < 3 {
        None
    } else if bytes[2] < 128 {
        Some(((bytes[0] - 128 + 128 * (bytes[1] - 128) + 16384 * bytes[2]) as nat, 3))
    } else {
        None
    }
}

/// The bytes from a position on, none behind the end.
pub open spec fn bytes_from(bytes: Seq<u8>, offset: nat) -> Seq<u8> {
    if offset <= bytes.len() {
        bytes.skip(offset as int)
    } else {
        Seq::empty()
    }
}

/// Reads a length in compact form at `offset`, and moves `offset` behind it. Where there is
/// none, `offset` stands behind the bytes that were read.
pub fn decode_short_u16_len(payload: &[u8], offset: &mut usize) -> (r: Option<usize>)
    ensures
        ({
            let rest = bytes_from(payload@, *old(offset) as nat);
            let read = *final(offset) - *old(offset);
            match r {
                Some(len) => short_len(rest) == Some((len as nat, read as nat)) && read > 0,
                None => short_len(rest) is None && read == if rest.len() < 3 {
                    rest.len() as int
                } else {
                    3
                },
            }
        }),
{
    let ghost rest = bytes_from(payload@, *offset as nat);
    let start: usize = *offset;
    if start >= payload.len() {
        return None;
    }
    let first: usize = payload[start] as usize;
    assert(rest[0] == payload@[start as int]);
    *offset = start + 1;
    if first < 128 {
        return Some(first);
    }
    if start + 1 >= payload.len() {
        return None;
    }
    let second: usize = payload[start + 1] as usize;
    assert(rest[1] == payload@[start + 1]);
    *offset = start + 2;
    if second < 128 {
        return Some(first - 128 + 128 * second);
    }
    if start + 2 >= payload.len() {
        return None;
    }
    let third: usize = payload[start + 2] as usize;
    assert(rest[2] == payload@[start + 2]);
    *offset = start + 3;
    if third < 128 {
        return Some(first - 128 + 128 * (second - 128) + 16384 * third);
    }
    None
}

/// The first signature of a serialized transaction: the sixty-four bytes behind the signature
/// count, none where the count is zero or cannot be read, or the bytes are cut off.
pub open spec fn first_signature(payload: Seq<u8>) -> Option<Seq<u8>> {
    match short_len(payload) {
        None => None,
        Some((count, width)) => if count == 0 || width + 64 > payload.len() {
            None
        } else {
            Some(payload.subrange(width as int, width as int + 64))
        },
    }
}

/// Reads the first signature of a serialized transaction.
pub fn serialized_transaction_first_signature(payload: &[u8]) -> (r: Option<SignatureBytes>)
    ensures
        signature_view(r) == first_signature(payload@),
{
    assert(bytes_from(payload@, 0) =~= payload@);
    let mut offset: usize = 0;
    let count: usize = match decode_short_u16_len(payload, &mut offset) {
        None => {
            return None;
        },
        Some(count) => count,
    };
    if count == 0 || payload.len() - offset < 64 {
        return None;
    }
    let bytes = vstd::slice::slice_subrange(payload, offset, offset + 64);
    match bytes64_from_slice(bytes) {
        Some(array) => Some(SignatureBytes(array)),
        None => None,
    }
}

/// A transaction notification.
#[derive(Debug)]
pub struct WebsocketTransactionNotification {
    /// Slot.
    pub slot: u64,
    /// Signature in base58.
    pub signature: Option<String>,
    /// The encoded transaction.
    pub payload: String,
    /// How it is encoded.
    pub encoding: String,
}

/// A message on a transaction stream.
#[derive(Debug)]
pub struct WebsocketTransactionMessage {
    /// The provider's error as JSON text.
    pub error: Option<String>,
    /// The notification, if the message is one.
    pub notification: Option<WebsocketTransactionNotification>,
}

/// What is wrong with a transaction notification, given what its payload decodes to.
pub open spec fn transaction_refusal(
    notification: WebsocketTransactionNotification,
    decoded: Option<Seq<u8>>,
) -> Option<&'static str> {
    if notification.encoding@ != "base64"@ {
        Some("unsupported websocket transaction encoding")
    } else if decoded is None {
        Some("invalid base64 transaction payload")
    } else {
        None
    }
}

/// Whether `event` tells of a notification what it says, given what its payload decodes to and
/// what signature its text spells.
pub open spec fn tells_serialized(
    event: SerializedTransactionEvent,
    slot: u64,
    decoded: Option<Seq<u8>>,
    spelled: Option<Seq<u8>>,
    commitment: TxCommitmentStatus,
    marks: ProviderCommitmentWatermarks,
    source: Option<ProviderSourceRef>,
) -> bool {
    &&& decoded == Some(event.bytes@)
    &&& event.slot == slot
    &&& event.commitment_status == commitment
    &&& event.confirmed_slot == marks.confirmed_slot
    &&& event.finalized_slot == marks.finalized_slot
    &&& signature_view(event.signature) == match first_signature(event.bytes@) {
        Some(first) => Some(first),
        None => spelled,
    }
    &&& event.provider_source == source
}

/// The bytes of a payload that may be absent.
pub open spec fn bytes_view(bytes: Option<Vec<u8>>) -> Option<Seq<u8>> {
    match bytes {
        Some(known) => Some(known@),
        None => None,
    }
}

/// Makes the event of a transaction notification from what its payload decodes to and what
/// signature its text spells. The signature inside the payload goes first.
pub fn transaction_notification_event(
    notification: &WebsocketTransactionNotification,
    decoded: Option<Vec<u8>>,
    spelled: Option<SignatureBytes>,
    commitment: TxCommitmentStatus,
    watermarks: &mut ProviderCommitmentWatermarks,
) -> (r: Result<SerializedTransactionEvent, &'static str>)
    ensures
        match r {
            Ok(event) => {
                &&& transaction_refusal(*notification, bytes_view(decoded)) is None
                &&& *final(watermarks) == old(watermarks).observed(notification.slot, commitment)
                &&& tells_serialized(
                    event,
                    notification.slot,
                    bytes_view(decoded),
                    signature_view(spelled),
                    commitment,
                    *final(watermarks),
                    None,
                )
            },
            Err(error) => {
                &&& transaction_refusal(*notification, bytes_view(decoded)) == Some(error)
                &&& *final(watermarks) == *old(watermarks)
            },
        },
{
    if !same_text(notification.encoding.as_str(), "base64") {
        return Err("unsupported websocket transaction encoding");
    }
    let bytes = match decoded {
        None => {
            return Err("invalid base64 transaction payload");
        },
        Some(bytes) => bytes,
    };
    let signature = match serialized_transaction_first_signature(bytes.as_slice()) {
        Some(first) => Some(first),
        None => spelled,
    };
    watermarks.observe_transaction_commitment(notification.slot, commitment);
    Ok(
        SerializedTransactionEvent {
            slot: notification.slot,
            commitment_status: commitment,
            confirmed_slot: watermarks.confirmed_slot,
            finalized_slot: watermarks.finalized_slot,
            signature,
            provider_source: None,
            bytes,
        },
    )
}

/// The signature that an optional text spells.
pub open spec fn spelled_optional(text: Option<String>) -> Option<Seq<u8>> {
    match text {
        Some(text) => spelled_signature(text@),
        None => None,
    }
}

/// Whether an error is what a message on a transaction stream is refused with.
pub open spec fn refuses_transaction_message(
    message: ReadMessage<WebsocketTransactionMessage>,
    error: WebsocketTransactionError,
) -> bool {
    match message {
        Err(text) => error matches WebsocketTransactionError::Protocol(
            WebsocketProtocolError::InvalidJson(told),
        ) && told == text,
        Ok(message) => match message.error {
            Some(text) => error matches WebsocketTransactionError::Protocol(
                WebsocketProtocolError::ProviderError(told),
            ) && told == text,
            None => {
                &&& message.notification is Some
                &&& error matches WebsocketTransactionError::Convert(what) && transaction_refusal(
                    message.notification->0,
                    base64_bytes(message.notification->0.payload@),
                ) == Some(what)
            },
        },
    }
}

/// Whether a message on a transaction stream is a notification without a fault.
pub open spec fn accepts_transaction_message(message: ReadMessage<WebsocketTransactionMessage>) -> bool {
    message matches Ok(inner) && inner.error is None && inner.notification is Some && transaction_refusal(
        inner.notification->0,
        base64_bytes(inner.notification->0.payload@),
    ) is None
}

/// Reads a message on a transaction stream: an event, nothing for a message that is no
/// notification, or an error.
pub fn parse_transaction_notification(
    message: ReadMessage<WebsocketTransactionMessage>,
    commitment_status: WebsocketTransactionCommitment,
    watermarks: &mut ProviderCommitmentWatermarks,
) -> (r: Result<Option<SerializedTransactionEvent>, WebsocketTransactionError>)
    ensures
        match r {
            Ok(Some(event)) => {
                let notification = message->Ok_0.notification->0;
                &&& accepts_transaction_message(message)
                &&& *final(watermarks) == old(watermarks).observed(
                    notification.slot,
                    commitment_status.tx_commitment(),
                )
                &&& tells_serialized(
                    event,
                    notification.slot,
                    base64_bytes(notification.payload@),
                    spelled_optional(notification.signature),
                    commitment_status.tx_commitment(),
                    *final(watermarks),
                    None,
                )
            },
            Ok(None) => {
                &&& message matches Ok(inner) && inner.error is None && inner.notification is None
                &&& *final(watermarks) == *old(watermarks)
            },
            Err(error) => {
                &&& refuses_transaction_message(message, error)
                &&& *final(watermarks) == *old(watermarks)
            },
        },
{
    let message = match message {
        Err(text) => {
            return Err(WebsocketTransactionError::Protocol(WebsocketProtocolError::InvalidJson(text)));
        },
        Ok(message) => message,
    };
    if let Some(text) = message.error {
        return Err(WebsocketTransactionError::Protocol(WebsocketProtocolError::ProviderError(text)));
    }
    let notification = match message.notification {
        None => {
            return Ok(None);
        },
        Some(notification) => notification,
    };
    let decoded = decode_base64(notification.payload.as_str());
    let spelled = match &notification.signature {
        Some(text) => signature_from_text(text.as_str()),
        None => None,
    };
    match transaction_notification_event(
        &notification,
        decoded,
        spelled,
        commitment_status.as_tx_commitment(),
        watermarks,
    ) {
        Ok(event) => Ok(Some(event)),
        Err(error) => Err(WebsocketTransactionError::Convert(error)),
    }
}

/// An account in a notification.
#[derive(Debug)]
pub struct WebsocketUiAccount {
    /// Balance.
    pub lamports: u64,
    /// Owner in base58.
    pub owner: String,
    /// Whether the account holds a program.
    pub executable: bool,
    /// Rent epoch.
    pub rent_epoch: u64,
    /// The encoded data.
    pub data: String,
    /// How it is encoded.
    pub encoding: String,
}

/// What an account notification carries.
#[derive(Debug)]
pub enum WebsocketAccountNotificationValue {
    /// The account of an account stream.
    Account(WebsocketUiAccount),
    /// An account of a program stream, with its key.
    Program {
        /// Key in base58.
        pubkey: String,
        /// The account.
        account: WebsocketUiAccount,
    },
}

/// An account notification.
#[derive(Debug)]
pub struct WebsocketAccountNotification {
    /// Slot.
    pub slot: u64,
    /// What it carries.
    pub value: WebsocketAccountNotificationValue,
}

/// A message on an account or program stream.
#[derive(Debug)]
pub struct WebsocketAccountMessage {
    /// The provider's error as JSON text.
    pub error: Option<String>,
    /// The notification, if the message is one.
    pub notification: Option<WebsocketAccountNotification>,
}

/// The account in a notification.
pub open spec fn notified_account(value: WebsocketAccountNotificationValue) -> WebsocketUiAccount {
    match value {
        WebsocketAccountNotificationValue::Account(account) => account,
        WebsocketAccountNotificationValue::Program { pubkey, account } => account,
    }
}

/// What is wrong with what a notification carries on a stream, its account aside, given what key
/// its text spells.
pub open spec fn shape_refusal(
    stream: WebsocketPrimaryStream,
    value: WebsocketAccountNotificationValue,
    spelled_key: Option<Seq<u8>>,
) -> Option<&'static str> {
    match (stream, value) {
        (WebsocketPrimaryStream::Account(_), WebsocketAccountNotificationValue::Account(_)) => None,
        (WebsocketPrimaryStream::Program(_), WebsocketAccountNotificationValue::Program { .. }) => {
            if spelled_key is None {
                Some("invalid websocket pubkey")
            } else {
                None
            }
        },
        (WebsocketPrimaryStream::Transaction, _) => Some("unexpected account payload for transaction stream"),
        _ => Some("unexpected websocket account/program payload shape"),
    }
}

/// What is wrong with an account, given what owner its text spells and what its data decodes to.
pub open spec fn account_refusal(
    account: WebsocketUiAccount,
    spelled_owner: Option<Seq<u8>>,
    decoded: Option<Seq<u8>>,
) -> Option<&'static str> {
    if spelled_owner is None {
        Some("invalid websocket pubkey")
    } else if account.encoding@ != "base64"@ {
        Some("unsupported websocket account encoding")
    } else if decoded is None {
        Some("invalid base64 account payload")
    } else {
        None
    }
}

/// The key of the account that a notification on a stream is about, given what key its text
/// spells.
pub open spec fn subject_key(stream: WebsocketPrimaryStream, spelled_key: Option<Seq<u8>>) -> Seq<u8> {
    match stream {
        WebsocketPrimaryStream::Account(key) => key@,
        _ => spelled_key->0,
    }
}

/// The key that a stream filters by.
pub open spec fn filter_key(stream: WebsocketPrimaryStream) -> Option<PubkeyBytes> {
    match stream {
        WebsocketPrimaryStream::Account(key) => Some(key),
        WebsocketPrimaryStream::Program(key) => Some(key),
        WebsocketPrimaryStream::Transaction => None,
    }
}

/// Whether `event` tells of an account what a notification says.
pub open spec fn tells_ui_account(
    event: AccountUpdateEvent,
    slot: u64,
    key: Seq<u8>,
    account: WebsocketUiAccount,
    spelled_owner: Option<Seq<u8>>,
    decoded: Option<Seq<u8>>,
    matched_filter: Option<PubkeyBytes>,
    commitment: TxCommitmentStatus,
    marks: ProviderCommitmentWatermarks,
    source: Option<ProviderSourceRef>,
) -> bool {
    &&& event.slot == slot
    &&& event.commitment_status == commitment
    &&& event.confirmed_slot == marks.confirmed_slot
    &&& event.finalized_slot == marks.finalized_slot
    &&& event.pubkey@ == key
    &&& spelled_owner == Some(event.owner@)
    &&& event.lamports == account.lamports
    &&& event.executable == account.executable
    &&& event.rent_epoch == account.rent_epoch
    &&& decoded == Some(event.data@)
    &&& event.write_version is None
    &&& event.txn_signature is None
    &&& !event.is_startup
    &&& event.matched_filter == matched_filter
    &&& event.provider_source == source
}

/// The bytes of a key that may be absent.
pub open spec fn key_view(key: Option<PubkeyBytes>) -> Option<Seq<u8>> {
    match key {
        Some(known) => Some(known@),
        None => None,
    }
}

/// Makes the event of an account from what owner its text spells and what its data decodes to.
pub fn account_notification_event(
    slot: u64,
    pubkey: PubkeyBytes,
    account: &WebsocketUiAccount,
    owner: Option<PubkeyBytes>,
    decoded: Option<Vec<u8>>,
    matched_filter: Option<PubkeyBytes>,
    commitment: TxCommitmentStatus,
    watermarks: &mut ProviderCommitmentWatermarks,
) -> (r: Result<AccountUpdateEvent, &'static str>)
    ensures
        match r {
            Ok(event) => {
                &&& account_refusal(*account, key_view(owner), bytes_view(decoded)) is None
                &&& *final(watermarks) == old(watermarks).observed(slot, commitment)
                &&& tells_ui_account(
                    event,
                    slot,
                    pubkey@,
                    *account,
                    key_view(owner),
                    bytes_view(decoded),
                    matched_filter,
                    commitment,
                    *final(watermarks),
                    None,
                )
            },
            Err(error) => {
                &&& account_refusal(*account, key_view(owner), bytes_view(decoded)) == Some(error)
                &&& *final(watermarks) == *old(watermarks)
            },
        },
{
    let owner = match owner {
        None => {
            return Err("invalid websocket pubkey");
        },
        Some(owner) => owner,
    };
    if !same_text(account.encoding.as_str(), "base64") {
        return Err("unsupported websocket account encoding");
    }
    let data = match decoded {
        None => {
            return Err("invalid base64 account payload");
        },
        Some(data) => data,
    };
    observe_non_transaction_commitment(watermarks, slot, commitment);
    Ok(
        AccountUpdateEvent {
            slot,
            commitment_status: commitment,
            confirmed_slot: watermarks.confirmed_slot,
            finalized_slot: watermarks.finalized_slot,
            pubkey,
            owner,
            lamports: account.lamports,
            executable: account.executable,
            rent_epoch: account.rent_epoch,
            data: share_bytes(data),
            write_version: None,
            txn_signature: None,
            is_startup: false,
            matched_filter,
            provider_source: None,
        },
    )
}

/// Makes the event of an account in a notification.
pub fn decode_account_update_event(
    slot: u64,
    pubkey: PubkeyBytes,
    account: &WebsocketUiAccount,
    matched_filter: Option<PubkeyBytes>,
    commitment: WebsocketTransactionCommitment,
    watermarks: &mut ProviderCommitmentWatermarks,
) -> (r: Result<AccountUpdateEvent, &'static str>)
    ensures
        ({
            let owner = spelled_pubkey(account.owner@);
            let decoded = base64_bytes(account.data@);
            match r {
                Ok(event) => {
                    &&& account_refusal(*account, owner, decoded) is None
                    &&& *final(watermarks) == old(watermarks).observed(slot, commitment.tx_commitment())
                    &&& tells_ui_account(
                        event,
                        slot,
                        pubkey@,
                        *account,
                        owner,
                        decoded,
                        matched_filter,
                        commitment.tx_commitment(),
                        *final(watermarks),
                        None,
                    )
                },
                Err(error) => {
                    &&& account_refusal(*account, owner, decoded) == Some(error)
                    &&& *final(watermarks) == *old(watermarks)
                },
            }
        }),
{
    let owner = pubkey_from_text(account.owner.as_str());
    let decoded = decode_base64(account.data.as_str());
    account_notification_event(
        slot,
        pubkey,
        account,
        owner,
        decoded,
        matched_filter,
        commitment.as_tx_commitment(),
        watermarks,
    )
}

/// The key that the text in a notification spells, if it carries one.
pub open spec fn value_key(value: WebsocketAccountNotificationValue) -> Option<Seq<u8>> {
    match value {
        WebsocketAccountNotificationValue::Account(_) => None,
        WebsocketAccountNotificationValue::Program { pubkey, account } => spelled_pubkey(pubkey@),
    }
}

/// What is wrong with an account notification on a stream.
pub open spec fn account_notification_refusal(
    stream: WebsocketPrimaryStream,
    value: WebsocketAccountNotificationValue,
) -> Option<&'static str> {
    let account = notified_account(value);
    match shape_refusal(stream, value, value_key(value)) {
        Some(error) => Some(error),
        None => account_refusal(account, spelled_pubkey(account.owner@), base64_bytes(account.data@)),
    }
}

/// Whether an error is what a message on an account or program stream is refused with.
pub open spec fn refuses_account_message(
    stream: WebsocketPrimaryStream,
    message: ReadMessage<WebsocketAccountMessage>,
    error: WebsocketTransactionError,
) -> bool {
    match message {
        Err(text) => error matches WebsocketTransactionError::Protocol(
            WebsocketProtocolError::InvalidJson(told),
        ) && told == text,
        Ok(message) => match message.error {
            Some(text) => error matches WebsocketTransactionError::Protocol(
                WebsocketProtocolError::ProviderError(told),
            ) && told == text,
            None => {
                &&& message.notification is Some
                &&& error matches WebsocketTransactionError::Convert(what) && account_notification_refusal(
                    stream,
                    message.notification->0.value,
                ) == Some(what)
            },
        },
    }
}

/// Whether a message on an account or program stream is a notification without a fault.
pub open spec fn accepts_account_message(
    stream: WebsocketPrimaryStream,
    message: ReadMessage<WebsocketAccountMessage>,
) -> bool {
    message matches Ok(inner) && inner.error is None && inner.notification is Some
        && account_notification_refusal(stream, inner.notification->0.value) is None
}

/// Whether `event` tells of the account in a notification on a stream.
pub open spec fn tells_notified_account(
    event: AccountUpdateEvent,
    stream: WebsocketPrimaryStream,
    notification: WebsocketAccountNotification,
    commitment: TxCommitmentStatus,
    marks: ProviderCommitmentWatermarks,
    source: Option<ProviderSourceRef>,
) -> bool {
    let account = notified_account(notification.value);
    tells_ui_account(
        event,
        notification.slot,
        subject_key(stream, value_key(notification.value)),
        account,
        spelled_pubkey(account.owner@),
        base64_bytes(account.data@),
        filter_key(stream),
        commitment,
        marks,
        source,
    )
}

/// Reads a message on an account or program stream: an event, nothing for a message that is no
/// notification, or an error.
pub fn parse_account_notification(
    message: ReadMessage<WebsocketAccountMessage>,
    config: &WebsocketTransactionConfig,
    watermarks: &mut ProviderCommitmentWatermarks,
) -> (r: Result<Option<AccountUpdateEvent>, WebsocketTransactionError>)
    ensures
        match r {
            Ok(Some(event)) => {
                let notification = message->Ok_0.notification->0;
                &&& accepts_account_message(config.stream, message)
                &&& *final(watermarks) == old(watermarks).observed(
                    notification.slot,
                    config.commitment.tx_commitment(),
                )
                &&& tells_notified_account(
                    event,
                    config.stream,
                    notification,
                    config.commitment.tx_commitment(),
                    *final(watermarks),
                    None,
                )
            },
            Ok(None) => {
                &&& message matches Ok(inner) && inner.error is None && inner.notification is None
                &&& *final(watermarks) == *old(watermarks)
            },
            Err(error) => {
                &&& refuses_account_message(config.stream, message, error)
                &&& *final(watermarks) == *old(watermarks)
            },
        },
{
    let message = match message {
        Err(text) => {
            return Err(WebsocketTransactionError::Protocol(WebsocketProtocolError::InvalidJson(text)));
        },
        Ok(message) => message,
    };
    if let Some(text) = message.error {
        return Err(WebsocketTransactionError::Protocol(WebsocketProtocolError::ProviderError(text)));
    }
    let notification = match message.notification {
        None => {
            return Ok(None);
        },
        Some(notification) => notification,
    };
    let (pubkey, account, filter) = match (config.stream, &notification.value) {
        (WebsocketPrimaryStream::Account(key), WebsocketAccountNotificationValue::Account(account)) => (
            key,
            account,
            key,
        ),
        (
            WebsocketPrimaryStream::Program(program),
            WebsocketAccountNotificationValue::Program { pubkey, account },
        ) => match pubkey_from_text(pubkey.as_str()) {
            Some(key) => (key, account, program),
            None => {
                return Err(WebsocketTransactionError::Convert("invalid websocket pubkey"));
            },
        },
        (WebsocketPrimaryStream::Transaction, _) => {
            return Err(
                WebsocketTransactionError::Convert("unexpected account payload for transaction stream"),
            );
        },
        _ => {
            return Err(
                WebsocketTransactionError::Convert("unexpected websocket account/program payload shape"),
            );
        },
    };
    match decode_account_update_event(
        notification.slot,
        pubkey,
        account,
        Some(filter),
        config.commitment,
        watermarks,
    ) {
        Ok(event) => Ok(Some(event)),
        Err(error) => Err(WebsocketTransactionError::Convert(error)),
    }
}

/// A message on the stream of a primary source.
#[derive(Debug)]
pub enum WebsocketPrimaryMessage {
    /// A message on a transaction stream.
    Transaction(ReadMessage<WebsocketTransactionMessage>),
    /// A message on an account or program stream.
    Account(ReadMessage<WebsocketAccountMessage>),
}

/// What happened to a session. `M` is the type of its messages.
#[derive(Debug)]
pub enum WebsocketSessionEvent<M> {
    /// A ping is due.
    PingDue,
    /// The stall deadline passed.
    StallDeadlinePassed,
    /// The websocket ended.
    StreamEnded,
    /// The transport failed, with its error as text.
    TransportFailed(String),
    /// A text or binary frame arrived.
    Message {
        /// The message in it.
        message: M,
        /// When it arrived.
        at: Instant,
    },
    /// A ping arrived.
    Ping {
        /// Its payload.
        payload: Vec<u8>,
        /// When it arrived.
        at: Instant,
    },
    /// The websocket closed with a frame, given as text.
    Closed {
        /// The frame.
        frame: String,
        /// When it arrived.
        at: Instant,
    },
    /// Another frame arrived.
    OtherFrame {
        /// When it arrived.
        at: Instant,
    },
}

/// What a session does next. `E` is the type of its errors.
#[derive(Debug)]
pub enum WebsocketSessionAction<E> {
    /// Wait for the next event.
    Continue,
    /// Send an empty ping.
    SendPing,
    /// Answer a ping with its payload.
    SendPong(Vec<u8>),
    /// Put an update into the queue.
    Emit(ProviderStreamUpdate),
    /// End without an error.
    End,
    /// End with an error.
    Fail(E),
}

/// What a primary source knows across its sessions.
#[derive(Clone, Copy, Debug)]
pub struct WebsocketPrimaryState {
    /// Highest slot seen.
    pub last_seen_slot: Option<u64>,
    /// Commitment watermarks.
    pub watermarks: ProviderCommitmentWatermarks,
    /// Whether the running session is established.
    pub session_established: bool,
    /// When the running session last made progress.
    pub last_progress: Instant,
}

impl WebsocketPrimaryState {
    /// The state of a source that has seen nothing.
    pub fn new(now: Instant) -> (r: Self)
        ensures
            r.last_seen_slot is None,
            r.watermarks == (ProviderCommitmentWatermarks { confirmed_slot: None, finalized_slot: None }),
            !r.session_established,
            r.last_progress == now,
    {
        WebsocketPrimaryState {
            last_seen_slot: None,
            watermarks: ProviderCommitmentWatermarks { confirmed_slot: None, finalized_slot: None },
            session_established: false,
            last_progress: now,
        }
    }

    /// Starts a session on an acknowledged subscription, and says how it is reported and whether
    /// the gap before it is to be replayed.
    pub fn begin_session(
        &mut self,
        config: &WebsocketTransactionConfig,
        source: &ProviderSourceIdentity,
        now: Instant,
    ) -> (r: (ProviderSourceHealthEvent, bool))
        ensures
            *final(self) == (WebsocketPrimaryState {
                session_established: true,
                last_progress: now,
                ..*old(self)
            }),
            r.0.tells(
                *source,
                config.source.readiness,
                ProviderSourceHealthStatus::Healthy,
                ProviderSourceHealthReason::SubscriptionAckReceived,
                PROVIDER_SUBSCRIPTION_ACKNOWLEDGED@,
            ),
            r.1 == (config.replays_gaps() && old(self).last_seen_slot is Some),
    {
        self.session_established = true;
        self.last_progress = now;
        let event = ProviderSourceHealthEvent::about(
            source,
            config.source.readiness,
            ProviderSourceHealthStatus::Healthy,
            ProviderSourceHealthReason::SubscriptionAckReceived,
            PROVIDER_SUBSCRIPTION_ACKNOWLEDGED.to_owned(),
        );
        (event, config.replays() && self.last_seen_slot.is_some())
    }

    /// When the running session counts as stalled.
    pub fn stall_deadline(&self, config: &WebsocketTransactionConfig) -> (r: Option<Instant>)
        ensures
            stall_point(self.last_progress, config.stall_timeout, r),
    {
        stall_deadline(self.last_progress, config.stall_timeout)
    }

    /// The state after a notification of a slot.
    pub open spec fn notified(self, slot: u64, commitment: TxCommitmentStatus, at: Instant) -> Self {
        WebsocketPrimaryState {
            last_seen_slot: raised(self.last_seen_slot, slot),
            watermarks: self.watermarks.observed(slot, commitment),
            last_progress: at,
            ..self
        }
    }

    /// The state after a frame that carries no notification.
    pub open spec fn progressed(self, at: Instant) -> Self {
        WebsocketPrimaryState { last_progress: at, ..self }
    }

    /// Whether a message leads to `next` and `action`.
    pub open spec fn takes_message(
        self,
        config: WebsocketTransactionConfig,
        source: ProviderSourceIdentity,
        message: WebsocketPrimaryMessage,
        at: Instant,
        next: Self,
        action: WebsocketSessionAction<WebsocketTransactionError>,
    ) -> bool {
        let commitment = config.commitment.tx_commitment();
        match message {
            WebsocketPrimaryMessage::Transaction(message) => if config.stream is Transaction {
                if accepts_transaction_message(message) {
                    let notification = message->Ok_0.notification->0;
                    &&& next == self.notified(notification.slot, commitment, at)
                    &&& action matches WebsocketSessionAction::Emit(
                        ProviderStreamUpdate::SerializedTransaction(event),
                    ) && event.provider_source is Some && *event.provider_source->0 == source
                        && tells_serialized(
                        event,
                        notification.slot,
                        base64_bytes(notification.payload@),
                        spelled_optional(notification.signature),
                        commitment,
                        next.watermarks,
                        event.provider_source,
                    )
                } else {
                    &&& next == self.progressed(at)
                    &&& match action {
                        WebsocketSessionAction::Continue => message matches Ok(inner) && inner.error is None
                            && inner.notification is None,
                        WebsocketSessionAction::Fail(error) => refuses_transaction_message(message, error),
                        _ => false,
                    }
                }
            } else {
                &&& next == self.progressed(at)
                &&& action matches WebsocketSessionAction::Fail(WebsocketTransactionError::Convert(what))
                    && what == "unexpected websocket account/program payload shape"
            },
            WebsocketPrimaryMessage::Account(message) => if config.stream !is Transaction {
                if accepts_account_message(config.stream, message) {
                    let notification = message->Ok_0.notification->0;
                    &&& next == self.notified(notification.slot, commitment, at)
                    &&& action matches WebsocketSessionAction::Emit(
                        ProviderStreamUpdate::AccountUpdate(event),
                    ) && event.provider_source is Some && *event.provider_source->0 == source
                        && tells_notified_account(
                        event,
                        config.stream,
                        notification,
                        commitment,
                        next.watermarks,
                        event.provider_source,
                    )
                } else {
                    &&& next == self.progressed(at)
                    &&& match action {
                        WebsocketSessionAction::Continue => message matches Ok(inner) && inner.error is None
                            && inner.notification is None,
                        WebsocketSessionAction::Fail(error) => refuses_account_message(
                            config.stream,
                            message,
                            error,
                        ),
                        _ => false,
                    }
                }
            } else {
                &&& next == self.progressed(at)
                &&& action matches WebsocketSessionAction::Fail(WebsocketTransactionError::Convert(what))
                    && what == "unexpected account payload for transaction stream"
            },
        }
    }

    /// Whether an event leads to `next` and `action`.
    pub open spec fn step(
        self,
        config: WebsocketTransactionConfig,
        source: ProviderSourceIdentity,
        event: WebsocketSessionEvent<WebsocketPrimaryMessage>,
        next: Self,
        action: WebsocketSessionAction<WebsocketTransactionError>,
    ) -> bool {
        match event {
            WebsocketSessionEvent::PingDue => next == self && action is SendPing,
            WebsocketSessionEvent::StallDeadlinePassed => {
                &&& next == self
                &&& action matches WebsocketSessionAction::Fail(WebsocketTransactionError::Protocol(error))
                    && error == (WebsocketProtocolError::StreamStalled {
                    stream: config.stream.kind_of_stream(),
                })
            },
            WebsocketSessionEvent::StreamEnded => next == self && action is End,
            WebsocketSessionEvent::TransportFailed(text) => {
                &&& next == self
                &&& action matches WebsocketSessionAction::Fail(WebsocketTransactionError::Transport(told))
                    && told == text
            },
            WebsocketSessionEvent::Message { message, at } => self.takes_message(
                config,
                source,
                message,
                at,
                next,
                action,
            ),
            WebsocketSessionEvent::Ping { payload, at } => {
                &&& next == self.progressed(at)
                &&& action matches WebsocketSessionAction::SendPong(answer) && answer == payload
            },
            WebsocketSessionEvent::Closed { frame, at } => {
                &&& next == self.progressed(at)
                &&& action matches WebsocketSessionAction::Fail(WebsocketTransactionError::Protocol(error))
                    && error == WebsocketProtocolError::Closed(frame)
            },
            WebsocketSessionEvent::OtherFrame { at } => next == self.progressed(at) && action is Continue,
        }
    }

    /// Says what a session does on an event.
    pub fn on_event(
        &mut self,
        config: &WebsocketTransactionConfig,
        source: &ProviderSourceIdentity,
        event: WebsocketSessionEvent<WebsocketPrimaryMessage>,
    ) -> (r: WebsocketSessionAction<WebsocketTransactionError>)
        ensures
            old(self).step(*config, *source, event, *final(self), r),
    {
        match event {
            WebsocketSessionEvent::PingDue => WebsocketSessionAction::SendPing,
            WebsocketSessionEvent::StallDeadlinePassed => WebsocketSessionAction::Fail(
                WebsocketTransactionError::Protocol(
                    WebsocketProtocolError::StreamStalled { stream: config.stream.kind() },
                ),
            ),
            WebsocketSessionEvent::StreamEnded => WebsocketSessionAction::End,
            WebsocketSessionEvent::TransportFailed(text) => WebsocketSessionAction::Fail(
                WebsocketTransactionError::Transport(text),
            ),
            WebsocketSessionEvent::Message { message, at } => {
                self.last_progress = at;
                self.handle_primary_notification(config, source, message)
            },
            WebsocketSessionEvent::Ping { payload, at } => {
                self.last_progress = at;
                WebsocketSessionAction::SendPong(payload)
            },
            WebsocketSessionEvent::Closed { frame, at } => {
                self.last_progress = at;
                WebsocketSessionAction::Fail(
                    WebsocketTransactionError::Protocol(WebsocketProtocolError::Closed(frame)),
                )
            },
            WebsocketSessionEvent::OtherFrame { at } => {
                self.last_progress = at;
                WebsocketSessionAction::Continue
            },
        }
    }

    /// Takes a message in, and says what the session does on it.
    pub fn handle_primary_notification(
        &mut self,
        config: &WebsocketTransactionConfig,
        source: &ProviderSourceIdentity,
        message: WebsocketPrimaryMessage,
    ) -> (r: WebsocketSessionAction<WebsocketTransactionError>)
        ensures
            old(self).takes_message(
                *config,
                *source,
                message,
                old(self).last_progress,
                *final(self),
                r,
            ),
    {
        let transaction: bool = matches!(config.stream, WebsocketPrimaryStream::Transaction);
        match message {
            WebsocketPrimaryMessage::Transaction(message) => {
                if !transaction {
                    return WebsocketSessionAction::Fail(
                        WebsocketTransactionError::Convert("unexpected websocket account/program payload shape"),
                    );
                }
                match parse_transaction_notification(message, config.commitment, &mut self.watermarks) {
                    Ok(Some(event)) => {
                        self.last_seen_slot = raise(self.last_seen_slot, event.slot);
                        WebsocketSessionAction::Emit(
                            ProviderStreamUpdate::SerializedTransaction(event).with_provider_source(
                                source.clone(),
                            ),
                        )
                    },
                    Ok(None) => WebsocketSessionAction::Continue,
                    Err(error) => WebsocketSessionAction::Fail(error),
                }
            },
            WebsocketPrimaryMessage::Account(message) => {
                if transaction {
                    return WebsocketSessionAction::Fail(
                        WebsocketTransactionError::Convert("unexpected account payload for transaction stream"),
                    );
                }
                match parse_account_notification(message, config, &mut self.watermarks) {
                    Ok(Some(event)) => {
                        self.last_seen_slot = raise(self.last_seen_slot, event.slot);
                        WebsocketSessionAction::Emit(
                            ProviderStreamUpdate::AccountUpdate(event).with_provider_source(source.clone()),
                        )
                    },
                    Ok(None) => WebsocketSessionAction::Continue,
                    Err(error) => WebsocketSessionAction::Fail(error),
                }
            },
        }
    }
}

/// A log notification.
#[derive(Debug)]
pub struct WebsocketLogsNotification {
    /// Slot.
    pub slot: u64,
    /// Signature in base58.
    pub signature: String,
    /// The transaction's error as JSON text.
    pub err: Option<String>,
    /// Log lines.
    pub logs: Vec<String>,
}

/// A message on a log stream.
#[derive(Debug)]
pub struct WebsocketLogsMessage {
    /// The provider's error as JSON text.
    pub error: Option<String>,
    /// The notification, if the message is one.
    pub notification: Option<WebsocketLogsNotification>,
}

/// The key that a log filter mentions.
pub open spec fn mentioned_key(filter: WebsocketLogsFilter) -> Option<PubkeyBytes> {
    match filter {
        WebsocketLogsFilter::Mentions(key) => Some(key),
        _ => None,
    }
}

/// Whether `event` tells of a log notification what it says, given what signature its text
/// spells.
pub open spec fn tells_logs(
    event: TransactionLogEvent,
    config: WebsocketLogsConfig,
    notification: WebsocketLogsNotification,
    spelled: Option<Seq<u8>>,
) -> bool {
    &&& event.slot == notification.slot
    &&& event.commitment_status == config.commitment.tx_commitment()
    &&& spelled == Some(event.signature@)
    &&& event.err == notification.err
    &&& event.logs == notification.logs
    &&& event.matched_filter == mentioned_key(config.filter)
}

/// What is wrong with a message on a log stream, given what signature its text spells.
pub open spec fn logs_failure(
    message: ReadMessage<WebsocketLogsMessage>,
    spelled: Option<Seq<u8>>,
) -> Option<WebsocketProtocolError> {
    match message {
        Err(text) => Some(WebsocketProtocolError::InvalidJson(text)),
        Ok(message) => match message.error {
            Some(text) => Some(WebsocketProtocolError::ProviderError(text)),
            None => if message.notification is Some && spelled is None {
                Some(WebsocketProtocolError::InvalidLogSignature)
            } else {
                None
            },
        },
    }
}

/// The signature that the text in a message on a log stream spells.
pub open spec fn logs_signature(message: ReadMessage<WebsocketLogsMessage>) -> Option<Seq<u8>> {
    match message {
        Ok(WebsocketLogsMessage { error, notification: Some(notification) }) => spelled_signature(
            notification.signature@,
        ),
        _ => None,
    }
}

/// Makes the event of a log notification whose signature is known.
pub fn logs_notification_event(
    notification: WebsocketLogsNotification,
    signature: SignatureBytes,
    config: &WebsocketLogsConfig,
) -> (r: TransactionLogEvent)
    ensures
        tells_logs(r, *config, notification, Some(signature@)),
        r.provider_source is None,
{
    let matched_filter = match config.filter {
        WebsocketLogsFilter::Mentions(key) => Some(key),
        _ => None,
    };
    TransactionLogEvent {
        slot: notification.slot,
        commitment_status: config.commitment.as_tx_commitment(),
        signature,
        err: notification.err,
        logs: notification.logs,
        matched_filter,
        provider_source: None,
    }
}

/// Reads a message on a log stream: an event, nothing for a message that is no notification, or
/// an error.
pub fn parse_logs_notification(
    message: ReadMessage<WebsocketLogsMessage>,
    config: &WebsocketLogsConfig,
) -> (r: Result<Option<TransactionLogEvent>, WebsocketLogsError>)
    ensures
        match r {
            Ok(Some(event)) => {
                &&& logs_failure(message, logs_signature(message)) is None
                &&& message->Ok_0.notification is Some
                &&& tells_logs(event, *config, message->Ok_0.notification->0, logs_signature(message))
                &&& event.provider_source is None
            },
            Ok(None) => logs_failure(message, logs_signature(message)) is None && message->Ok_0.notification is None,
            Err(error) => error matches WebsocketLogsError::Protocol(inner) && logs_failure(
                message,
                logs_signature(message),
            ) == Some(inner),
        },
{
    let message = match message {
        Err(text) => {
            return Err(WebsocketLogsError::Protocol(WebsocketProtocolError::InvalidJson(text)));
        },
        Ok(message) => message,
    };
    if let Some(text) = message.error {
        return Err(WebsocketLogsError::Protocol(WebsocketProtocolError::ProviderError(text)));
    }
    let notification = match message.notification {
        None => {
            return Ok(None);
        },
        Some(notification) => notification,
    };
    match signature_from_text(notification.signature.as_str()) {
        None => Err(WebsocketLogsError::Protocol(WebsocketProtocolError::InvalidLogSignature)),
        Some(signature) => Ok(Some(logs_notification_event(notification, signature, config))),
    }
}

/// What a log source knows across its sessions.
#[derive(Clone, Copy, Debug)]
pub struct WebsocketLogsState {
    /// Whether the running session is established.
    pub session_established: bool,
    /// When the running session last made progress.
    pub last_progress: Instant,
}

impl WebsocketLogsState {
    /// The state of a source without a session.
    pub fn new(now: Instant) -> (r: Self)
        ensures
            !r.session_established,
            r.last_progress == now,
    {
        WebsocketLogsState { session_established: false, last_progress: now }
    }

    /// Starts a session on an acknowledged subscription, and says how it is reported.
    pub fn begin_session(
        &mut self,
        config: &WebsocketLogsConfig,
        source: &ProviderSourceIdentity,
        now: Instant,
    ) -> (r: ProviderSourceHealthEvent)
        ensures
            *final(self) == (WebsocketLogsState { session_established: true, last_progress: now }),
            r.tells(
                *source,
                config.source.readiness,
                ProviderSourceHealthStatus::Healthy,
                ProviderSourceHealthReason::SubscriptionAckReceived,
                PROVIDER_SUBSCRIPTION_ACKNOWLEDGED@,
            ),
    {
        self.session_established = true;
        self.last_progress = now;
        ProviderSourceHealthEvent::about(
            source,
            config.source.readiness,
            ProviderSourceHealthStatus::Healthy,
            ProviderSourceHealthReason::SubscriptionAckReceived,
            PROVIDER_SUBSCRIPTION_ACKNOWLEDGED.to_owned(),
        )
    }

    /// When the running session counts as stalled.
    pub fn stall_deadline(&self, config: &WebsocketLogsConfig) -> (r: Option<Instant>)
        ensures
            stall_point(self.last_progress, config.stall_timeout, r),
    {
        stall_deadline(self.last_progress, config.stall_timeout)
    }

    /// Whether a message leads to `action`.
    pub open spec fn takes_message(
        config: WebsocketLogsConfig,
        source: ProviderSourceIdentity,
        message: ReadMessage<WebsocketLogsMessage>,
        action: WebsocketSessionAction<WebsocketLogsError>,
    ) -> bool {
        match logs_failure(message, logs_signature(message)) {
            Some(failure) => action matches WebsocketSessionAction::Fail(WebsocketLogsError::Protocol(error))
                && error == failure,
            None => if message->Ok_0.notification is Some {
                action matches WebsocketSessionAction::Emit(ProviderStreamUpdate::TransactionLog(event))
                    && event.provider_source is Some && *event.provider_source->0 == source && tells_logs(
                    event,
                    config,
                    message->Ok_0.notification->0,
                    logs_signature(message),
                )
            } else {
                action is Continue
            },
        }
    }

    /// Whether an event leads to `next` and `action`.
    pub open spec fn step(
        self,
        config: WebsocketLogsConfig,
        source: ProviderSourceIdentity,
        event: WebsocketSessionEvent<ReadMessage<WebsocketLogsMessage>>,
        next: Self,
        action: WebsocketSessionAction<WebsocketLogsError>,
    ) -> bool {
        &&& next.session_established == self.session_established
        &&& match event {
            WebsocketSessionEvent::PingDue => next == self && action is SendPing,
            WebsocketSessionEvent::StallDeadlinePassed => {
                &&& next == self
                &&& action matches WebsocketSessionAction::Fail(WebsocketLogsError::Protocol(error))
                    && error == (WebsocketProtocolError::StreamStalled { stream: WebsocketStreamKind::Logs })
            },
            WebsocketSessionEvent::StreamEnded => next == self && action is End,
            WebsocketSessionEvent::TransportFailed(text) => {
                &&& next == self
                &&& action matches WebsocketSessionAction::Fail(WebsocketLogsError::Transport(told))
                    && told == text
            },
            WebsocketSessionEvent::Message { message, at } => {
                &&& next.last_progress == at
                &&& Self::takes_message(config, source, message, action)
            },
            WebsocketSessionEvent::Ping { payload, at } => {
                &&& next.last_progress == at
                &&& action matches WebsocketSessionAction::SendPong(answer) && answer == payload
            },
            WebsocketSessionEvent::Closed { frame, at } => {
                &&& next.last_progress == at
                &&& action matches WebsocketSessionAction::Fail(WebsocketLogsError::Protocol(error))
                    && error == WebsocketProtocolError::Closed(frame)
            },
            WebsocketSessionEvent::OtherFrame { at } => next.last_progress == at && action is Continue,
        }
    }

    /// Says what a session does on an event.
    pub fn on_event(
        &mut self,
        config: &WebsocketLogsConfig,
        source: &ProviderSourceIdentity,
        event: WebsocketSessionEvent<ReadMessage<WebsocketLogsMessage>>,
    ) -> (r: WebsocketSessionAction<WebsocketLogsError>)
        ensures
            old(self).step(*config, *source, event, *final(self), r),
    {
        match event {
            WebsocketSessionEvent::PingDue => WebsocketSessionAction::SendPing,
            WebsocketSessionEvent::StallDeadlinePassed => WebsocketSessionAction::Fail(
                WebsocketLogsError::Protocol(
                    WebsocketProtocolError::StreamStalled { stream: WebsocketStreamKind::Logs },
                ),
            ),
            WebsocketSessionEvent::StreamEnded => WebsocketSessionAction::End,
            WebsocketSessionEvent::TransportFailed(text) => WebsocketSessionAction::Fail(
                WebsocketLogsError::Transport(text),
            ),
            WebsocketSessionEvent::Message { message, at } => {
                self.last_progress = at;
                match parse_logs_notification(message, config) {
                    Ok(Some(event)) => WebsocketSessionAction::Emit(
                        ProviderStreamUpdate::TransactionLog(event).with_provider_source(source.clone()),
                    ),
                    Ok(None) => WebsocketSessionAction::Continue,
                    Err(error) => WebsocketSessionAction::Fail(error),
                }
            },
            WebsocketSessionEvent::Ping { payload, at } => {
                self.last_progress = at;
                WebsocketSessionAction::SendPong(payload)
            },
            WebsocketSessionEvent::Closed { frame, at } => {
                self.last_progress = at;
                WebsocketSessionAction::Fail(
                    WebsocketLogsError::Protocol(WebsocketProtocolError::Closed(frame)),
                )
            },
            WebsocketSessionEvent::OtherFrame { at } => {
                self.last_progress = at;
                WebsocketSessionAction::Continue
            },
        }
    }
}

/// A session never loses track: the highest slot seen and the watermarks only rise.
pub proof fn session_only_advances(
    state: WebsocketPrimaryState,
    config: WebsocketTransactionConfig,
    source: ProviderSourceIdentity,
    event: WebsocketSessionEvent<WebsocketPrimaryMessage>,
    next: WebsocketPrimaryState,
    action: WebsocketSessionAction<WebsocketTransactionError>,
)
    requires
        state.step(config, source, event, next, action),
    ensures
        at_or_above(next.last_seen_slot, state.last_seen_slot),
        at_or_above(next.watermarks.confirmed_slot, state.watermarks.confirmed_slot),
        at_or_above(next.watermarks.finalized_slot, state.watermarks.finalized_slot),
        state.watermarks.ordered() ==> next.watermarks.ordered(),
        next.session_established == state.session_established,
{
}

/// The bytes that spell a length: seven bits each, the lowest first, with the high bit on each but the
/// last.
pub open spec fn spelled_len(n: nat) -> Seq<u8> {
    if n < 128 {
        seq![n as u8]
    } else if n < 16_384 {
        seq![(128 + n % 128) as u8, (n / 128) as u8]
    } else {
        seq![(128 + n % 128) as u8, (128 + n / 128 % 128) as u8, (n / 16_384) as u8]
    }
}

/// A length is read back from the bytes that spell it, whatever follows them, and with the number of
/// these bytes. Nothing is read where the bytes end before the length does, nor from a length of more than
/// three bytes.
pub proof fn lengths_are_read_back(n: nat, rest: Seq<u8>, bytes: Seq<u8>)
    requires
        n < 128 * 16_384,
    ensures
        short_len(spelled_len(n) + rest) == Some((n, spelled_len(n).len())),
        short_len(bytes) is None <==> forall|i: int| 0 <= i < bytes.len() && i < 3 ==> #[trigger] bytes[i] >= 128,
        short_len(bytes) matches Some((count, width)) ==> 1 <= width <= 3 && width <= bytes.len() && bytes[width
            - 1] < 128,
{
    let all = spelled_len(n) + rest;
    assert(all[0] == spelled_len(n)[0]);
    if n >= 128 {
        assert(all[1] == spelled_len(n)[1]);
        if n >= 16_384 {
            assert(all[2] == spelled_len(n)[2]);
            assert(n == n % 128 + 128 * (n / 128 % 128) + 16_384 * (n / 16_384)) by {
                assert(n / 128 / 128 == n / 16_384);
            }
        }
    }
    if bytes.len() > 0 && bytes[0] >= 128 && bytes.len() > 1 && bytes[1] >= 128 && bytes.len() > 2 {
        assert(bytes[2] == bytes[2]);
    }
}

/// The first signature of a serialized transaction is the 64 bytes behind the number of its signatures,
/// whatever follows; a transaction without signatures, or too short for one, has none.
pub proof fn first_signature_is_behind_the_count(n: nat, signature: Seq<u8>, rest: Seq<u8>, payload: Seq<u8>)
    requires
        n < 128 * 16_384,
        signature.len() == 64,
    ensures
        n > 0 ==> first_signature(spelled_len(n) + signature + rest) == Some(signature),
        first_signature(spelled_len(0) + rest) is None,
        payload.len() < 65 ==> first_signature(payload) is None,
        first_signature(payload) matches Some(found) ==> found.len() == 64,
{
    let all = spelled_len(n) + signature + rest;
    assert(all =~= spelled_len(n) + (signature + rest));
    lengths_are_read_back(n, signature + rest, payload);
    lengths_are_read_back(0, rest, payload);
    let width = spelled_len(n).len() as int;
    assert(all.subrange(width, width + 64) =~= signature);
}

/// A subscription is acknowledged exactly by an answer to request one that holds a result; an answer that
/// holds an error refuses it, and so does one that cannot be read.
pub proof fn acks_answer_the_first_request(message: ReadMessage<WebsocketSubscriptionAck>)
    ensures
        acknowledges(message) <==> message is Ok && message->Ok_0.id is Some && message->Ok_0.id->0 == 1
            && message->Ok_0.has_result,
        ack_failure(message) is None <==> message is Ok && message->Ok_0.error is None,
        message matches Err(text) ==> ack_failure(message) == Some(WebsocketProtocolError::InvalidJson(text)),
        message is Ok ==> (message->Ok_0.error matches Some(text) ==> ack_failure(message) == Some(
            WebsocketProtocolError::SubscriptionError(text),
        )),
        wait_succeeds(WebsocketAckEvent::Message(message)) <==> acknowledges(message),
        wait_failure(WebsocketAckEvent::Message(message)) == ack_failure(message),
{
}

/// Waiting for the acknowledgement goes on over other frames, and fails when the time is over or the
/// connection ends.
pub proof fn waits_fail_for_a_reason(event: WebsocketAckEvent)
    ensures
        event is TimedOut ==> wait_failure(event) == Some(WebsocketProtocolError::SubscriptionAckTimeout),
        event is StreamEnded ==> wait_failure(event) == Some(
            WebsocketProtocolError::ClosedBeforeSubscriptionAck,
        ),
        event matches WebsocketAckEvent::Closed(frame) ==> wait_failure(event) == Some(
            WebsocketProtocolError::ClosedBeforeSubscriptionAckWithFrame(frame),
        ),
        event is OtherFrame ==> wait_failure(event) is None,
        !(event is Message) ==> !wait_succeeds(event),
{
}

/// A notified transaction is refused exactly if it is not in base64, by name or by content; the event of
/// one that is not holds its bytes, its slot, and its first signature, or the one that the provider spelled
/// where the bytes hold none.
pub proof fn told_bytes_are_the_received_ones(
    notification: WebsocketTransactionNotification,
    decoded: Option<Seq<u8>>,
    spelled: Option<Seq<u8>>,
    event: SerializedTransactionEvent,
    commitment: TxCommitmentStatus,
    marks: ProviderCommitmentWatermarks,
    source: Option<ProviderSourceRef>,
)
    ensures
        transaction_refusal(notification, decoded) is None <==> notification.encoding@ == "base64"@
            && decoded is Some,
        notification.encoding@ != "base64"@ ==> transaction_refusal(notification, decoded) == Some(
            "unsupported websocket transaction encoding",
        ),
        notification.encoding@ == "base64"@ && decoded is None ==> transaction_refusal(notification, decoded)
            == Some("invalid base64 transaction payload"),
        tells_serialized(event, notification.slot, decoded, spelled, commitment, marks, source) ==> {
            &&& decoded is Some && event.bytes@ == decoded->0
            &&& event.slot == notification.slot && event.commitment_status == commitment
            &&& event.confirmed_slot == marks.confirmed_slot && event.finalized_slot == marks.finalized_slot
            &&& event.provider_source == source
            &&& first_signature(decoded->0) matches Some(first) ==> event.signature is Some
                && event.signature->0@ == first
            &&& first_signature(decoded->0) is None ==> (event.signature is Some <==> spelled is Some)
            &&& first_signature(decoded->0) is None && spelled is Some ==> event.signature->0@ == spelled->0
        },
{
}

/// An account is refused exactly if its shape is not the stream's, a key that is needed cannot be read, or
/// its data is not in base64, by name or by content; in this order.
pub proof fn notified_accounts_are_refused_for_a_reason(
    stream: WebsocketPrimaryStream,
    value: WebsocketAccountNotificationValue,
)
    ensures
        ({
            let told = account_notification_refusal(stream, value);
            let account = if value is Account {
                value->Account_0
            } else {
                value->account
            };
            let fits = (stream is Account && value is Account) || (stream is Program && value is Program);
            let keyed = value is Account || spelled_pubkey(value->pubkey@) is Some;
            let owned = spelled_pubkey(account.owner@) is Some;
            &&& told is None <==> fits && keyed && owned && account.encoding@ == "base64"@ && base64_bytes(
                account.data@,
            ) is Some
            &&& stream is Transaction ==> told == Some("unexpected account payload for transaction stream")
            &&& !(stream is Transaction) && !fits ==> told == Some(
                "unexpected websocket account/program payload shape",
            )
            &&& fits && !(keyed && owned) ==> told == Some("invalid websocket pubkey")
            &&& fits && keyed && owned && account.encoding@ != "base64"@ ==> told == Some(
                "unsupported websocket account encoding",
            )
            &&& fits && keyed && owned && account.encoding@ == "base64"@ && base64_bytes(account.data@) is None
                ==> told == Some("invalid base64 account payload")
        }),
{
}

/// An account that is not refused is told as it came: under the key that was subscribed to on a stream of
/// one account, under its own on a stream of a program, and in both cases with the key of the stream as
/// the filter that it matched.
pub proof fn told_account_is_the_notified_one(
    event: AccountUpdateEvent,
    stream: WebsocketPrimaryStream,
    notification: WebsocketAccountNotification,
    commitment: TxCommitmentStatus,
    marks: ProviderCommitmentWatermarks,
    source: Option<ProviderSourceRef>,
)
    requires
        account_notification_refusal(stream, notification.value) is None,
        tells_notified_account(event, stream, notification, commitment, marks, source),
    ensures
        stream matches WebsocketPrimaryStream::Account(key) ==> event.pubkey@ == key@ && event.matched_filter
            == Some(key),
        stream matches WebsocketPrimaryStream::Program(key) ==> event.matched_filter == Some(key)
            && spelled_pubkey(notification.value->pubkey@) == Some(event.pubkey@),
        ({
            let account = if notification.value is Account {
                notification.value->Account_0
            } else {
                notification.value->account
            };
            &&& spelled_pubkey(account.owner@) == Some(event.owner@)
            &&& base64_bytes(account.data@) == Some(event.data@)
            &&& event.lamports == account.lamports && event.executable == account.executable
            &&& event.rent_epoch == account.rent_epoch
        }),
        event.slot == notification.slot && event.commitment_status == commitment,
        event.confirmed_slot == marks.confirmed_slot && event.finalized_slot == marks.finalized_slot,
        event.provider_source == source,
        event.write_version is None && event.txn_signature is None && !event.is_startup,
{
}

/// A session hands on what its stream is for and nothing else, marked with its source. It answers a ping
/// with what the ping held, ends when the stream does, and fails when the connection fails, closes or
/// stalls. Only a message that is handed on moves the slot and the watermarks.
pub proof fn sessions_hand_on_their_stream(
    state: WebsocketPrimaryState,
    config: WebsocketTransactionConfig,
    source: ProviderSourceIdentity,
    event: WebsocketSessionEvent<WebsocketPrimaryMessage>,
    next: WebsocketPrimaryState,
    action: WebsocketSessionAction<WebsocketTransactionError>,
)
    requires
        state.step(config, source, event, next, action),
    ensures
        action matches WebsocketSessionAction::Emit(update) ==> {
            &&& event is Message
            &&& config.stream is Transaction <==> update is SerializedTransaction
            &&& !(config.stream is Transaction) <==> update is AccountUpdate
            &&& update is SerializedTransaction ==> {
                let told = update->SerializedTransaction_0;
                &&& told.provider_source is Some && *told.provider_source->0 == source
                &&& next.last_seen_slot is Some && next.last_seen_slot->0 >= told.slot
                &&& told.confirmed_slot == next.watermarks.confirmed_slot
            }
            &&& update is AccountUpdate ==> {
                let told = update->AccountUpdate_0;
                &&& told.provider_source is Some && *told.provider_source->0 == source
                &&& next.last_seen_slot is Some && next.last_seen_slot->0 >= told.slot
                &&& told.confirmed_slot == next.watermarks.confirmed_slot
            }
        },
        !(action is Emit) ==> next.last_seen_slot == state.last_seen_slot && next.watermarks
            == state.watermarks,
        action is Emit && config.commitment is Processed ==> next.watermarks == state.watermarks,
        action is Emit && !(config.commitment is Processed) ==> next.watermarks.confirmed_slot is Some,
        action is Emit && !(config.commitment is Finalized) ==> next.watermarks.finalized_slot
            == state.watermarks.finalized_slot,
        action is End <==> event is StreamEnded,
        action is SendPing <==> event is PingDue,
        action is SendPong <==> event is Ping,
        event matches WebsocketSessionEvent::Ping { payload, at } ==> action->SendPong_0 == payload
            && next.last_progress == at,
        event matches WebsocketSessionEvent::Message { message, at } ==> next.last_progress == at,
        event matches WebsocketSessionEvent::OtherFrame { at } ==> next.last_progress == at && action is Continue,
        event is StallDeadlinePassed || event is TransportFailed || event is Closed ==> action is Fail,
        event is StallDeadlinePassed ==> action->Fail_0 is Protocol && action->Fail_0->Protocol_0 == (
        WebsocketProtocolError::StreamStalled { stream: config.stream.kind_of_stream() }),
        event matches WebsocketSessionEvent::TransportFailed(text) ==> action->Fail_0 is Transport
            && action->Fail_0->Transport_0 == text,
        event matches WebsocketSessionEvent::Closed { frame, at } ==> action->Fail_0 is Protocol
            && action->Fail_0->Protocol_0 == WebsocketProtocolError::Closed(frame),
{
}

/// A message that is neither an error nor a notification is passed over. An error of the provider fails the
/// session with its text, and so does a message that cannot be read; a notification is handed on exactly
/// if nothing refuses it, and fails the session otherwise.
pub proof fn messages_are_read_in_turn(
    state: WebsocketPrimaryState,
    config: WebsocketTransactionConfig,
    source: ProviderSourceIdentity,
    message: ReadMessage<WebsocketTransactionMessage>,
    at: Instant,
    next: WebsocketPrimaryState,
    action: WebsocketSessionAction<WebsocketTransactionError>,
)
    requires
        config.stream is Transaction,
        state.takes_message(config, source, WebsocketPrimaryMessage::Transaction(message), at, next, action),
    ensures
        message matches Err(text) ==> action is Fail && action->Fail_0 is Protocol && action->Fail_0->Protocol_0
            == WebsocketProtocolError::InvalidJson(text),
        message is Ok ==> (message->Ok_0.error matches Some(text) ==> action is Fail
            && action->Fail_0 is Protocol && action->Fail_0->Protocol_0 == WebsocketProtocolError::ProviderError(
            text,
        )),
        action is Continue <==> message is Ok && message->Ok_0.error is None
            && message->Ok_0.notification is None,
        action is Emit <==> message is Ok && message->Ok_0.error is None && message->Ok_0.notification is Some
            && message->Ok_0.notification->0.encoding@ == "base64"@ && base64_bytes(
            message->Ok_0.notification->0.payload@,
        ) is Some,
        action is Emit ==> action->Emit_0->SerializedTransaction_0.slot == message->Ok_0.notification->0.slot
            && base64_bytes(message->Ok_0.notification->0.payload@) == Some(
            action->Emit_0->SerializedTransaction_0.bytes@,
        ),
{
}

/// A log session hands each notification on as it came, with the key that it asked for; it fails where the
/// message cannot be read, tells an error, or spells a signature that cannot be read.
pub proof fn logs_are_handed_on(
    config: WebsocketLogsConfig,
    source: ProviderSourceIdentity,
    message: ReadMessage<WebsocketLogsMessage>,
    action: WebsocketSessionAction<WebsocketLogsError>,
)
    requires
        WebsocketLogsState::takes_message(config, source, message, action),
    ensures
        message matches Err(text) ==> action is Fail && action->Fail_0 is Protocol && action->Fail_0->Protocol_0
            == WebsocketProtocolError::InvalidJson(text),
        message is Ok ==> (message->Ok_0.error matches Some(text) ==> action is Fail
            && action->Fail_0 is Protocol && action->Fail_0->Protocol_0 == WebsocketProtocolError::ProviderError(
            text,
        )),
        action is Continue <==> message is Ok && message->Ok_0.error is None
            && message->Ok_0.notification is None,
        action is Emit <==> message is Ok && message->Ok_0.error is None && message->Ok_0.notification is Some
            && spelled_signature(message->Ok_0.notification->0.signature@) is Some,
        action matches WebsocketSessionAction::Emit(update) ==> {
            let told = update->TransactionLog_0;
            let notification = message->Ok_0.notification->0;
            &&& update is TransactionLog
            &&& told.slot == notification.slot && told.err == notification.err && told.logs == notification.logs
            &&& spelled_signature(notification.signature@) == Some(told.signature@)
            &&& config.filter matches WebsocketLogsFilter::Mentions(key) ==> told.matched_filter == Some(key)
            &&& !(config.filter is Mentions) ==> told.matched_filter is None
            &&& told.provider_source is Some && *told.provider_source->0 == source
            &&& config.commitment is Processed <==> told.commitment_status is Processed
            &&& config.commitment is Finalized <==> told.commitment_status is Finalized
        },
{
}

/// A log session answers a ping with what the ping held, ends when the stream does, and fails when the
/// connection fails, closes or stalls.
pub proof fn log_sessions_react_to_frames(
    state: WebsocketLogsState,
    config: WebsocketLogsConfig,
    source: ProviderSourceIdentity,
    event: WebsocketSessionEvent<ReadMessage<WebsocketLogsMessage>>,
    next: WebsocketLogsState,
    action: WebsocketSessionAction<WebsocketLogsError>,
)
    requires
        state.step(config, source, event, next, action),
    ensures
        action is Emit ==> event is Message,
        action is End <==> event is StreamEnded,
        action is SendPing <==> event is PingDue,
        action is SendPong <==> event is Ping,
        event matches WebsocketSessionEvent::Ping { payload, at } ==> action->SendPong_0 == payload
            && next.last_progress == at,
        event matches WebsocketSessionEvent::Message { message, at } ==> next.last_progress == at,
        event is PingDue || event is StreamEnded || event is StallDeadlinePassed || event is TransportFailed
            ==> next == state,
        event is StallDeadlinePassed || event is TransportFailed || event is Closed ==> action is Fail,
        event is StallDeadlinePassed ==> action->Fail_0 is Protocol && action->Fail_0->Protocol_0 == (
        WebsocketProtocolError::StreamStalled { stream: WebsocketStreamKind::Logs }),
        event matches WebsocketSessionEvent::TransportFailed(text) ==> action->Fail_0 is Transport
            && action->Fail_0->Transport_0 == text,
{
}

} // verus!
