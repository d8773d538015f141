//! Replaying the gap that a reconnect leaves, block by block over HTTP.
use crate::bytes::{
    base64_bytes, decode_base64, has_key, pubkey_base58, pubkey_text, same_bytes, PubkeyBytes,
    SignatureBytes,
};
use crate::event::TxKind;
use crate::framework::TransactionEvent;
use crate::json::{
    are_members, call_json, json_call, json_object, json_pair, json_single, json_text, push_member,
    Json, JsonValue,
};
use crate::provider_stream::grpc::signature_view;
use crate::provider_stream::source::ProviderSourceIdentity;
use crate::provider_stream::update::ProviderStreamUpdate;
use crate::provider_stream::watermarks::{raise, raised, ProviderCommitmentWatermarks};
use crate::provider_stream::websocket::session::WebsocketPrimaryState;
use crate::provider_stream::websocket::{
    encoding_members, websocket_http_endpoint, WebsocketProtocolError,
    WebsocketTransactionCommitment, WebsocketTransactionConfig, WebsocketTransactionError,
};
use crate::text::{joined, same_text};
use crate::transaction::{
    classify_provider_transaction_kind, decode_transaction, decoded_transaction, kind_of,
    TransactionView, VersionedTransaction,
};
use std::sync::Arc;
use vstd::prelude::*;

verus! {

/// The first slot to replay: the last one seen, or the first of the last `replay_max_slots`
/// slots up to the head, whichever is later. At least the head itself is replayed.
pub open spec fn replay_first_slot(previous_slot: u64, head: u64, replay_max_slots: u64) -> u64 {
    let most = if replay_max_slots == 0 {
        1int
    } else {
        replay_max_slots as int
    };
    let end = if head == u64::MAX {
        head as int
    } else {
        head + 1
    };
    let bound = if end >= most {
        end - most
    } else {
        0
    };
    if bound > previous_slot {
        bound as u64
    } else {
        previous_slot
    }
}

/// Says where to start the replay.
pub fn websocket_replay_start_slot(previous_slot: u64, head: u64, replay_max_slots: u64) -> (r: u64)
    ensures
        r == replay_first_slot(previous_slot, head, replay_max_slots),
{
    let most: u64 = if replay_max_slots == 0 {
        1
    } else {
        replay_max_slots
    };
    let bound: u64 = head.saturating_add(1).saturating_sub(most);
    if bound > previous_slot {
        bound
    } else {
        previous_slot
    }
}

/// The last slot seen is replayed once more unless the bound on replayed slots forbids it, the
/// replay never goes back behind it, and it covers no more slots than the bound allows.
pub proof fn replay_is_bounded(previous_slot: u64, head: u64, replay_max_slots: u64)
    requires
        previous_slot <= head,
        head < u64::MAX,
    ensures
        previous_slot <= replay_first_slot(previous_slot, head, replay_max_slots) <= head,
        head - previous_slot < replay_max_slots ==> replay_first_slot(previous_slot, head, replay_max_slots)
            == previous_slot,
        replay_max_slots > 0 ==> head - replay_first_slot(previous_slot, head, replay_max_slots)
            < replay_max_slots,
        replay_max_slots > 0 && head - previous_slot >= replay_max_slots ==> head - replay_first_slot(
            previous_slot,
            head,
            replay_max_slots,
        ) + 1 == replay_max_slots,
        replay_max_slots == 0 ==> replay_first_slot(previous_slot, head, replay_max_slots) == head,
{
}

/// The slots that are left to replay.
#[derive(Clone, Copy, Debug, PartialEq, Eq, Structural)]
pub struct ReplayCursor {
    /// The next slot, none when the replay is over.
    pub next: Option<u64>,
    /// The last slot.
    pub head: u64,
}

impl ReplayCursor {
    /// Whether a slot is still to be replayed.
    pub open spec fn has_left(self, slot: u64) -> bool {
        self.next is Some && self.next->0 <= slot && (slot <= self.head || slot == self.next->0)
    }

    /// Hands out the next slot.
    pub fn next_slot(&mut self) -> (r: Option<u64>)
        ensures
            r is None ==> forall|slot: u64| !#[trigger] old(self).has_left(slot),
            r is Some ==> old(self).has_left(r->0) && forall|slot: u64| #[trigger]
                old(self).has_left(slot) ==> r->0 <= slot,
            forall|slot: u64| #[trigger]
                final(self).has_left(slot) <==> old(self).has_left(slot) && r != Some(slot),
            r == old(self).next,
            final(self).head == old(self).head,
            final(self).next == match old(self).next {
                Some(slot) => if slot < old(self).head {
                    Some((slot + 1) as u64)
                } else {
                    None
                },
                None => None,
            },
    {
        let current = self.next;
        if let Some(slot) = current {
            if slot < self.head {
                self.next = Some(slot + 1);
            } else {
                self.next = None;
            }
        }
        current
    }
}

/// The HTTP endpoint to replay a gap from: none where no slot was seen, an error where there is
/// no endpoint.
pub fn replay_endpoint(config: &WebsocketTransactionConfig, last_seen_slot: Option<u64>) -> (r: Result<
    Option<String>,
    WebsocketTransactionError,
>)
    ensures
        match r {
            Ok(None) => last_seen_slot is None,
            Ok(Some(endpoint)) => last_seen_slot is Some && config.replay_endpoint() == Some(endpoint@),
            Err(error) => {
                &&& last_seen_slot is Some
                &&& config.replay_endpoint() is None
                &&& error matches WebsocketTransactionError::Protocol(inner)
                    && inner is MissingReplayHttpEndpoint
            },
        },
{
    if last_seen_slot.is_none() {
        return Ok(None);
    }
    match websocket_http_endpoint(config) {
        Some(endpoint) => Ok(Some(endpoint)),
        None => Err(
            WebsocketTransactionError::Protocol(WebsocketProtocolError::MissingReplayHttpEndpoint),
        ),
    }
}

/// The slots to replay, once the head is known: none where the head lies behind the last slot
/// seen.
pub fn replay_slots(config: &WebsocketTransactionConfig, last_seen_slot: Option<u64>, head: u64) -> (r: ReplayCursor)
    ensures
        r.head == head,
        match last_seen_slot {
            Some(previous) if head >= previous => r.next == Some(
                replay_first_slot(previous, head, config.replay_max_slots),
            ),
            _ => r.next is None,
        },
{
    match last_seen_slot {
        Some(previous) => {
            if head >= previous {
                ReplayCursor {
                    next: Some(websocket_replay_start_slot(previous, head, config.replay_max_slots)),
                    head,
                }
            } else {
                ReplayCursor { next: None, head }
            }
        },
        None => ReplayCursor { next: None, head },
    }
}

/// The request for the newest slot.
pub open spec fn get_slot_json(commitment: WebsocketTransactionCommitment) -> Json {
    call_json(
        "getSlot"@,
        Json::Array(
            seq![
                Json::Object(
                    Seq::<(Seq<char>, Json)>::empty().push(("commitment"@, Json::Text(commitment.label()@))),
                ),
            ],
        ),
    )
}

/// Makes the request for the newest slot.
pub fn get_slot_request(commitment: WebsocketTransactionCommitment) -> (r: JsonValue)
    ensures
        r.is_json(get_slot_json(commitment)),
{
    let ghost m0 = Seq::<(Seq<char>, Json)>::empty();
    let mut members: Vec<(String, JsonValue)> = Vec::new();
    assert(are_members(members@, m0));
    push_member(&mut members, "commitment", json_text(commitment.as_str()));
    let ghost m1 = m0.push(("commitment"@, Json::Text(commitment.label()@)));
    assert(are_members(members@, m1));
    let settings = json_object(members);
    assert(settings.is_json(Json::Object(m1)));
    let params = json_single(settings);
    assert(params.is_json(Json::Array(seq![Json::Object(m1)])));
    json_call("getSlot", params)
}

/// The request for a block.
pub open spec fn get_block_json(slot: u64, commitment: WebsocketTransactionCommitment) -> Json {
    call_json(
        "getBlock"@,
        Json::Array(
            seq![
                Json::Number(slot),
                Json::Object(
                    encoding_members(commitment).push(("transactionDetails"@, Json::Text("full"@))).push(
                        ("maxSupportedTransactionVersion"@, Json::Number(0)),
                    ).push(("rewards"@, Json::Bool(false))),
                ),
            ],
        ),
    )
}

/// Makes the request for a block.
pub fn get_block_request(slot: u64, commitment: WebsocketTransactionCommitment) -> (r: JsonValue)
    ensures
        r.is_json(get_block_json(slot, commitment)),
{
    let ghost m0 = Seq::<(Seq<char>, Json)>::empty();
    let mut members: Vec<(String, JsonValue)> = Vec::new();
    assert(are_members(members@, m0));
    push_member(&mut members, "commitment", json_text(commitment.as_str()));
    let ghost m1 = m0.push(("commitment"@, Json::Text(commitment.label()@)));
    assert(are_members(members@, m1));
    push_member(&mut members, "encoding", json_text("base64"));
    let ghost m2 = m1.push(("encoding"@, Json::Text("base64"@)));
    assert(are_members(members@, m2));
    push_member(&mut members, "transactionDetails", json_text("full"));
    let ghost m3 = m2.push(("transactionDetails"@, Json::Text("full"@)));
    assert(are_members(members@, m3));
    let version = JsonValue::Number(0);
    assert(version.is_json(Json::Number(0)));
    push_member(&mut members, "maxSupportedTransactionVersion", version);
    let ghost m4 = m3.push(("maxSupportedTransactionVersion"@, Json::Number(0)));
    assert(are_members(members@, m4));
    let rewards = JsonValue::Bool(false);
    assert(rewards.is_json(Json::Bool(false)));
    push_member(&mut members, "rewards", rewards);
    let ghost m5 = m4.push(("rewards"@, Json::Bool(false)));
    assert(are_members(members@, m5));
    let settings = json_object(members);
    assert(settings.is_json(Json::Object(m5)));
    let number = JsonValue::Number(slot);
    assert(number.is_json(Json::Number(slot)));
    let params = json_pair(number, settings);
    assert(params.is_json(Json::Array(seq![Json::Number(slot), Json::Object(m5)])));
    json_call("getBlock", params)
}

/// How an HTTP call ended.
#[derive(Debug)]
pub enum RpcOutcome<T> {
    /// The call failed, with its error as text.
    Failed(String),
    /// The answer could not be read, with the error as text.
    Unreadable(String),
    /// The answer.
    Answer {
        /// The result.
        result: Option<T>,
        /// The provider's error as JSON text.
        error: Option<String>,
    },
}

/// What is wrong with how a call of `method` ended, a missing result aside.
pub open spec fn tells_rpc_failure<T>(
    outcome: RpcOutcome<T>,
    method: &'static str,
    failure: WebsocketProtocolError,
) -> bool {
    match outcome {
        RpcOutcome::Failed(text) => failure == (WebsocketProtocolError::HttpRpcFailed { method, detail: text }),
        RpcOutcome::Unreadable(text) => failure == (WebsocketProtocolError::HttpRpcDecodeFailed {
            method,
            detail: text,
        }),
        RpcOutcome::Answer { result, error: Some(text) } => failure
            matches WebsocketProtocolError::HttpRpcFailed { method: told, detail } && told == method && detail@
            == "returned error: "@ + text@,
        RpcOutcome::Answer { result, error: None } => false,
    }
}

/// The result of a call of `method`, if it ended well.
pub fn rpc_result<T>(outcome: RpcOutcome<T>, method: &'static str) -> (r: Result<
    Option<T>,
    WebsocketProtocolError,
>)
    ensures
        match r {
            Ok(found) => outcome matches RpcOutcome::Answer { result, error } && error is None && found == result,
            Err(failure) => tells_rpc_failure(outcome, method, failure),
        },
{
    match outcome {
        RpcOutcome::Failed(text) => Err(WebsocketProtocolError::HttpRpcFailed { method, detail: text }),
        RpcOutcome::Unreadable(text) => Err(
            WebsocketProtocolError::HttpRpcDecodeFailed { method, detail: text },
        ),
        RpcOutcome::Answer { result, error } => match error {
            Some(text) => Err(
                WebsocketProtocolError::HttpRpcFailed {
                    method,
                    detail: joined("returned error: ", text.as_str()),
                },
            ),
            None => Ok(result),
        },
    }
}

/// The newest slot, from how the call for it ended.
pub fn rpc_get_slot(outcome: RpcOutcome<u64>) -> (r: Result<u64, WebsocketTransactionError>)
    ensures
        match r {
            Ok(slot) => outcome matches RpcOutcome::Answer { result, error } && error is None && result == Some(
                slot,
            ),
            Err(error) => error matches WebsocketTransactionError::Protocol(failure) && match outcome {
                RpcOutcome::Answer { result, error: None } => {
                    &&& result is None
                    &&& failure == (WebsocketProtocolError::HttpRpcMissingResult { method: "getSlot" })
                },
                _ => tells_rpc_failure(outcome, "getSlot", failure),
            },
        },
{
    match rpc_result(outcome, "getSlot") {
        Ok(Some(slot)) => Ok(slot),
        Ok(None) => Err(
            WebsocketTransactionError::Protocol(
                WebsocketProtocolError::HttpRpcMissingResult { method: "getSlot" },
            ),
        ),
        Err(failure) => Err(WebsocketTransactionError::Protocol(failure)),
    }
}

/// Addresses that a transaction loaded from tables, in base58.
#[derive(Debug)]
pub struct RpcLoadedAddresses {
    /// Writable ones.
    pub writable: Vec<String>,
    /// Read-only ones.
    pub readonly: Vec<String>,
}

/// Whether a list of texts holds a text.
pub open spec fn lists(texts: Seq<String>, text: Seq<char>) -> bool {
    exists|i: int| 0 <= i < texts.len() && (#[trigger] texts[i])@ == text
}

fn has_text(texts: &Vec<String>, text: &str) -> (r: bool)
    ensures
        r == lists(texts@, text@),
{
    let mut i: usize = 0;
    while i < texts.len()
        invariant
            i <= texts@.len(),
            forall|j: int| 0 <= j < i ==> (#[trigger] texts@[j])@ != text@,
        decreases texts@.len() - i,
    {
        if same_text(texts[i].as_str(), text) {
            assert(texts@[i as int]@ == text@);
            return true;
        }
        i += 1;
    }
    false
}

impl RpcLoadedAddresses {
    /// Whether a key, given in base58, was loaded.
    pub open spec fn holds(self, text: Seq<char>) -> bool {
        lists(self.writable@, text) || lists(self.readonly@, text)
    }

    /// Says whether a key was loaded.
    pub fn contains(&self, key: &PubkeyBytes) -> (r: bool)
        ensures
            r == self.holds(pubkey_base58(key@)),
    {
        let target = pubkey_text(key);
        has_text(&self.writable, target.as_str()) || has_text(&self.readonly, target.as_str())
    }
}

/// A transaction in a block.
#[derive(Debug)]
pub struct RpcBlockTransaction {
    /// The transaction in base64.
    pub payload: String,
    /// Whether its meta data carries an error.
    pub failed: bool,
    /// Addresses that it loaded.
    pub loaded_addresses: Option<RpcLoadedAddresses>,
}

/// Whether a transaction involves a key: listed in its message, or loaded.
pub open spec fn involves(
    keys: Seq<Seq<u8>>,
    loaded: Option<RpcLoadedAddresses>,
    key: PubkeyBytes,
) -> bool {
    ||| exists|i: int| 0 <= i < keys.len() && #[trigger] keys[i] == key@
    ||| loaded is Some && loaded->0.holds(pubkey_base58(key@))
}

/// Whether a transaction passes the filters of a config.
pub open spec fn passes_filter(
    config: WebsocketTransactionConfig,
    tx: TransactionView,
    loaded: Option<RpcLoadedAddresses>,
    kind: TxKind,
    failed: bool,
) -> bool {
    let keys = tx.message.account_keys;
    &&& config.signature is Some ==> tx.signatures.len() > 0 && tx.signatures[0] == config.signature->0@
    &&& config.vote is Some ==> (kind == TxKind::VoteOnly) == config.vote->0
    &&& config.failed is Some ==> failed == config.failed->0
    &&& config.account_include@.len() > 0 ==> exists|i: int|
        0 <= i < config.account_include@.len() && involves(keys, loaded, #[trigger] config.account_include@[i])
    &&& !exists|i: int|
        0 <= i < config.account_exclude@.len() && involves(keys, loaded, #[trigger] config.account_exclude@[i])
    &&& forall|i: int|
        0 <= i < config.account_required@.len() ==> involves(
            keys,
            loaded,
            #[trigger] config.account_required@[i],
        )
}

fn key_present(tx: &VersionedTransaction, loaded: Option<&RpcLoadedAddresses>, key: &PubkeyBytes) -> (r: bool)
    ensures
        r == involves(tx@.message.account_keys, loaded_view(loaded), *key),
{
    let ghost keys = tx@.message.account_keys;
    assert(forall|i: int| 0 <= i < keys.len() ==> #[trigger] keys[i] == tx.message.account_keys@[i]@);
    if has_key(tx.message.account_keys.as_slice(), key) {
        proof {
            let i = choose|i: int|
                0 <= i < tx.message.account_keys@.len() && #[trigger] tx.message.account_keys@[i]@ == key@;
            assert(keys[i] == key@);
        }
        return true;
    }
    match loaded {
        Some(addresses) => addresses.contains(key),
        None => false,
    }
}

/// Loaded addresses behind a reference that may be absent.
pub open spec fn loaded_view(loaded: Option<&RpcLoadedAddresses>) -> Option<RpcLoadedAddresses> {
    match loaded {
        Some(addresses) => Some(*addresses),
        None => None,
    }
}

fn some_present(
    tx: &VersionedTransaction,
    loaded: Option<&RpcLoadedAddresses>,
    keys: &Vec<PubkeyBytes>,
) -> (r: bool)
    ensures
        r == exists|i: int|
            0 <= i < keys@.len() && involves(
                tx@.message.account_keys,
                loaded_view(loaded),
                #[trigger] keys@[i],
            ),
{
    let mut i: usize = 0;
    while i < keys.len()
        invariant
            i <= keys@.len(),
            forall|j: int|
                0 <= j < i ==> !involves(tx@.message.account_keys, loaded_view(loaded), #[trigger] keys@[j]),
        decreases keys@.len() - i,
    {
        if key_present(tx, loaded, &keys[i]) {
            assert(involves(tx@.message.account_keys, loaded_view(loaded), keys@[i as int]));
            return true;
        }
        i += 1;
    }
    false
}

fn all_present(
    tx: &VersionedTransaction,
    loaded: Option<&RpcLoadedAddresses>,
    keys: &Vec<PubkeyBytes>,
) -> (r: bool)
    ensures
        r == forall|i: int|
            0 <= i < keys@.len() ==> involves(
                tx@.message.account_keys,
                loaded_view(loaded),
                #[trigger] keys@[i],
            ),
{
    let mut i: usize = 0;
    while i < keys.len()
        invariant
            i <= keys@.len(),
            forall|j: int|
                0 <= j < i ==> involves(tx@.message.account_keys, loaded_view(loaded), #[trigger] keys@[j]),
        decreases keys@.len() - i,
    {
        if !key_present(tx, loaded, &keys[i]) {
            assert(!involves(tx@.message.account_keys, loaded_view(loaded), keys@[i as int]));
            return false;
        }
        i += 1;
    }
    true
}

/// Says whether a transaction passes the filters of a config.
pub fn websocket_transaction_matches_filter(
    config: &WebsocketTransactionConfig,
    tx: &VersionedTransaction,
    loaded_addresses: Option<&RpcLoadedAddresses>,
    kind: TxKind,
    failed: bool,
) -> (r: bool)
    ensures
        r == passes_filter(*config, tx@, loaded_view(loaded_addresses), kind, failed),
{
    if let Some(signature) = config.signature {
        if tx.signatures.len() == 0 {
            return false;
        }
        assert(tx@.signatures[0] == tx.signatures@[0]@);
        if !same_bytes(&tx.signatures[0].0, &signature.0) {
            return false;
        }
    }
    if let Some(expect_vote) = config.vote {
        if (kind == TxKind::VoteOnly) != expect_vote {
            return false;
        }
    }
    if let Some(expect_failed) = config.failed {
        if failed != expect_failed {
            return false;
        }
    }
    if config.account_include.len() > 0 && !some_present(tx, loaded_addresses, &config.account_include) {
        return false;
    }
    if some_present(tx, loaded_addresses, &config.account_exclude) {
        return false;
    }
    all_present(tx, loaded_addresses, &config.account_required)
}

/// What is wrong with a replayed transaction, given what its payload decodes to and what
/// transaction that holds.
pub open spec fn replayed_error(decoded: Option<Seq<u8>>, has_transaction: bool) -> Option<&'static str> {
    if decoded is None {
        Some("invalid base64 transaction payload")
    } else if !has_transaction {
        Some("failed to deserialize transaction")
    } else {
        None
    }
}

/// Whether `event` tells of a replayed transaction.
pub open spec fn tells_replayed(
    event: TransactionEvent,
    slot: u64,
    tx: TransactionView,
    config: WebsocketTransactionConfig,
    marks: ProviderCommitmentWatermarks,
) -> bool {
    &&& event.slot == slot
    &&& event.commitment_status == config.commitment.tx_commitment()
    &&& event.confirmed_slot == marks.confirmed_slot
    &&& event.finalized_slot == marks.finalized_slot
    &&& signature_view(event.signature) == if tx.signatures.len() > 0 {
        Some(tx.signatures[0])
    } else {
        None
    }
    &&& event.kind == kind_of(tx.message)
    &&& (*event.tx)@ == tx
}

/// Makes the update of a replayed transaction that was decoded, if it passes the filters of the
/// config. The slot counts as seen then.
pub fn replayed_transaction_update(
    config: &WebsocketTransactionConfig,
    source: &ProviderSourceIdentity,
    slot: u64,
    tx: VersionedTransaction,
    failed: bool,
    loaded_addresses: Option<&RpcLoadedAddresses>,
    state: &mut WebsocketPrimaryState,
) -> (r: Option<ProviderStreamUpdate>)
    ensures
        ({
            let passes = passes_filter(
                *config,
                tx@,
                loaded_view(loaded_addresses),
                kind_of(tx@.message),
                failed,
            );
            match r {
                Some(update) => {
                    &&& passes
                    &&& *final(state) == (WebsocketPrimaryState {
                        last_seen_slot: raised(old(state).last_seen_slot, slot),
                        watermarks: old(state).watermarks.observed(slot, config.commitment.tx_commitment()),
                        ..*old(state)
                    })
                    &&& update matches ProviderStreamUpdate::Transaction(event) && tells_replayed(
                        event,
                        slot,
                        tx@,
                        *config,
                        final(state).watermarks,
                    ) && event.provider_source is Some && *event.provider_source->0 == *source
                },
                None => !passes && *final(state) == *old(state),
            }
        }),
{
    let kind = classify_provider_transaction_kind(&tx);
    if !websocket_transaction_matches_filter(config, &tx, loaded_addresses, kind, failed) {
        return None;
    }
    let commitment = config.commitment.as_tx_commitment();
    state.watermarks.observe_transaction_commitment(slot, commitment);
    let signature: Option<SignatureBytes> = if tx.signatures.len() > 0 {
        assert(tx@.signatures[0] == tx.signatures@[0]@);
        Some(tx.signatures[0])
    } else {
        None
    };
    let event = TransactionEvent {
        slot,
        commitment_status: commitment,
        confirmed_slot: state.watermarks.confirmed_slot,
        finalized_slot: state.watermarks.finalized_slot,
        signature,
        provider_source: None,
        kind,
        tx: Arc::new(tx),
    };
    state.last_seen_slot = raise(state.last_seen_slot, slot);
    Some(ProviderStreamUpdate::Transaction(event).with_provider_source(source.clone()))
}

/// Takes one transaction of a replayed block in: an update where it passes the filters of the
/// config, nothing where it does not, an error where it cannot be decoded.
pub fn replay_transaction(
    config: &WebsocketTransactionConfig,
    source: &ProviderSourceIdentity,
    slot: u64,
    transaction: &RpcBlockTransaction,
    state: &mut WebsocketPrimaryState,
) -> (r: Result<Option<ProviderStreamUpdate>, WebsocketTransactionError>)
    ensures
        ({
            let decoded = base64_bytes(transaction.payload@);
            let found = decoded_transaction(decoded->0);
            let passes = passes_filter(
                *config,
                found->0,
                transaction.loaded_addresses,
                kind_of(found->0.message),
                transaction.failed,
            );
            match r {
                Ok(Some(update)) => {
                    &&& replayed_error(decoded, found is Some) is None
                    &&& passes
                    &&& *final(state) == (WebsocketPrimaryState {
                        last_seen_slot: raised(old(state).last_seen_slot, slot),
                        watermarks: old(state).watermarks.observed(slot, config.commitment.tx_commitment()),
                        ..*old(state)
                    })
                    &&& update matches ProviderStreamUpdate::Transaction(event) && tells_replayed(
                        event,
                        slot,
                        found->0,
                        *config,
                        final(state).watermarks,
                    ) && event.provider_source is Some && *event.provider_source->0 == *source
                },
                Ok(None) => {
                    &&& replayed_error(decoded, found is Some) is None
                    &&& !passes
                    &&& *final(state) == *old(state)
                },
                Err(error) => {
                    &&& *final(state) == *old(state)
                    &&& error matches WebsocketTransactionError::Convert(what) && replayed_error(
                        decoded,
                        found is Some,
                    ) == Some(what)
                },
            }
        }),
{
    let bytes = match decode_base64(transaction.payload.as_str()) {
        None => {
            return Err(WebsocketTransactionError::Convert("invalid base64 transaction payload"));
        },
        Some(bytes) => bytes,
    };
    let tx = match decode_transaction(bytes.as_slice()) {
        None => {
            return Err(WebsocketTransactionError::Convert("failed to deserialize transaction"));
        },
        Some(tx) => tx,
    };
    let loaded = match &transaction.loaded_addresses {
        Some(addresses) => Some(addresses),
        None => None,
    };
    Ok(replayed_transaction_update(config, source, slot, tx, transaction.failed, loaded, state))
}

/// Whether a transaction involves one of some keys.
pub open spec fn involves_one(
    tx: TransactionView,
    loaded: Option<RpcLoadedAddresses>,
    keys: Seq<PubkeyBytes>,
) -> bool {
    exists|key: PubkeyBytes| keys.contains(key) && #[trigger] involves(tx.message.account_keys, loaded, key)
}

/// A transaction passes exactly if it involves at least one of the keys to be included, where any
/// are given, none of those to be excluded and all of those that are required, and meets what is
/// asked of its first signature, of its kind and of its outcome, each where something is asked.
pub proof fn filter_asks_for_each_condition(
    config: WebsocketTransactionConfig,
    tx: TransactionView,
    loaded: Option<RpcLoadedAddresses>,
    kind: TxKind,
    failed: bool,
)
    ensures
        passes_filter(config, tx, loaded, kind, failed) <==> {
            &&& config.account_include@.len() == 0 || involves_one(tx, loaded, config.account_include@)
            &&& !involves_one(tx, loaded, config.account_exclude@)
            &&& forall|key: PubkeyBytes|
                config.account_required@.contains(key) ==> #[trigger] involves(
                    tx.message.account_keys,
                    loaded,
                    key,
                )
            &&& config.signature is None || (tx.signatures.len() > 0 && tx.signatures[0]
                == config.signature->0@)
            &&& config.vote == Some(true) ==> kind == TxKind::VoteOnly
            &&& config.vote == Some(false) ==> kind != TxKind::VoteOnly
            &&& config.failed == Some(true) ==> failed
            &&& config.failed == Some(false) ==> !failed
        },
{
    let keys = tx.message.account_keys;
    list_involves_one(tx, loaded, config.account_include@);
    list_involves_one(tx, loaded, config.account_exclude@);
    let required = config.account_required@;
    if passes_filter(config, tx, loaded, kind, failed) {
        assert forall|key: PubkeyBytes| required.contains(key) implies #[trigger] involves(keys, loaded, key) by {
            let i = choose|i: int| 0 <= i < required.len() && required[i] == key;
            assert(involves(keys, loaded, required[i]));
        }
    }
    if forall|key: PubkeyBytes| required.contains(key) ==> #[trigger] involves(keys, loaded, key) {
        assert forall|i: int| 0 <= i < required.len() implies involves(keys, loaded, #[trigger] required[i]) by {
            assert(required.contains(required[i]));
        }
    }
}

proof fn list_involves_one(tx: TransactionView, loaded: Option<RpcLoadedAddresses>, keys: Seq<PubkeyBytes>)
    ensures
        involves_one(tx, loaded, keys) <==> exists|i: int|
            0 <= i < keys.len() && involves(tx.message.account_keys, loaded, #[trigger] keys[i]),
{
    if involves_one(tx, loaded, keys) {
        let key = choose|key: PubkeyBytes|
            keys.contains(key) && #[trigger] involves(tx.message.account_keys, loaded, key);
        let i = choose|i: int| 0 <= i < keys.len() && keys[i] == key;
        assert(involves(tx.message.account_keys, loaded, keys[i]));
    }
    if exists|i: int| 0 <= i < keys.len() && involves(tx.message.account_keys, loaded, #[trigger] keys[i]) {
        let i = choose|i: int|
            0 <= i < keys.len() && involves(tx.message.account_keys, loaded, #[trigger] keys[i]);
        assert(keys.contains(keys[i]));
    }
}

/// Whether two configs filter by the same but for their lists of accounts.
pub open spec fn filters_alike(a: WebsocketTransactionConfig, b: WebsocketTransactionConfig) -> bool {
    a.signature == b.signature && a.vote == b.vote && a.failed == b.failed
}

/// With one more key to be included, where some are given already, what passed still passes. With one
/// more key to be excluded or required, what did not pass still does not.
pub proof fn longer_lists_widen_and_narrow(
    config: WebsocketTransactionConfig,
    longer: WebsocketTransactionConfig,
    key: PubkeyBytes,
    tx: TransactionView,
    loaded: Option<RpcLoadedAddresses>,
    kind: TxKind,
    failed: bool,
)
    requires
        filters_alike(config, longer),
    ensures
        config.account_include@.len() > 0 && longer.account_include@ == config.account_include@.push(key)
            && longer.account_exclude@ == config.account_exclude@ && longer.account_required@
            == config.account_required@ && passes_filter(config, tx, loaded, kind, failed) ==> passes_filter(
            longer,
            tx,
            loaded,
            kind,
            failed,
        ),
        longer.account_include@ == config.account_include@ && longer.account_exclude@
            == config.account_exclude@.push(key) && longer.account_required@ == config.account_required@
            && passes_filter(longer, tx, loaded, kind, failed) ==> passes_filter(
            config,
            tx,
            loaded,
            kind,
            failed,
        ) && !involves(tx.message.account_keys, loaded, key),
        longer.account_include@ == config.account_include@ && longer.account_exclude@
            == config.account_exclude@ && longer.account_required@ == config.account_required@.push(key)
            && passes_filter(longer, tx, loaded, kind, failed) ==> passes_filter(
            config,
            tx,
            loaded,
            kind,
            failed,
        ) && involves(tx.message.account_keys, loaded, key),
{
    filter_asks_for_each_condition(config, tx, loaded, kind, failed);
    filter_asks_for_each_condition(longer, tx, loaded, kind, failed);
    let keys = tx.message.account_keys;
    assert forall|list: Seq<PubkeyBytes>, one: PubkeyBytes| list.contains(one) implies #[trigger] list.push(
        key,
    ).contains(one) by {
        let i = choose|i: int| 0 <= i < list.len() && list[i] == one;
        assert(list.push(key)[i] == one);
    }
    assert forall|list: Seq<PubkeyBytes>| #[trigger] list.push(key).contains(key) by {
        assert(list.push(key)[list.len() as int] == key);
    }
    if involves_one(tx, loaded, config.account_include@) {
        let one = choose|one: PubkeyBytes|
            config.account_include@.contains(one) && #[trigger] involves(keys, loaded, one);
        assert(config.account_include@.push(key).contains(one));
    }
    if involves_one(tx, loaded, config.account_exclude@) {
        let one = choose|one: PubkeyBytes|
            config.account_exclude@.contains(one) && #[trigger] involves(keys, loaded, one);
        assert(config.account_exclude@.push(key).contains(one));
    }
    assert forall|one: PubkeyBytes| config.account_required@.contains(one) implies config.account_required@.push(
        key,
    ).contains(one) by {
        assert(config.account_required@.push(key).contains(one));
    }
}

/// A transaction involves a key exactly if its message lists the key or it loaded the key, to write or
/// to read.
pub proof fn involved_keys_are_listed_or_loaded(
    keys: Seq<Seq<u8>>,
    loaded: Option<RpcLoadedAddresses>,
    key: PubkeyBytes,
)
    ensures
        involves(keys, loaded, key) <==> keys.contains(key@) || (loaded is Some && exists|i: int|
            0 <= i < loaded->0.writable@.len() && (#[trigger] loaded->0.writable@[i])@ == pubkey_base58(key@))
            || (loaded is Some && exists|i: int|
            0 <= i < loaded->0.readonly@.len() && (#[trigger] loaded->0.readonly@[i])@ == pubkey_base58(key@)),
{
}

} // verus!
