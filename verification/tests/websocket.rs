//! Websocket sources.
use base64::Engine;
use serde_json::Value;
use sof::bytes::{PubkeyBytes, SignatureBytes};
use sof::event::{TxCommitmentStatus, TxKind};
use sof::json::JsonValue;
use sof::provider_stream::fan_in::{ProviderSourceRegistry, QueueAnswer};
use sof::provider_stream::source::{
    ProviderSourceHealthReason, ProviderSourceHealthStatus, ProviderSourceId, ProviderSourceReadiness,
};
use sof::provider_stream::supervisor::{SourceAction, SourceEvent, SourceExit, SourceFailure, SourceSupervisor};
use sof::provider_stream::update::ProviderStreamUpdate;
use sof::provider_stream::watermarks::ProviderCommitmentWatermarks;
use sof::provider_stream::websocket::replay::{
    get_block_request, get_slot_request, replay_endpoint, replay_slots, replay_transaction, rpc_get_slot, rpc_result,
    websocket_replay_start_slot, websocket_transaction_matches_filter, RpcBlockTransaction, RpcLoadedAddresses,
    RpcOutcome,
};
use sof::provider_stream::websocket::session::{
    decode_short_u16_len, handle_logs_subscription_text, handle_subscription_text, parse_account_notification, parse_logs_notification,
    parse_transaction_notification, serialized_transaction_first_signature, wait_for_subscription_ack, ReadMessage,
    WebsocketAccountMessage, WebsocketAccountNotification, WebsocketAccountNotificationValue, WebsocketAckEvent,
    WebsocketLogsMessage, WebsocketLogsNotification, WebsocketLogsState, WebsocketPrimaryMessage,
    WebsocketPrimaryState, WebsocketSessionAction, WebsocketSessionEvent, WebsocketSubscriptionAck,
    WebsocketTransactionMessage, WebsocketTransactionNotification, WebsocketUiAccount,
};
use sof::provider_stream::websocket::{
    websocket_health_reason, websocket_http_endpoint, WebsocketConfigError, WebsocketConfigOption, WebsocketLogsConfig,
    WebsocketLogsError, WebsocketLogsFilter, WebsocketPrimaryStream, WebsocketProgramFilter, WebsocketProtocolError,
    WebsocketStreamKind, WebsocketTransactionCommitment, WebsocketTransactionConfig, WebsocketTransactionError,
};
use sof::provider_stream::yellowstone::{YellowstoneGrpcCommitment, YellowstoneGrpcConfig};
use sof::time::{Duration, Instant};
use sof::transaction::{classify_provider_transaction_kind, decode_transaction};

fn at(secs: u64) -> Instant {
    Instant::from_nanos(secs * 1_000_000_000)
}

fn base58(key: &PubkeyBytes) -> String {
    solana_pubkey::Pubkey::from(key.0).to_string()
}

fn base64_text(bytes: &[u8]) -> String {
    base64::engine::general_purpose::STANDARD.encode(bytes)
}

/// Reads JSON as a text would be written from it.
fn plain(value: &JsonValue) -> Value {
    match value {
        JsonValue::Null => Value::Null,
        JsonValue::Bool(flag) => Value::Bool(*flag),
        JsonValue::Number(number) => Value::from(*number),
        JsonValue::Text(text) => Value::String(text.clone()),
        JsonValue::Array(items) => Value::Array(items.iter().map(plain).collect()),
        JsonValue::Object(members) => {
            Value::Object(members.iter().map(|(name, value)| (name.clone(), plain(value))).collect())
        },
    }
}

fn error_of(value: &Value) -> Option<String> {
    value.get("error").filter(|error| !error.is_null()).map(|error| error.to_string())
}

fn read_ack(text: &str) -> ReadMessage<WebsocketSubscriptionAck> {
    let value: Value = serde_json::from_str(text).map_err(|error| error.to_string())?;
    Ok(WebsocketSubscriptionAck {
        id: value.get("id").and_then(Value::as_i64),
        has_result: value.get("result").is_some_and(|result| !result.is_null()),
        error: error_of(&value),
    })
}

fn read_transaction(text: &str) -> ReadMessage<WebsocketTransactionMessage> {
    let value: Value = serde_json::from_str(text).map_err(|error| error.to_string())?;
    let notification = value.get("params").map(|params| {
        let result = &params["result"];
        WebsocketTransactionNotification {
            slot: result["slot"].as_u64().expect("slot"),
            signature: result["signature"].as_str().map(str::to_owned),
            payload: result["transaction"]["transaction"][0].as_str().expect("payload").to_owned(),
            encoding: result["transaction"]["transaction"][1].as_str().expect("encoding").to_owned(),
        }
    });
    Ok(WebsocketTransactionMessage { error: error_of(&value), notification })
}

fn read_ui_account(value: &Value) -> WebsocketUiAccount {
    WebsocketUiAccount {
        lamports: value["lamports"].as_u64().expect("lamports"),
        owner: value["owner"].as_str().expect("owner").to_owned(),
        executable: value["executable"].as_bool().expect("executable"),
        rent_epoch: value["rentEpoch"].as_u64().expect("rent epoch"),
        data: value["data"][0].as_str().expect("data").to_owned(),
        encoding: value["data"][1].as_str().expect("encoding").to_owned(),
    }
}

fn read_account(text: &str) -> ReadMessage<WebsocketAccountMessage> {
    let value: Value = serde_json::from_str(text).map_err(|error| error.to_string())?;
    let notification = value.get("params").map(|params| {
        let result = &params["result"];
        let inner = &result["value"];
        let account = match inner.get("pubkey") {
            Some(pubkey) => WebsocketAccountNotificationValue::Program {
                pubkey: pubkey.as_str().expect("pubkey").to_owned(),
                account: read_ui_account(&inner["account"]),
            },
            None => WebsocketAccountNotificationValue::Account(read_ui_account(inner)),
        };
        WebsocketAccountNotification { slot: result["context"]["slot"].as_u64().expect("slot"), value: account }
    });
    Ok(WebsocketAccountMessage { error: error_of(&value), notification })
}

fn read_logs(text: &str) -> ReadMessage<WebsocketLogsMessage> {
    let value: Value = serde_json::from_str(text).map_err(|error| error.to_string())?;
    let notification = value.get("params").map(|params| {
        let result = &params["result"];
        let inner = &result["value"];
        WebsocketLogsNotification {
            slot: result["context"]["slot"].as_u64().expect("slot"),
            signature: inner["signature"].as_str().expect("signature").to_owned(),
            err: Some(&inner["err"]).filter(|err| !err.is_null()).map(|err| err.to_string()),
            logs: inner["logs"].as_array().expect("logs").iter().map(|log| log.as_str().expect("log").to_owned()).collect(),
        }
    });
    Ok(WebsocketLogsMessage { error: error_of(&value), notification })
}

fn sample_wire_transaction() -> solana_transaction::versioned::VersionedTransaction {
    solana_transaction::versioned::VersionedTransaction {
        signatures: vec![solana_signature::Signature::from([3_u8; 64])],
        message: solana_message::VersionedMessage::Legacy(solana_message::Message {
            header: solana_message::MessageHeader {
                num_required_signatures: 1,
                num_readonly_signed_accounts: 0,
                num_readonly_unsigned_accounts: 0,
            },
            account_keys: vec![solana_pubkey::Pubkey::from([4_u8; 32])],
            recent_blockhash: solana_hash::Hash::default(),
            instructions: vec![],
        }),
    }
}

fn sample_transaction_bytes() -> Vec<u8> {
    bincode::serialize(&sample_wire_transaction()).expect("serialize tx")
}

fn sample_notification_payload() -> String {
    format!(
        r#"{{"jsonrpc":"2.0","method":"transactionNotification","params":{{"result":{{"slot":55,"signature":"{}","transaction":{{"transaction":["{}","base64"]}}}}}}}}"#,
        sample_wire_transaction().signatures[0],
        base64_text(&sample_transaction_bytes()),
    )
}

fn logs_payload(slot: u64, signature: [u8; 64], log: &str) -> String {
    format!(
        r#"{{"jsonrpc":"2.0","method":"logsNotification","params":{{"result":{{"context":{{"slot":{slot}}},"value":{{"signature":"{}","err":null,"logs":["{log}"]}}}}}}}}"#,
        solana_signature::Signature::from(signature),
    )
}

fn account_payload(owner: &PubkeyBytes) -> String {
    format!(
        r#"{{"jsonrpc":"2.0","method":"accountNotification","params":{{"result":{{"context":{{"slot":77}},"value":{{"lamports":42,"data":["{}","base64"],"owner":"{}","executable":false,"rentEpoch":9}}}}}}}}"#,
        base64_text(&[1, 2, 3, 4]),
        base58(owner),
    )
}

fn program_payload(account: &PubkeyBytes, owner: &PubkeyBytes) -> String {
    format!(
        r#"{{"jsonrpc":"2.0","method":"programNotification","params":{{"result":{{"context":{{"slot":88}},"value":{{"pubkey":"{}","account":{{"lamports":7,"data":["{}","base64"],"owner":"{}","executable":true,"rentEpoch":11}}}}}}}}}}"#,
        base58(account),
        base64_text(&[5, 6, 7]),
        base58(owner),
    )
}

#[test]
fn websocket_filter_shape_matches_yellowstone_config() {
    let signature = SignatureBytes([7_u8; 64]);
    let included = vec![PubkeyBytes([21; 32]), PubkeyBytes([22; 32])];
    let exclude = vec![PubkeyBytes([23; 32])];
    let required = vec![PubkeyBytes([24; 32])];
    let websocket = WebsocketTransactionConfig::new("wss://example.invalid")
        .with_commitment(WebsocketTransactionCommitment::Confirmed)
        .with_vote(true)
        .with_failed(true)
        .with_signature(signature)
        .with_account_include(included.clone())
        .with_account_exclude(exclude.clone())
        .with_account_required(required.clone())
        .subscribe_request();
    let websocket = plain(&websocket);
    let yellowstone = YellowstoneGrpcConfig::new("http://127.0.0.1:10000")
        .with_commitment(YellowstoneGrpcCommitment::Confirmed)
        .with_vote(true)
        .with_failed(true)
        .with_signature(signature)
        .with_account_include(included)
        .with_account_exclude(exclude)
        .with_account_required(required)
        .subscribe_request();
    let websocket_filter = websocket["params"][0].as_object().expect("websocket filter");
    let (name, yellowstone_filter) = yellowstone.transactions.expect("ys filter");
    assert_eq!(name, "sof");
    assert_eq!(websocket["params"][1]["commitment"].as_str(), Some("confirmed"));
    assert_eq!(websocket_filter.get("vote").and_then(Value::as_bool), yellowstone_filter.vote);
    assert_eq!(websocket_filter.get("failed").and_then(Value::as_bool), yellowstone_filter.failed);
    assert_eq!(
        websocket_filter.get("signature").and_then(Value::as_str),
        yellowstone_filter.signature.as_deref()
    );
    assert_eq!(
        websocket_filter.get("accountInclude"),
        Some(&serde_json::to_value(yellowstone_filter.account_include.clone()).expect("account list"))
    );
    assert_eq!(
        websocket_filter.get("accountExclude"),
        Some(&serde_json::to_value(yellowstone_filter.account_exclude.clone()).expect("exclude json"))
    );
    assert_eq!(
        websocket_filter.get("accountRequired"),
        Some(&serde_json::to_value(yellowstone_filter.account_required.clone()).expect("required json"))
    );
}

#[test]
fn websocket_subscription_ack_accepts_successful_response() {
    let ack = read_ack(r#"{"jsonrpc":"2.0","id":1,"result":42}"#);
    assert!(handle_subscription_text(ack).expect("ack should parse"));
    let ping = read_ack(r#"{"jsonrpc":"2.0","method":"ping"}"#);
    assert!(!handle_subscription_text(ping).expect("non-ack payload"));
}

#[test]
fn websocket_subscription_ack_rejects_provider_error() {
    let text = r#"{"jsonrpc":"2.0","id":1,"error":{"code":-32000,"message":"boom"}}"#;
    let error = handle_subscription_text(read_ack(text)).expect_err("provider error should fail");
    assert!(error.to_text().contains("subscription error"));
    let error = handle_logs_subscription_text(read_ack(text)).expect_err("provider error should fail");
    assert!(error.to_text().contains("subscription error"));
}

#[test]
fn websocket_config_defaults_do_not_filter_vote_or_failed() {
    let request = plain(&WebsocketTransactionConfig::new("wss://example.invalid").subscribe_request());
    let filter = request["params"][0].as_object().expect("filter object");
    assert!(!filter.contains_key("vote"));
    assert!(!filter.contains_key("failed"));
    assert_eq!(request["jsonrpc"].as_str(), Some("2.0"));
    assert_eq!(request["id"].as_u64(), Some(1));
    assert_eq!(request["method"].as_str(), Some("transactionSubscribe"));
}

#[test]
fn websocket_logs_subscribe_request_uses_configured_filter_and_commitment() {
    let pubkey = PubkeyBytes([41; 32]);
    let request = WebsocketLogsConfig::new("wss://example.invalid")
        .with_commitment(WebsocketTransactionCommitment::Confirmed)
        .with_filter(WebsocketLogsFilter::Mentions(pubkey))
        .subscribe_request();
    let request = plain(&request);
    assert_eq!(request["method"].as_str(), Some("logsSubscribe"));
    assert_eq!(request["params"][1]["commitment"].as_str(), Some("confirmed"));
    assert_eq!(request["params"][0]["mentions"][0].as_str(), Some(base58(&pubkey).as_str()));
}

#[test]
fn websocket_account_subscribe_request_uses_configured_pubkey() {
    let pubkey = PubkeyBytes([42; 32]);
    let request = WebsocketTransactionConfig::new("wss://example.invalid")
        .with_stream(WebsocketPrimaryStream::Account(pubkey))
        .with_commitment(WebsocketTransactionCommitment::Finalized)
        .subscribe_request();
    let request = plain(&request);
    assert_eq!(request["method"].as_str(), Some("accountSubscribe"));
    assert_eq!(request["params"][0].as_str(), Some(base58(&pubkey).as_str()));
    assert_eq!(request["params"][1]["commitment"].as_str(), Some("finalized"));
    assert_eq!(request["params"][1]["encoding"].as_str(), Some("base64"));
}

#[test]
fn websocket_program_subscribe_request_uses_filters() {
    let pubkey = PubkeyBytes([43; 32]);
    let request = WebsocketTransactionConfig::new("wss://example.invalid")
        .with_stream(WebsocketPrimaryStream::Program(pubkey))
        .with_commitment(WebsocketTransactionCommitment::Confirmed)
        .with_program_filters(vec![
            WebsocketProgramFilter::DataSize(165),
            WebsocketProgramFilter::MemcmpBase58 { offset: 32, bytes: "abc123".to_owned() },
        ])
        .subscribe_request();
    let request = plain(&request);
    assert_eq!(request["method"].as_str(), Some("programSubscribe"));
    assert_eq!(request["params"][0].as_str(), Some(base58(&pubkey).as_str()));
    assert_eq!(request["params"][1]["commitment"].as_str(), Some("confirmed"));
    assert_eq!(request["params"][1]["filters"][0]["dataSize"].as_u64(), Some(165));
    assert_eq!(request["params"][1]["filters"][1]["memcmp"]["offset"].as_u64(), Some(32));
    assert_eq!(request["params"][1]["filters"][1]["memcmp"]["bytes"].as_str(), Some("abc123"));
}

#[test]
fn websocket_transaction_notification_decodes_full_transaction() {
    let mut watermarks = ProviderCommitmentWatermarks::default();
    let event = parse_transaction_notification(
        read_transaction(&sample_notification_payload()),
        WebsocketTransactionCommitment::Confirmed,
        &mut watermarks,
    )
    .expect("notification should parse")
    .expect("transaction event");
    assert_eq!(event.slot, 55);
    assert_eq!(event.signature, Some(SignatureBytes([3; 64])));
    assert_eq!(event.commitment_status, TxCommitmentStatus::Confirmed);
    assert_eq!(event.bytes, sample_transaction_bytes());
    let tx = decode_transaction(&event.bytes).expect("transaction");
    assert_eq!(classify_provider_transaction_kind(&tx), TxKind::NonVote);
    assert_eq!(tx.message.account_keys, vec![PubkeyBytes([4; 32])]);
    assert_eq!(tx.signatures, vec![SignatureBytes([3; 64])]);
}

#[test]
fn websocket_transaction_notification_tracks_commitment_watermarks() {
    let mut watermarks = ProviderCommitmentWatermarks::default();
    let event = parse_transaction_notification(
        read_transaction(&sample_notification_payload()),
        WebsocketTransactionCommitment::Confirmed,
        &mut watermarks,
    )
    .expect("notification should parse")
    .expect("serialized event");
    assert_eq!(event.confirmed_slot, Some(55));
    assert_eq!(event.finalized_slot, None);
}

#[test]
fn websocket_transaction_notification_names_what_is_wrong() {
    let mut watermarks = ProviderCommitmentWatermarks::default();
    let commitment = WebsocketTransactionCommitment::Processed;
    let unreadable = parse_transaction_notification(Err("eof".to_owned()), commitment, &mut watermarks);
    assert_eq!(unreadable.unwrap_err().to_text(), "invalid websocket json: eof");
    let refused = read_transaction(r#"{"jsonrpc":"2.0","error":{"code":1}}"#);
    let refused = parse_transaction_notification(refused, commitment, &mut watermarks);
    assert!(matches!(
        refused.unwrap_err(),
        WebsocketTransactionError::Protocol(WebsocketProtocolError::ProviderError(_))
    ));
    let other = parse_transaction_notification(read_transaction("{}"), commitment, &mut watermarks);
    assert!(other.expect("not a notification").is_none());
    let encoded = sample_notification_payload().replace("\"base64\"", "\"base58\"");
    let encoded = parse_transaction_notification(read_transaction(&encoded), commitment, &mut watermarks);
    assert!(matches!(
        encoded.unwrap_err(),
        WebsocketTransactionError::Convert("unsupported websocket transaction encoding")
    ));
    let garbled = sample_notification_payload().replace(&base64_text(&sample_transaction_bytes()), "%%%");
    let garbled = parse_transaction_notification(read_transaction(&garbled), commitment, &mut watermarks);
    assert!(matches!(
        garbled.unwrap_err(),
        WebsocketTransactionError::Convert("invalid base64 transaction payload")
    ));
    assert_eq!(watermarks.confirmed_slot, None);
}

#[test]
fn websocket_first_signature_is_read_from_the_payload() {
    assert_eq!(
        serialized_transaction_first_signature(&sample_transaction_bytes()),
        Some(SignatureBytes([3; 64]))
    );
    assert_eq!(serialized_transaction_first_signature(&[]), None);
    assert_eq!(serialized_transaction_first_signature(&[0]), None);
    assert_eq!(serialized_transaction_first_signature(&[1; 64]), None);
}

#[test]
fn websocket_compact_lengths_are_decoded() {
    let mut offset = 0;
    assert_eq!(decode_short_u16_len(&[0x05], &mut offset), Some(5));
    assert_eq!(offset, 1);
    let mut offset = 1;
    assert_eq!(decode_short_u16_len(&[0xff, 0x80, 0x01], &mut offset), Some(128));
    assert_eq!(offset, 3);
    let mut offset = 0;
    assert_eq!(decode_short_u16_len(&[0xff, 0xff, 0x03], &mut offset), Some(65_535));
    assert_eq!(offset, 3);
    let mut offset = 0;
    assert_eq!(decode_short_u16_len(&[0x80, 0x80, 0x80, 0x01], &mut offset), None);
    assert_eq!(offset, 3);
    let mut offset = 7;
    assert_eq!(decode_short_u16_len(&[0x05], &mut offset), None);
    assert_eq!(offset, 7);
}

#[test]
fn websocket_http_endpoint_derives_from_websocket_scheme() {
    let config = WebsocketTransactionConfig::new("wss://example.invalid/?api-key=1");
    assert_eq!(websocket_http_endpoint(&config).as_deref(), Some("https://example.invalid/?api-key=1"));
    let config = WebsocketTransactionConfig::new("ws://example.invalid");
    assert_eq!(websocket_http_endpoint(&config).as_deref(), Some("http://example.invalid"));
    let config = WebsocketTransactionConfig::new("ftp://example.invalid");
    assert_eq!(websocket_http_endpoint(&config), None);
    let config = config.with_http_endpoint("https://replay.invalid");
    assert_eq!(websocket_http_endpoint(&config).as_deref(), Some("https://replay.invalid"));
}

#[test]
fn websocket_replay_start_slot_includes_last_seen_slot() {
    assert_eq!(websocket_replay_start_slot(55, 55, 128), 55);
    assert_eq!(websocket_replay_start_slot(55, 60, 128), 55);
}

#[test]
fn websocket_replay_walks_a_bounded_window() {
    assert_eq!(websocket_replay_start_slot(55, 1_000, 128), 873);
    let config = WebsocketTransactionConfig::new("wss://example.invalid").with_replay_max_slots(3);
    let mut cursor = replay_slots(&config, Some(55), 60);
    let mut slots = Vec::new();
    while let Some(slot) = cursor.next_slot() {
        slots.push(slot);
    }
    assert_eq!(slots, vec![58, 59, 60]);
    assert_eq!(replay_slots(&config, None, 60).next_slot(), None);
    assert_eq!(replay_endpoint(&config, None).expect("no gap"), None);
    assert_eq!(
        replay_endpoint(&config, Some(55)).expect("gap").as_deref(),
        Some("https://example.invalid")
    );
}

#[test]
fn websocket_replay_requests_and_answers() {
    let request = plain(&get_slot_request(WebsocketTransactionCommitment::Confirmed));
    assert_eq!(request["method"].as_str(), Some("getSlot"));
    assert_eq!(request["params"][0]["commitment"].as_str(), Some("confirmed"));
    let request = plain(&get_block_request(77, WebsocketTransactionCommitment::Finalized));
    assert_eq!(request["method"].as_str(), Some("getBlock"));
    assert_eq!(request["params"][0].as_u64(), Some(77));
    assert_eq!(request["params"][1]["commitment"].as_str(), Some("finalized"));
    assert_eq!(rpc_get_slot(RpcOutcome::Answer { result: Some(9), error: None }).expect("slot"), 9);
    assert!(rpc_get_slot(RpcOutcome::Answer { result: None, error: None }).is_err());
    let failed: Result<Option<u64>, WebsocketProtocolError> =
        rpc_result(RpcOutcome::Failed("down".to_owned()), "getBlock");
    assert!(matches!(failed.unwrap_err(), WebsocketProtocolError::HttpRpcFailed { method: "getBlock", .. }));
}

#[test]
fn websocket_replayed_transaction_becomes_an_update() {
    let config = WebsocketTransactionConfig::new("wss://example.invalid")
        .with_commitment(WebsocketTransactionCommitment::Confirmed)
        .with_source_instance("primary");
    let source = config.source_identity().expect("identity");
    let mut state = WebsocketPrimaryState::new(at(1));
    let transaction = RpcBlockTransaction {
        payload: base64_text(&sample_transaction_bytes()),
        failed: false,
        loaded_addresses: None,
    };
    let update = replay_transaction(&config, &source, 61, &transaction, &mut state).expect("readable").expect("passes");
    let ProviderStreamUpdate::Transaction(event) = update else {
        panic!("expected transaction update");
    };
    assert_eq!(event.slot, 61);
    assert_eq!(event.kind, TxKind::NonVote);
    assert_eq!(event.confirmed_slot, Some(61));
    assert_eq!(event.provider_source.as_deref().expect("source").instance_str(), "primary");
    let refused = RpcBlockTransaction { payload: "%%%".to_owned(), failed: false, loaded_addresses: None };
    assert!(replay_transaction(&config, &source, 61, &refused, &mut state).is_err());
    let config = config.with_failed(true);
    assert!(replay_transaction(&config, &source, 61, &transaction, &mut state).expect("readable").is_none());
}

#[test]
fn websocket_backfill_filter_uses_loaded_addresses() {
    let tx = decode_transaction(&sample_transaction_bytes()).expect("tx");
    let loaded_key = PubkeyBytes([51; 32]);
    let config = WebsocketTransactionConfig::new("wss://example.invalid").with_account_include(vec![loaded_key]);
    let loaded_addresses = RpcLoadedAddresses { writable: vec![base58(&loaded_key)], readonly: Vec::new() };
    assert!(websocket_transaction_matches_filter(&config, &tx, Some(&loaded_addresses), TxKind::NonVote, false));
    assert!(!websocket_transaction_matches_filter(&config, &tx, None, TxKind::NonVote, false));
}

#[test]
fn websocket_logs_notification_decodes_transaction_log_event() {
    let config = WebsocketLogsConfig::new("wss://example.invalid")
        .with_commitment(WebsocketTransactionCommitment::Finalized)
        .with_filter(WebsocketLogsFilter::All);
    let event = parse_logs_notification(read_logs(&logs_payload(88, [9; 64], "Program log: test")), &config)
        .expect("logs notification should parse")
        .expect("transaction log event");
    assert_eq!(event.slot, 88);
    assert_eq!(event.commitment_status, TxCommitmentStatus::Finalized);
    assert_eq!(event.signature, SignatureBytes([9_u8; 64]));
    assert_eq!(event.logs, vec!["Program log: test".to_owned()]);
    assert_eq!(event.matched_filter, None);
}

#[test]
fn websocket_logs_notification_rejects_a_garbled_signature() {
    let config = WebsocketLogsConfig::new("wss://example.invalid");
    let mut message = read_logs(&logs_payload(88, [9; 64], "log")).expect("message");
    message.notification.as_mut().expect("notification").signature = "not base58 0OIl".to_owned();
    let error = parse_logs_notification(Ok(message), &config).unwrap_err();
    assert!(matches!(error, WebsocketLogsError::Protocol(WebsocketProtocolError::InvalidLogSignature)));
}

#[test]
fn websocket_account_notification_decodes_account_update_event() {
    let pubkey = PubkeyBytes([61; 32]);
    let owner = PubkeyBytes([62; 32]);
    let mut watermarks = ProviderCommitmentWatermarks::default();
    let config = WebsocketTransactionConfig::new("wss://example.invalid")
        .with_stream(WebsocketPrimaryStream::Account(pubkey))
        .with_commitment(WebsocketTransactionCommitment::Confirmed);
    let event = parse_account_notification(read_account(&account_payload(&owner)), &config, &mut watermarks)
        .expect("account notification should parse")
        .expect("account update event");
    assert_eq!(event.slot, 77);
    assert_eq!(event.commitment_status, TxCommitmentStatus::Confirmed);
    assert_eq!(event.confirmed_slot, Some(77));
    assert_eq!(event.finalized_slot, None);
    assert_eq!(event.pubkey, pubkey);
    assert_eq!(event.owner, owner);
    assert_eq!(event.lamports, 42);
    assert_eq!(event.rent_epoch, 9);
    assert_eq!(event.data.as_ref(), &[1, 2, 3, 4]);
    assert_eq!(event.matched_filter, Some(pubkey));
}

#[test]
fn websocket_program_notification_decodes_account_update_event() {
    let program_id = PubkeyBytes([63; 32]);
    let account_pubkey = PubkeyBytes([64; 32]);
    let owner = PubkeyBytes([65; 32]);
    let mut watermarks = ProviderCommitmentWatermarks::default();
    let config = WebsocketTransactionConfig::new("wss://example.invalid")
        .with_stream(WebsocketPrimaryStream::Program(program_id))
        .with_commitment(WebsocketTransactionCommitment::Finalized);
    let event =
        parse_account_notification(read_account(&program_payload(&account_pubkey, &owner)), &config, &mut watermarks)
            .expect("program notification should parse")
            .expect("account update event");
    assert_eq!(event.slot, 88);
    assert_eq!(event.commitment_status, TxCommitmentStatus::Finalized);
    assert_eq!(event.confirmed_slot, Some(88));
    assert_eq!(event.finalized_slot, Some(88));
    assert_eq!(event.pubkey, account_pubkey);
    assert_eq!(event.owner, owner);
    assert!(event.executable);
    assert_eq!(event.data.as_ref(), &[5, 6, 7]);
    assert_eq!(event.matched_filter, Some(program_id));
}

#[test]
fn websocket_spawn_rejects_transaction_only_options_for_program_stream() {
    let config = WebsocketTransactionConfig::new("ws://127.0.0.1:1")
        .with_stream(WebsocketPrimaryStream::Program(PubkeyBytes([66; 32])))
        .with_vote(true);
    let error = config.validate().expect_err("program stream should reject transaction-only filters");
    let WebsocketConfigError::UnsupportedOption { option, stream } = error;
    assert_eq!(option, WebsocketConfigOption::VoteFilter);
    assert_eq!(stream, WebsocketStreamKind::Program);
}

/// Opens a session of `config` and hands it `message`.
fn deliver(
    config: &WebsocketTransactionConfig,
    message: WebsocketPrimaryMessage,
) -> WebsocketSessionAction<WebsocketTransactionError> {
    let source = config.resolved_source_identity(1);
    let mut state = WebsocketPrimaryState::new(at(1));
    let (health, _) = state.begin_session(config, &source, at(1));
    assert_eq!(health.status, ProviderSourceHealthStatus::Healthy);
    state.on_event(config, &source, WebsocketSessionEvent::Message { message, at: at(2) })
}

#[test]
fn websocket_logs_source_delivers_log_update() {
    let config = WebsocketLogsConfig::new("ws://127.0.0.1:1")
        .with_ping_interval(Duration::from_millis(250))
        .with_reconnect_delay(Duration::from_millis(10))
        .with_max_reconnect_attempts(1);
    assert_eq!(plain(&config.subscribe_request())["method"].as_str(), Some("logsSubscribe"));
    let source = config.resolved_source_identity(1);
    let mut state = WebsocketLogsState::new(at(1));
    let health = state.begin_session(&config, &source, at(1));
    assert_eq!(health.reason, ProviderSourceHealthReason::SubscriptionAckReceived);
    let action = state.on_event(
        &config,
        &source,
        WebsocketSessionEvent::Message {
            message: read_logs(&logs_payload(88, [9; 64], "Program log: test")),
            at: at(2),
        },
    );
    let WebsocketSessionAction::Emit(ProviderStreamUpdate::TransactionLog(event)) = action else {
        panic!("expected log update");
    };
    assert_eq!(event.slot, 88);
    assert_eq!(event.signature, SignatureBytes([9_u8; 64]));
}

fn announced(config: &WebsocketTransactionConfig) -> (SourceSupervisor, SourceAction) {
    let source = config.resolved_source_identity(1);
    let messages = config.messages(&source);
    SourceSupervisor::announced(
        source,
        config.source.readiness,
        messages,
        config.max_reconnect_attempts,
        config.reconnect_delay,
    )
}

#[test]
fn websocket_transaction_source_emits_initial_health_registration() {
    let config = WebsocketTransactionConfig::new("ws://127.0.0.1:1")
        .with_max_reconnect_attempts(1)
        .with_reconnect_delay(Duration::from_millis(10));
    let (_, action) = announced(&config);
    let SourceAction::TryAnnounce(event) = action else {
        panic!("expected initial provider health update");
    };
    assert_eq!(event.status, ProviderSourceHealthStatus::Reconnecting);
    assert_eq!(event.reason, ProviderSourceHealthReason::InitialConnectPending);
}

#[test]
fn websocket_account_source_delivers_account_update() {
    let pubkey = PubkeyBytes([67; 32]);
    let owner = PubkeyBytes([68; 32]);
    let config = WebsocketTransactionConfig::new("ws://127.0.0.1:1")
        .with_stream(WebsocketPrimaryStream::Account(pubkey))
        .with_source_instance("websocket-account-primary");
    let action = deliver(&config, WebsocketPrimaryMessage::Account(read_account(&account_payload(&owner))));
    let WebsocketSessionAction::Emit(ProviderStreamUpdate::AccountUpdate(event)) = action else {
        panic!("expected account update");
    };
    assert_eq!(event.slot, 77);
    assert_eq!(event.pubkey, pubkey);
    assert_eq!(event.owner, owner);
    assert_eq!(event.data.as_ref(), &[1, 2, 3, 4]);
    assert_eq!(
        event.provider_source.as_deref().expect("provider source").instance_str(),
        "websocket-account-primary"
    );
}

#[test]
fn websocket_program_source_delivers_account_update() {
    let program_id = PubkeyBytes([69; 32]);
    let account_pubkey = PubkeyBytes([70; 32]);
    let owner = PubkeyBytes([71; 32]);
    let config = WebsocketTransactionConfig::new("ws://127.0.0.1:1")
        .with_stream(WebsocketPrimaryStream::Program(program_id));
    let action = deliver(
        &config,
        WebsocketPrimaryMessage::Account(read_account(&program_payload(&account_pubkey, &owner))),
    );
    let WebsocketSessionAction::Emit(ProviderStreamUpdate::AccountUpdate(event)) = action else {
        panic!("expected account update");
    };
    assert_eq!(event.slot, 88);
    assert_eq!(event.pubkey, account_pubkey);
    assert_eq!(event.owner, owner);
    assert_eq!(event.matched_filter, Some(program_id));
    assert_eq!(event.data.as_ref(), &[5, 6, 7]);
}

#[test]
fn websocket_source_uses_first_acknowledged_session_as_live_stream() {
    let config = WebsocketTransactionConfig::new("ws://127.0.0.1:1");
    let ack = read_ack(r#"{"jsonrpc":"2.0","id":1,"result":42}"#);
    assert!(wait_for_subscription_ack(WebsocketAckEvent::Message(ack)).expect("ack"));
    let action =
        deliver(&config, WebsocketPrimaryMessage::Transaction(read_transaction(&sample_notification_payload())));
    let WebsocketSessionAction::Emit(ProviderStreamUpdate::SerializedTransaction(event)) = action else {
        panic!("expected transaction update");
    };
    assert_eq!(event.slot, 55);
    assert!(event.signature.is_some());
}

#[test]
fn websocket_source_reconnects_and_delivers_after_disconnect() {
    let config = WebsocketTransactionConfig::new("ws://127.0.0.1:1")
        .with_max_reconnect_attempts(1)
        .with_reconnect_delay(Duration::from_millis(10));
    let (mut supervisor, _) = announced(&config);
    assert!(matches!(
        supervisor.on_event(SourceEvent::Queue(QueueAnswer::Accepted)),
        Some(SourceAction::Connect)
    ));
    assert!(matches!(supervisor.on_event(SourceEvent::Connected), Some(SourceAction::Run)));
    let Some(SourceAction::Report(health)) = supervisor.on_event(SourceEvent::SessionEnded { established: true })
    else {
        panic!("expected a health report");
    };
    assert_eq!(health.source.kind, ProviderSourceId::WebsocketTransaction);
    assert_eq!(health.status, ProviderSourceHealthStatus::Reconnecting);
    assert_eq!(health.reason, ProviderSourceHealthReason::UpstreamStreamClosedUnexpectedly);
    let Some(SourceAction::Wait(pause)) = supervisor.on_event(SourceEvent::Queue(QueueAnswer::Accepted)) else {
        panic!("expected a pause");
    };
    assert_eq!(pause.as_nanos(), 10_000_000);
    assert!(matches!(supervisor.on_event(SourceEvent::Waited), Some(SourceAction::Connect)));
    assert!(matches!(supervisor.on_event(SourceEvent::Connected), Some(SourceAction::Run)));
    let action =
        deliver(&config, WebsocketPrimaryMessage::Transaction(read_transaction(&sample_notification_payload())));
    let WebsocketSessionAction::Emit(ProviderStreamUpdate::SerializedTransaction(event)) = action else {
        panic!("expected transaction update");
    };
    assert_eq!(event.slot, 55);
    assert!(!event.bytes.is_empty());
}

#[test]
fn websocket_fan_in_rejects_duplicate_stable_source_identity() {
    let mut registry = ProviderSourceRegistry::new();
    let first = WebsocketTransactionConfig::new("ws://127.0.0.1:1").with_source_instance("shared-primary");
    registry.reserve_source_identity(first.source_identity().expect("identity")).expect("first source");
    let second = WebsocketTransactionConfig::new("ws://127.0.0.1:9").with_source_instance("shared-primary");
    let error = registry
        .reserve_source_identity(second.source_identity().expect("identity"))
        .expect_err("duplicate source identity should be rejected");
    assert_eq!(error.0.kind, ProviderSourceId::WebsocketTransaction);
    assert_eq!(error.0.instance_str(), "shared-primary");
    let error = WebsocketTransactionError::DuplicateSourceIdentity(error);
    assert_eq!(
        error.to_text(),
        "provider fan-in already contains source identity websocket_transaction:shared-primary"
    );
}

#[test]
fn websocket_fan_in_preserves_source_identity_for_same_kind_sources() {
    let config = WebsocketTransactionConfig::new("ws://127.0.0.1:1");
    let a = config.resolved_source_identity(1);
    let b = config.resolved_source_identity(2);
    assert_eq!(a.kind, ProviderSourceId::WebsocketTransaction);
    assert_eq!(b.kind, ProviderSourceId::WebsocketTransaction);
    assert_ne!(a, b);
    assert_eq!(a.instance_str(), "websocket_transaction-1");
}

#[test]
fn websocket_spawn_fails_fast_on_dead_endpoint() {
    let config = WebsocketTransactionConfig::new("ws://127.0.0.1:1");
    let (mut supervisor, first) = announced(&config);
    let SourceAction::TryAnnounce(first) = first else {
        panic!("expected initial health update");
    };
    assert_eq!(first.status, ProviderSourceHealthStatus::Reconnecting);
    assert_eq!(first.reason, ProviderSourceHealthReason::InitialConnectPending);
    supervisor.on_event(SourceEvent::Queue(QueueAnswer::Accepted));
    let failure = SourceFailure {
        reason: ProviderSourceHealthReason::UpstreamTransportFailure,
        message: "Connection refused".to_owned(),
    };
    let Some(SourceAction::Stop { exit, removal }) = supervisor.on_event(SourceEvent::ConnectFailed(failure)) else {
        panic!("expected the source to stop");
    };
    assert_eq!(exit, SourceExit::StartupFailed);
    assert_eq!(removal.expect("removal health update").status, ProviderSourceHealthStatus::Removed);
}

#[test]
fn websocket_spawn_fails_fast_on_dead_endpoint_with_full_queue() {
    let config = WebsocketTransactionConfig::new("ws://127.0.0.1:1");
    let (mut supervisor, _) = announced(&config);
    assert!(matches!(
        supervisor.on_event(SourceEvent::Queue(QueueAnswer::Full)),
        Some(SourceAction::Connect)
    ));
    let failure = SourceFailure {
        reason: ProviderSourceHealthReason::UpstreamTransportFailure,
        message: "Connection refused".to_owned(),
    };
    let Some(SourceAction::Stop { exit, removal }) = supervisor.on_event(SourceEvent::ConnectFailed(failure)) else {
        panic!("expected the source to stop");
    };
    assert_eq!(exit, SourceExit::StartupFailed);
    assert_eq!(removal.expect("removal health update").status, ProviderSourceHealthStatus::Removed);
}

#[test]
fn websocket_spawn_fails_fast_without_replay_http_endpoint() {
    let error = WebsocketTransactionConfig::new("http://example.invalid")
        .check_replay_endpoint()
        .expect_err("missing replay http endpoint should fail during preflight");
    assert!(error.to_text().contains("websocket reconnect replay requires"));
    assert!(WebsocketTransactionConfig::new("http://example.invalid")
        .with_replay_on_reconnect(false)
        .check_replay_endpoint()
        .is_ok());
}

#[test]
fn websocket_session_answers_frames() {
    let config = WebsocketTransactionConfig::new("ws://127.0.0.1:1").with_stall_timeout(Duration::from_secs(30));
    let source = config.resolved_source_identity(1);
    let mut state = WebsocketPrimaryState::new(at(1));
    state.begin_session(&config, &source, at(1));
    assert_eq!(state.stall_deadline(&config), Some(at(31)));
    assert!(matches!(
        state.on_event(&config, &source, WebsocketSessionEvent::PingDue),
        WebsocketSessionAction::SendPing
    ));
    let action =
        state.on_event(&config, &source, WebsocketSessionEvent::Ping { payload: vec![1, 2], at: at(4) });
    let WebsocketSessionAction::SendPong(payload) = action else {
        panic!("expected a pong");
    };
    assert_eq!(payload, vec![1, 2]);
    assert_eq!(state.stall_deadline(&config), Some(at(34)));
    assert!(matches!(
        state.on_event(&config, &source, WebsocketSessionEvent::OtherFrame { at: at(5) }),
        WebsocketSessionAction::Continue
    ));
    assert!(matches!(
        state.on_event(&config, &source, WebsocketSessionEvent::StreamEnded),
        WebsocketSessionAction::End
    ));
    let action = state.on_event(&config, &source, WebsocketSessionEvent::TransportFailed("reset".to_owned()));
    let WebsocketSessionAction::Fail(error) = action else {
        panic!("expected a failure");
    };
    assert_eq!(websocket_health_reason(&error), ProviderSourceHealthReason::UpstreamTransportFailure);
    let action = state.on_event(&config, &source, WebsocketSessionEvent::StallDeadlinePassed);
    let WebsocketSessionAction::Fail(error) = action else {
        panic!("expected a stall");
    };
    assert!(error.to_text().contains("stalled without inbound progress"));
    assert_eq!(websocket_health_reason(&error), ProviderSourceHealthReason::UpstreamProtocolFailure);
}

#[test]
fn websocket_gap_is_replayed_after_a_reconnect_only() {
    let config = WebsocketTransactionConfig::new("ws://127.0.0.1:1");
    let source = config.resolved_source_identity(1);
    let mut state = WebsocketPrimaryState::new(at(1));
    let (_, replay) = state.begin_session(&config, &source, at(1));
    assert!(!replay);
    let message = WebsocketPrimaryMessage::Transaction(read_transaction(&sample_notification_payload()));
    state.on_event(&config, &source, WebsocketSessionEvent::Message { message, at: at(2) });
    assert_eq!(state.last_seen_slot, Some(55));
    let (health, replay) = state.begin_session(&config, &source, at(3));
    assert!(replay);
    assert_eq!(health.readiness, ProviderSourceReadiness::Required);
}
