//! Websocket sources: configs, subscription requests and errors.
pub mod replay;
pub mod session;

use crate::bytes::{pubkey_base58, pubkey_text, signature_base58, signature_text, PubkeyBytes, SignatureBytes};
use crate::event::TxCommitmentStatus;
use crate::json::{
    are_members, call_json, json_call, json_keys, json_object, json_pair, json_single, json_text,
    keys_json, push_member, Json, JsonValue,
};
use crate::provider_stream::source::{
    shared_text, ProviderSourceArbitrationMode, ProviderSourceHealthReason, ProviderSourceId,
    ProviderSourceIdentity, ProviderSourceIdentityRegistrationError, ProviderSourceReadiness,
    ProviderSourceRole, SourceSettings,
};
use crate::provider_stream::supervisor::SourceMessages;
use crate::provider_stream::yellowstone::is_secs;
use crate::provider_stream::ProviderStreamMode;
use crate::text::{
    decimal, decimal_text, joined, joined3, prefix_and_rest_make_the_text, strip_text_prefix,
    without_prefix,
};
use crate::time::Duration;
use vstd::prelude::*;

verus! {

/// Commitment of a subscription.
#[derive(Clone, Copy, Debug, PartialEq, Eq, Structural)]
pub enum WebsocketTransactionCommitment {
    /// Processed.
    Processed,
    /// Confirmed.
    Confirmed,
    /// Finalized.
    Finalized,
}

impl Default for WebsocketTransactionCommitment {
    fn default() -> (r: Self)
        ensures
            r == WebsocketTransactionCommitment::Processed,
    {
        WebsocketTransactionCommitment::Processed
    }
}

impl WebsocketTransactionCommitment {

    /// The name of the commitment in requests.
    pub open spec fn label(self) -> &'static str {
        match self {
            WebsocketTransactionCommitment::Processed => "processed",
            WebsocketTransactionCommitment::Confirmed => "confirmed",
            WebsocketTransactionCommitment::Finalized => "finalized",
        }
    }

    /// The name of the commitment in requests.
    pub fn as_str(self) -> (r: &'static str)
        ensures
            r == self.label(),
    {
        match self {
            WebsocketTransactionCommitment::Processed => "processed",
            WebsocketTransactionCommitment::Confirmed => "confirmed",
            WebsocketTransactionCommitment::Finalized => "finalized",
        }
    }

    /// The commitment of the events of a subscription.
    pub open spec fn tx_commitment(self) -> TxCommitmentStatus {
        match self {
            WebsocketTransactionCommitment::Processed => TxCommitmentStatus::Processed,
            WebsocketTransactionCommitment::Confirmed => TxCommitmentStatus::Confirmed,
            WebsocketTransactionCommitment::Finalized => TxCommitmentStatus::Finalized,
        }
    }

    /// The commitment of the events of a subscription.
    pub fn as_tx_commitment(self) -> (r: TxCommitmentStatus)
        ensures
            r == self.tx_commitment(),
    {
        match self {
            WebsocketTransactionCommitment::Processed => TxCommitmentStatus::Processed,
            WebsocketTransactionCommitment::Confirmed => TxCommitmentStatus::Confirmed,
            WebsocketTransactionCommitment::Finalized => TxCommitmentStatus::Finalized,
        }
    }
}

/// A setting that some streams do not support.
#[derive(Clone, Copy, Debug, PartialEq, Eq, Structural)]
pub enum WebsocketConfigOption {
    /// HTTP endpoint for replay.
    HttpEndpoint,
    /// Vote filter.
    VoteFilter,
    /// Failed filter.
    FailedFilter,
    /// Signature filter.
    SignatureFilter,
    /// Account-include filter.
    AccountIncludeFilter,
    /// Account-exclude filter.
    AccountExcludeFilter,
    /// Account-required filter.
    AccountRequiredFilter,
    /// Replay after a reconnect.
    ReplayOnReconnect,
    /// Bound on replayed slots.
    ReplayMaxSlots,
    /// Program filters.
    ProgramFilters,
}

impl WebsocketConfigOption {

    /// The name of the setting.
    pub open spec fn label(self) -> &'static str {
        match self {
            WebsocketConfigOption::HttpEndpoint => "http replay endpoint",
            WebsocketConfigOption::VoteFilter => "vote filter",
            WebsocketConfigOption::FailedFilter => "failed filter",
            WebsocketConfigOption::SignatureFilter => "signature filter",
            WebsocketConfigOption::AccountIncludeFilter => "account-include filter",
            WebsocketConfigOption::AccountExcludeFilter => "account-exclude filter",
            WebsocketConfigOption::AccountRequiredFilter => "account-required filter",
            WebsocketConfigOption::ReplayOnReconnect => "replay-on-reconnect",
            WebsocketConfigOption::ReplayMaxSlots => "replay-max-slots",
            WebsocketConfigOption::ProgramFilters => "program filters",
        }
    }

    /// The name of the setting.
    pub fn as_str(self) -> (r: &'static str)
        ensures
            r == self.label(),
    {
        match self {
            WebsocketConfigOption::HttpEndpoint => "http replay endpoint",
            WebsocketConfigOption::VoteFilter => "vote filter",
            WebsocketConfigOption::FailedFilter => "failed filter",
            WebsocketConfigOption::SignatureFilter => "signature filter",
            WebsocketConfigOption::AccountIncludeFilter => "account-include filter",
            WebsocketConfigOption::AccountExcludeFilter => "account-exclude filter",
            WebsocketConfigOption::AccountRequiredFilter => "account-required filter",
            WebsocketConfigOption::ReplayOnReconnect => "replay-on-reconnect",
            WebsocketConfigOption::ReplayMaxSlots => "replay-max-slots",
            WebsocketConfigOption::ProgramFilters => "program filters",
        }
    }
}

/// A stream as errors name it.
#[derive(Clone, Copy, Debug, PartialEq, Eq, Structural)]
pub enum WebsocketStreamKind {
    /// Transactions.
    Transaction,
    /// Logs.
    Logs,
    /// One account.
    Account,
    /// The accounts of a program.
    Program,
}

impl WebsocketStreamKind {

    /// The name of the stream.
    pub open spec fn label(self) -> &'static str {
        match self {
            WebsocketStreamKind::Transaction => "websocket transaction",
            WebsocketStreamKind::Logs => "websocket logs",
            WebsocketStreamKind::Account => "websocket account",
            WebsocketStreamKind::Program => "websocket program",
        }
    }

    /// The name of the stream.
    pub fn as_str(self) -> (r: &'static str)
        ensures
            r == self.label(),
    {
        match self {
            WebsocketStreamKind::Transaction => "websocket transaction",
            WebsocketStreamKind::Logs => "websocket logs",
            WebsocketStreamKind::Account => "websocket account",
            WebsocketStreamKind::Program => "websocket program",
        }
    }
}

/// A config that cannot be used.
#[derive(Clone, Copy, Debug, PartialEq, Eq, Structural)]
pub enum WebsocketConfigError {
    /// The stream does not support a setting.
    UnsupportedOption {
        /// The stream.
        stream: WebsocketStreamKind,
        /// The setting.
        option: WebsocketConfigOption,
    },
}

impl WebsocketConfigError {
    /// The text of the error.
    pub open spec fn text(self) -> Seq<char> {
        match self {
            WebsocketConfigError::UnsupportedOption { stream, option } => option.label()@
                + " is not supported for websocket "@ + stream.label()@ + " streams"@,
        }
    }

    /// Writes the error for a human reader.
    pub fn to_text(&self) -> (r: String)
        ensures
            r@ == self.text(),
    {
        match self {
            WebsocketConfigError::UnsupportedOption { stream, option } => {
                let head = joined3(option.as_str(), " is not supported for websocket ", stream.as_str());
                joined(head.as_str(), " streams")
            },
        }
    }
}

/// A stream that a primary config can select.
#[derive(Clone, Copy, Debug, PartialEq, Eq)]
pub enum WebsocketPrimaryStream {
    /// Transactions.
    Transaction,
    /// The account of a key.
    Account(PubkeyBytes),
    /// The accounts of a program.
    Program(PubkeyBytes),
}

impl Default for WebsocketPrimaryStream {
    fn default() -> (r: Self)
        ensures
            r is Transaction,
    {
        WebsocketPrimaryStream::Transaction
    }
}

impl WebsocketPrimaryStream {

    /// The stream as errors name it.
    pub open spec fn kind_of_stream(self) -> WebsocketStreamKind {
        match self {
            WebsocketPrimaryStream::Transaction => WebsocketStreamKind::Transaction,
            WebsocketPrimaryStream::Account(_) => WebsocketStreamKind::Account,
            WebsocketPrimaryStream::Program(_) => WebsocketStreamKind::Program,
        }
    }

    /// The stream as errors name it.
    pub fn kind(self) -> (r: WebsocketStreamKind)
        ensures
            r == self.kind_of_stream(),
    {
        match self {
            WebsocketPrimaryStream::Transaction => WebsocketStreamKind::Transaction,
            WebsocketPrimaryStream::Account(_) => WebsocketStreamKind::Account,
            WebsocketPrimaryStream::Program(_) => WebsocketStreamKind::Program,
        }
    }

    /// The runtime mode of the stream.
    pub open spec fn mode_of_stream(self) -> ProviderStreamMode {
        match self {
            WebsocketPrimaryStream::Transaction => ProviderStreamMode::WebsocketTransaction,
            WebsocketPrimaryStream::Account(_) => ProviderStreamMode::WebsocketAccount,
            WebsocketPrimaryStream::Program(_) => ProviderStreamMode::WebsocketProgram,
        }
    }

    /// The runtime mode of the stream.
    pub fn mode(self) -> (r: ProviderStreamMode)
        ensures
            r == self.mode_of_stream(),
    {
        match self {
            WebsocketPrimaryStream::Transaction => ProviderStreamMode::WebsocketTransaction,
            WebsocketPrimaryStream::Account(_) => ProviderStreamMode::WebsocketAccount,
            WebsocketPrimaryStream::Program(_) => ProviderStreamMode::WebsocketProgram,
        }
    }

    /// The source kind of the stream.
    pub open spec fn source_of_stream(self) -> ProviderSourceId {
        match self {
            WebsocketPrimaryStream::Transaction => ProviderSourceId::WebsocketTransaction,
            WebsocketPrimaryStream::Account(_) => ProviderSourceId::WebsocketAccount,
            WebsocketPrimaryStream::Program(_) => ProviderSourceId::WebsocketProgram,
        }
    }

    /// The source kind of the stream.
    pub fn source_id(self) -> (r: ProviderSourceId)
        ensures
            r == self.source_of_stream(),
    {
        match self {
            WebsocketPrimaryStream::Transaction => ProviderSourceId::WebsocketTransaction,
            WebsocketPrimaryStream::Account(_) => ProviderSourceId::WebsocketAccount,
            WebsocketPrimaryStream::Program(_) => ProviderSourceId::WebsocketProgram,
        }
    }
}

/// A filter of a program stream.
#[derive(Clone, Debug, PartialEq, Eq)]
pub enum WebsocketProgramFilter {
    /// Accounts of this size.
    DataSize(u64),
    /// Accounts that hold these bytes at an offset.
    MemcmpBase58 {
        /// Offset in the account data.
        offset: u64,
        /// The bytes in base58.
        bytes: String,
    },
}

impl WebsocketProgramFilter {
    /// The filter as JSON.
    pub open spec fn json(self) -> Json {
        match self {
            WebsocketProgramFilter::DataSize(size) => Json::Object(
                Seq::<(Seq<char>, Json)>::empty().push(("dataSize"@, Json::Number(size))),
            ),
            WebsocketProgramFilter::MemcmpBase58 { offset, bytes } => Json::Object(
                Seq::<(Seq<char>, Json)>::empty().push(
                    (
                        "memcmp"@,
                        Json::Object(
                            Seq::<(Seq<char>, Json)>::empty().push(("offset"@, Json::Number(offset))).push(
                                ("bytes"@, Json::Text(bytes@)),
                            ),
                        ),
                    ),
                ),
            ),
        }
    }

    /// Writes the filter as JSON.
    pub fn as_json(&self) -> (r: JsonValue)
        ensures
            r.is_json(self.json()),
    {
        let ghost m0 = Seq::<(Seq<char>, Json)>::empty();
        match self {
            WebsocketProgramFilter::DataSize(size) => {
                let mut members: Vec<(String, JsonValue)> = Vec::new();
                assert(are_members(members@, m0));
                let value = JsonValue::Number(*size);
                assert(value.is_json(Json::Number(*size)));
                push_member(&mut members, "dataSize", value);
                assert(are_members(members@, m0.push(("dataSize"@, Json::Number(*size)))));
                json_object(members)
            },
            WebsocketProgramFilter::MemcmpBase58 { offset, bytes } => {
                let mut inner: Vec<(String, JsonValue)> = Vec::new();
                assert(are_members(inner@, m0));
                let value = JsonValue::Number(*offset);
                assert(value.is_json(Json::Number(*offset)));
                push_member(&mut inner, "offset", value);
                let ghost m1 = m0.push(("offset"@, Json::Number(*offset)));
                assert(are_members(inner@, m1));
                push_member(&mut inner, "bytes", json_text(bytes.as_str()));
                let ghost m2 = m1.push(("bytes"@, Json::Text(bytes@)));
                assert(are_members(inner@, m2));
                let memcmp = json_object(inner);
                assert(memcmp.is_json(Json::Object(m2)));
                let mut members: Vec<(String, JsonValue)> = Vec::new();
                assert(are_members(members@, m0));
                push_member(&mut members, "memcmp", memcmp);
                assert(are_members(members@, m0.push(("memcmp"@, Json::Object(m2)))));
                json_object(members)
            },
        }
    }
}

/// The list of program filters as JSON.
pub open spec fn filters_json(filters: Seq<WebsocketProgramFilter>) -> Json {
    Json::Array(filters.map_values(|filter: WebsocketProgramFilter| filter.json()))
}

fn json_filters(filters: &Vec<WebsocketProgramFilter>) -> (r: JsonValue)
    ensures
        r.is_json(filters_json(filters@)),
{
    let mut items: Vec<JsonValue> = Vec::with_capacity(filters.len());
    let mut i: usize = 0;
    while i < filters.len()
        invariant
            i <= filters@.len(),
            items@.len() == i,
            forall|j: int| 0 <= j < i ==> #[trigger] items@[j].is_json(filters@[j].json()),
        decreases filters@.len() - i,
    {
        let item = filters[i].as_json();
        items.push(item);
        i += 1;
    }
    let array = JsonValue::Array(items);
    proof {
        let model = filters_json(filters@)->Array_0;
        assert forall|j: int| 0 <= j < items@.len() implies (#[trigger] items@[j]).is_json(model[j]) by {
            assert(items@[j].is_json(filters@[j].json()));
        }
        assert(items@.len() == model.len());
        assert(array.is_json(Json::Array(model)));
    }
    array
}

/// Members that ask for a commitment and for base64.
pub open spec fn encoding_members(commitment: WebsocketTransactionCommitment) -> Seq<(Seq<char>, Json)> {
    Seq::<(Seq<char>, Json)>::empty().push(("commitment"@, Json::Text(commitment.label()@))).push(
        ("encoding"@, Json::Text("base64"@)),
    )
}

fn push_encoding(members: &mut Vec<(String, JsonValue)>, commitment: WebsocketTransactionCommitment)
    requires
        old(members)@.len() == 0,
    ensures
        are_members(final(members)@, encoding_members(commitment)),
{
    let ghost m0 = Seq::<(Seq<char>, Json)>::empty();
    assert(are_members(members@, m0));
    push_member(members, "commitment", json_text(commitment.as_str()));
    let ghost m1 = m0.push(("commitment"@, Json::Text(commitment.label()@)));
    assert(are_members(members@, m1));
    push_member(members, "encoding", json_text("base64"));
    assert(are_members(members@, m1.push(("encoding"@, Json::Text("base64"@)))));
}

/// Config of a primary websocket source.
#[derive(Clone, Debug)]
pub struct WebsocketTransactionConfig {
    /// Endpoint.
    pub endpoint: String,
    /// HTTP endpoint for replay, derived from the endpoint if absent.
    pub http_endpoint: Option<String>,
    /// Source policy.
    pub source: SourceSettings,
    /// Selected stream.
    pub stream: WebsocketPrimaryStream,
    /// Filters of a program stream.
    pub program_filters: Vec<WebsocketProgramFilter>,
    /// Commitment.
    pub commitment: WebsocketTransactionCommitment,
    /// Vote filter.
    pub vote: Option<bool>,
    /// Failed filter.
    pub failed: Option<bool>,
    /// Signature filter.
    pub signature: Option<SignatureBytes>,
    /// Account-include filter.
    pub account_include: Vec<PubkeyBytes>,
    /// Account-exclude filter.
    pub account_exclude: Vec<PubkeyBytes>,
    /// Account-required filter.
    pub account_required: Vec<PubkeyBytes>,
    /// Time between pings.
    pub ping_interval: Option<Duration>,
    /// Time without progress after which a session counts as stalled.
    pub stall_timeout: Option<Duration>,
    /// Pause before a reconnect.
    pub reconnect_delay: Duration,
    /// Failures in a row after which the source gives up.
    pub max_reconnect_attempts: Option<u32>,
    /// Whether the gap that a reconnect leaves is replayed.
    pub replay_on_reconnect: bool,
    /// Whether the user chose that.
    pub replay_on_reconnect_explicit: bool,
    /// Most slots to replay.
    pub replay_max_slots: u64,
    /// Whether the user chose that.
    pub replay_max_slots_explicit: bool,
}

impl WebsocketTransactionConfig {
    /// Creates a config of a transaction stream without filters, which replays gaps.
    pub fn new(endpoint: &str) -> (r: Self)
        ensures
            r.endpoint@ == endpoint@,
            r.http_endpoint is None,
            r.source == SourceSettings::in_role(ProviderSourceReadiness::Required, ProviderSourceRole::Primary),
            r.stream is Transaction,
            r.program_filters@.len() == 0,
            r.commitment == WebsocketTransactionCommitment::Processed,
            r.vote is None,
            r.failed is None,
            r.signature is None,
            r.account_include@.len() == 0,
            r.account_exclude@.len() == 0,
            r.account_required@.len() == 0,
            is_secs(r.ping_interval, 60),
            is_secs(r.stall_timeout, 30),
            r.reconnect_delay.nanos() == 1_000_000_000,
            r.max_reconnect_attempts is None,
            r.replay_on_reconnect,
            !r.replay_on_reconnect_explicit,
            r.replay_max_slots == 128,
            !r.replay_max_slots_explicit,
    {
        WebsocketTransactionConfig {
            endpoint: endpoint.to_owned(),
            http_endpoint: None,
            source: SourceSettings::new(ProviderSourceReadiness::Required, ProviderSourceRole::Primary),
            stream: WebsocketPrimaryStream::Transaction,
            program_filters: Vec::new(),
            commitment: WebsocketTransactionCommitment::Processed,
            vote: None,
            failed: None,
            signature: None,
            account_include: Vec::new(),
            account_exclude: Vec::new(),
            account_required: Vec::new(),
            ping_interval: Some(Duration::from_secs(60)),
            stall_timeout: Some(Duration::from_secs(30)),
            reconnect_delay: Duration::from_secs(1),
            max_reconnect_attempts: None,
            replay_on_reconnect: true,
            replay_on_reconnect_explicit: false,
            replay_max_slots: 128,
            replay_max_slots_explicit: false,
        }
    }

    /// Returns the endpoint.
    pub fn endpoint(&self) -> (r: &str)
        ensures
            r@ == self.endpoint@,
    {
        self.endpoint.as_str()
    }

    /// Returns the HTTP endpoint for replay, if the user gave one.
    pub fn http_endpoint(&self) -> (r: Option<&str>)
        ensures
            match r {
                Some(endpoint) => self.http_endpoint matches Some(own) && endpoint@ == own@,
                None => self.http_endpoint is None,
            },
    {
        match &self.http_endpoint {
            Some(endpoint) => Some(endpoint.as_str()),
            None => None,
        }
    }

    /// Sets the instance label.
    pub fn with_source_instance(self, instance: &str) -> (r: Self)
        ensures
            r == (WebsocketTransactionConfig { source: SourceSettings { instance: r.source.instance, ..self.source }, ..self }),
            r.source.instance matches Some(label) && label@ == instance@,
    {
        let mut config = self;
        config.source.instance = Some(shared_text(instance));
        config
    }

    /// Sets whether the source takes part in readiness.
    pub fn with_readiness(self, readiness: ProviderSourceReadiness) -> (r: Self)
        ensures
            r == (WebsocketTransactionConfig { source: SourceSettings { readiness, ..self.source }, ..self }),
    {
        let mut config = self;
        config.source.readiness = readiness;
        config
    }

    /// Sets the role, and the priority to that role's default.
    pub fn with_source_role(self, role: ProviderSourceRole) -> (r: Self)
        ensures
            r == (WebsocketTransactionConfig {
                source: SourceSettings { role, priority: role.priority(), ..self.source },
                ..self
            }),
    {
        let mut config = self;
        config.source.role = role;
        config.source.priority = role.default_priority();
        config
    }

    /// Sets the arbitration priority.
    pub fn with_source_priority(self, priority: u16) -> (r: Self)
        ensures
            r == (WebsocketTransactionConfig { source: SourceSettings { priority, ..self.source }, ..self }),
    {
        let mut config = self;
        config.source.priority = priority;
        config
    }

    /// Sets the treatment of duplicates.
    pub fn with_source_arbitration(self, arbitration: ProviderSourceArbitrationMode) -> (r: Self)
        ensures
            r == (WebsocketTransactionConfig { source: SourceSettings { arbitration, ..self.source }, ..self }),
    {
        let mut config = self;
        config.source.arbitration = arbitration;
        config
    }

    /// Selects the stream.
    pub fn with_stream(self, stream: WebsocketPrimaryStream) -> (r: Self)
        ensures
            r == (WebsocketTransactionConfig { stream, ..self }),
    {
        let mut config = self;
        config.stream = stream;
        config
    }

    /// Sets the HTTP endpoint for replay.
    pub fn with_http_endpoint(self, endpoint: &str) -> (r: Self)
        ensures
            r == (WebsocketTransactionConfig { http_endpoint: r.http_endpoint, ..self }),
            r.http_endpoint matches Some(own) && own@ == endpoint@,
    {
        let mut config = self;
        config.http_endpoint = Some(endpoint.to_owned());
        config
    }

    /// Chooses the commitment.
    pub fn with_commitment(self, commitment: WebsocketTransactionCommitment) -> (r: Self)
        ensures
            r == (WebsocketTransactionConfig { commitment, ..self }),
    {
        let mut config = self;
        config.commitment = commitment;
        config
    }

    /// Sets the vote filter.
    pub fn with_vote(self, vote: bool) -> (r: Self)
        ensures
            r == (WebsocketTransactionConfig { vote: Some(vote), ..self }),
    {
        let mut config = self;
        config.vote = Some(vote);
        config
    }

    /// Sets the failed filter.
    pub fn with_failed(self, failed: bool) -> (r: Self)
        ensures
            r == (WebsocketTransactionConfig { failed: Some(failed), ..self }),
    {
        let mut config = self;
        config.failed = Some(failed);
        config
    }

    /// Narrows the stream to one signature.
    pub fn with_signature(self, signature: SignatureBytes) -> (r: Self)
        ensures
            r == (WebsocketTransactionConfig { signature: Some(signature), ..self }),
    {
        let mut config = self;
        config.signature = Some(signature);
        config
    }

    /// Requires one of the keys, added to those before, to occur.
    pub fn with_account_include(self, keys: Vec<PubkeyBytes>) -> (r: Self)
        ensures
            r == (WebsocketTransactionConfig { account_include: r.account_include, ..self }),
            r.account_include@ == self.account_include@ + keys@,
    {
        let mut config = self;
        let mut added = keys;
        config.account_include.append(&mut added);
        config
    }

    /// Requires none of the keys, added to those before, to occur.
    pub fn with_account_exclude(self, keys: Vec<PubkeyBytes>) -> (r: Self)
        ensures
            r == (WebsocketTransactionConfig { account_exclude: r.account_exclude, ..self }),
            r.account_exclude@ == self.account_exclude@ + keys@,
    {
        let mut config = self;
        let mut added = keys;
        config.account_exclude.append(&mut added);
        config
    }

    /// Requires all of the keys, added to those before, to occur.
    pub fn with_account_required(self, keys: Vec<PubkeyBytes>) -> (r: Self)
        ensures
            r == (WebsocketTransactionConfig { account_required: r.account_required, ..self }),
            r.account_required@ == self.account_required@ + keys@,
    {
        let mut config = self;
        let mut added = keys;
        config.account_required.append(&mut added);
        config
    }

    /// Sets the time between pings.
    pub fn with_ping_interval(self, interval: Duration) -> (r: Self)
        ensures
            r == (WebsocketTransactionConfig { ping_interval: Some(interval), ..self }),
    {
        let mut config = self;
        config.ping_interval = Some(interval);
        config
    }

    /// Sets the time without progress after which a session counts as stalled.
    pub fn with_stall_timeout(self, timeout: Duration) -> (r: Self)
        ensures
            r == (WebsocketTransactionConfig { stall_timeout: Some(timeout), ..self }),
    {
        let mut config = self;
        config.stall_timeout = Some(timeout);
        config
    }

    /// Sets the pause before a reconnect.
    pub fn with_reconnect_delay(self, delay: Duration) -> (r: Self)
        ensures
            r == (WebsocketTransactionConfig { reconnect_delay: delay, ..self }),
    {
        let mut config = self;
        config.reconnect_delay = delay;
        config
    }

    /// Sets the failures in a row after which the source gives up.
    pub fn with_max_reconnect_attempts(self, attempts: u32) -> (r: Self)
        ensures
            r == (WebsocketTransactionConfig { max_reconnect_attempts: Some(attempts), ..self }),
    {
        let mut config = self;
        config.max_reconnect_attempts = Some(attempts);
        config
    }

    /// Chooses whether gaps are replayed.
    pub fn with_replay_on_reconnect(self, replay: bool) -> (r: Self)
        ensures
            r == (WebsocketTransactionConfig { replay_on_reconnect: replay, replay_on_reconnect_explicit: true, ..self }),
    {
        let mut config = self;
        config.replay_on_reconnect = replay;
        config.replay_on_reconnect_explicit = true;
        config
    }

    /// Chooses the most slots to replay.
    pub fn with_replay_max_slots(self, slots: u64) -> (r: Self)
        ensures
            r == (WebsocketTransactionConfig { replay_max_slots: slots, replay_max_slots_explicit: true, ..self }),
    {
        let mut config = self;
        config.replay_max_slots = slots;
        config.replay_max_slots_explicit = true;
        config
    }

    /// Adds filters of a program stream.
    pub fn with_program_filters(self, filters: Vec<WebsocketProgramFilter>) -> (r: Self)
        ensures
            r == (WebsocketTransactionConfig { program_filters: r.program_filters, ..self }),
            r.program_filters@ == self.program_filters@ + filters@,
    {
        let mut config = self;
        let mut added = filters;
        config.program_filters.append(&mut added);
        config
    }

    /// The first setting that only a transaction stream supports.
    pub open spec fn transaction_only(self) -> Option<WebsocketConfigOption> {
        if self.http_endpoint is Some {
            Some(WebsocketConfigOption::HttpEndpoint)
        } else if self.vote is Some {
            Some(WebsocketConfigOption::VoteFilter)
        } else if self.failed is Some {
            Some(WebsocketConfigOption::FailedFilter)
        } else if self.signature is Some {
            Some(WebsocketConfigOption::SignatureFilter)
        } else if self.account_include@.len() > 0 {
            Some(WebsocketConfigOption::AccountIncludeFilter)
        } else if self.account_exclude@.len() > 0 {
            Some(WebsocketConfigOption::AccountExcludeFilter)
        } else if self.account_required@.len() > 0 {
            Some(WebsocketConfigOption::AccountRequiredFilter)
        } else if self.replay_on_reconnect_explicit && self.replay_on_reconnect {
            Some(WebsocketConfigOption::ReplayOnReconnect)
        } else if self.replay_max_slots_explicit {
            Some(WebsocketConfigOption::ReplayMaxSlots)
        } else {
            None
        }
    }

    /// The first setting that the selected stream does not support.
    pub open spec fn unsupported(self) -> Option<WebsocketConfigOption> {
        if self.stream !is Transaction && self.transaction_only() is Some {
            self.transaction_only()
        } else if self.stream !is Program && self.program_filters@.len() > 0 {
            Some(WebsocketConfigOption::ProgramFilters)
        } else {
            None
        }
    }

    fn transaction_only_option(&self) -> (r: Option<WebsocketConfigOption>)
        ensures
            r == self.transaction_only(),
    {
        if self.http_endpoint.is_some() {
            Some(WebsocketConfigOption::HttpEndpoint)
        } else if self.vote.is_some() {
            Some(WebsocketConfigOption::VoteFilter)
        } else if self.failed.is_some() {
            Some(WebsocketConfigOption::FailedFilter)
        } else if self.signature.is_some() {
            Some(WebsocketConfigOption::SignatureFilter)
        } else if self.account_include.len() > 0 {
            Some(WebsocketConfigOption::AccountIncludeFilter)
        } else if self.account_exclude.len() > 0 {
            Some(WebsocketConfigOption::AccountExcludeFilter)
        } else if self.account_required.len() > 0 {
            Some(WebsocketConfigOption::AccountRequiredFilter)
        } else if self.replay_on_reconnect_explicit && self.replay_on_reconnect {
            Some(WebsocketConfigOption::ReplayOnReconnect)
        } else if self.replay_max_slots_explicit {
            Some(WebsocketConfigOption::ReplayMaxSlots)
        } else {
            None
        }
    }

    /// Refuses the first setting that the selected stream does not support.
    pub fn validate(&self) -> (r: Result<(), WebsocketConfigError>)
        ensures
            match self.unsupported() {
                None => r is Ok,
                Some(option) => r == Err::<(), _>(
                    WebsocketConfigError::UnsupportedOption { stream: self.stream.kind_of_stream(), option },
                ),
            },
    {
        let transaction: bool = matches!(self.stream, WebsocketPrimaryStream::Transaction);
        let program: bool = matches!(self.stream, WebsocketPrimaryStream::Program(_));
        if !transaction {
            if let Some(option) = self.transaction_only_option() {
                return Err(WebsocketConfigError::UnsupportedOption { stream: self.stream.kind(), option });
            }
        }
        if !program && self.program_filters.len() > 0 {
            return Err(
                WebsocketConfigError::UnsupportedOption {
                    stream: self.stream.kind(),
                    option: WebsocketConfigOption::ProgramFilters,
                },
            );
        }
        Ok(())
    }

    /// The members of the filter of a transaction stream: only what was set.
    pub open spec fn filter_members(self) -> Seq<(Seq<char>, Json)> {
        let m0 = Seq::<(Seq<char>, Json)>::empty();
        let m1 = if self.vote is Some {
            m0.push(("vote"@, Json::Bool(self.vote->0)))
        } else {
            m0
        };
        let m2 = if self.failed is Some {
            m1.push(("failed"@, Json::Bool(self.failed->0)))
        } else {
            m1
        };
        let m3 = if self.signature is Some {
            m2.push(("signature"@, Json::Text(signature_base58(self.signature->0@))))
        } else {
            m2
        };
        let m4 = if self.account_include@.len() > 0 {
            m3.push(("accountInclude"@, keys_json(self.account_include@)))
        } else {
            m3
        };
        let m5 = if self.account_exclude@.len() > 0 {
            m4.push(("accountExclude"@, keys_json(self.account_exclude@)))
        } else {
            m4
        };
        if self.account_required@.len() > 0 {
            m5.push(("accountRequired"@, keys_json(self.account_required@)))
        } else {
            m5
        }
    }

    /// The subscription request as JSON.
    pub open spec fn request_json(self) -> Json {
        match self.stream {
            WebsocketPrimaryStream::Transaction => call_json(
                "transactionSubscribe"@,
                Json::Array(
                    seq![
                        Json::Object(self.filter_members()),
                        Json::Object(
                            encoding_members(self.commitment).push(
                                ("transactionDetails"@, Json::Text("full"@)),
                            ).push(("maxSupportedTransactionVersion"@, Json::Number(0))),
                        ),
                    ],
                ),
            ),
            WebsocketPrimaryStream::Account(key) => call_json(
                "accountSubscribe"@,
                Json::Array(
                    seq![
                        Json::Text(pubkey_base58(key@)),
                        Json::Object(encoding_members(self.commitment)),
                    ],
                ),
            ),
            WebsocketPrimaryStream::Program(key) => call_json(
                "programSubscribe"@,
                Json::Array(
                    seq![
                        Json::Text(pubkey_base58(key@)),
                        Json::Object(
                            encoding_members(self.commitment).push(
                                ("filters"@, filters_json(self.program_filters@)),
                            ),
                        ),
                    ],
                ),
            ),
        }
    }

    fn transaction_filter(&self) -> (r: JsonValue)
        ensures
            r.is_json(Json::Object(self.filter_members())),
    {
        let mut members: Vec<(String, JsonValue)> = Vec::new();
        let ghost mut model = Seq::<(Seq<char>, Json)>::empty();
        assert(are_members(members@, model));
        if let Some(vote) = self.vote {
            let value = JsonValue::Bool(vote);
            assert(value.is_json(Json::Bool(vote)));
            push_member(&mut members, "vote", value);
            proof {
                model = model.push(("vote"@, Json::Bool(vote)));
            }
        }
        assert(are_members(members@, model));
        if let Some(failed) = self.failed {
            let value = JsonValue::Bool(failed);
            assert(value.is_json(Json::Bool(failed)));
            push_member(&mut members, "failed", value);
            proof {
                model = model.push(("failed"@, Json::Bool(failed)));
            }
        }
        assert(are_members(members@, model));
        if let Some(signature) = self.signature {
            let value = JsonValue::Text(signature_text(&signature));
            assert(value.is_json(Json::Text(signature_base58(signature@))));
            push_member(&mut members, "signature", value);
            proof {
                model = model.push(("signature"@, Json::Text(signature_base58(signature@))));
            }
        }
        assert(are_members(members@, model));
        if self.account_include.len() > 0 {
            push_member(&mut members, "accountInclude", json_keys(&self.account_include));
            proof {
                model = model.push(("accountInclude"@, keys_json(self.account_include@)));
            }
        }
        assert(are_members(members@, model));
        if self.account_exclude.len() > 0 {
            push_member(&mut members, "accountExclude", json_keys(&self.account_exclude));
            proof {
                model = model.push(("accountExclude"@, keys_json(self.account_exclude@)));
            }
        }
        assert(are_members(members@, model));
        if self.account_required.len() > 0 {
            push_member(&mut members, "accountRequired", json_keys(&self.account_required));
            proof {
                model = model.push(("accountRequired"@, keys_json(self.account_required@)));
            }
        }
        assert(are_members(members@, model));
        assert(model == self.filter_members());
        json_object(members)
    }

    /// Makes the subscription request.
    pub fn subscribe_request(&self) -> (r: JsonValue)
        ensures
            r.is_json(self.request_json()),
    {
        let mut settings: Vec<(String, JsonValue)> = Vec::new();
        push_encoding(&mut settings, self.commitment);
        let ghost m2 = encoding_members(self.commitment);
        match self.stream {
            WebsocketPrimaryStream::Transaction => {
                push_member(&mut settings, "transactionDetails", json_text("full"));
                let ghost m3 = m2.push(("transactionDetails"@, Json::Text("full"@)));
                assert(are_members(settings@, m3));
                let version = JsonValue::Number(0);
                assert(version.is_json(Json::Number(0)));
                push_member(&mut settings, "maxSupportedTransactionVersion", version);
                let ghost m4 = m3.push(("maxSupportedTransactionVersion"@, Json::Number(0)));
                assert(are_members(settings@, m4));
                let second = json_object(settings);
                let first = self.transaction_filter();
                assert(second.is_json(Json::Object(m4)));
                let params = json_pair(first, second);
                assert(params.is_json(Json::Array(seq![Json::Object(self.filter_members()), Json::Object(m4)])));
                json_call("transactionSubscribe", params)
            },
            WebsocketPrimaryStream::Account(key) => {
                let first = JsonValue::Text(pubkey_text(&key));
                let second = json_object(settings);
                assert(first.is_json(Json::Text(pubkey_base58(key@))));
                assert(second.is_json(Json::Object(m2)));
                let params = json_pair(first, second);
                assert(params.is_json(Json::Array(seq![Json::Text(pubkey_base58(key@)), Json::Object(m2)])));
                json_call("accountSubscribe", params)
            },
            WebsocketPrimaryStream::Program(key) => {
                push_member(&mut settings, "filters", json_filters(&self.program_filters));
                let ghost m3 = m2.push(("filters"@, filters_json(self.program_filters@)));
                assert(are_members(settings@, m3));
                let first = JsonValue::Text(pubkey_text(&key));
                let second = json_object(settings);
                assert(first.is_json(Json::Text(pubkey_base58(key@))));
                assert(second.is_json(Json::Object(m3)));
                let params = json_pair(first, second);
                assert(params.is_json(Json::Array(seq![Json::Text(pubkey_base58(key@)), Json::Object(m3)])));
                json_call("programSubscribe", params)
            },
        }
    }

    /// The runtime mode of the selected stream.
    pub fn runtime_mode(&self) -> (r: ProviderStreamMode)
        ensures
            r == self.stream.mode_of_stream(),
    {
        self.stream.mode()
    }

    /// The identity to reserve: none without an instance label.
    pub fn source_identity(&self) -> (r: Option<ProviderSourceIdentity>)
        ensures
            match r {
                Some(identity) => self.source.instance matches Some(own) && self.source.describes(
                    self.stream.source_of_stream(),
                    own@,
                    identity,
                ),
                None => self.source.instance is None,
            },
    {
        self.source.source_identity(self.stream.source_id())
    }

    /// The identity under which the source runs: its label, or one made with `sequence`.
    pub fn resolved_source_identity(&self, sequence: u64) -> (r: ProviderSourceIdentity)
        ensures
            match self.source.instance {
                Some(own) => self.source.describes(self.stream.source_of_stream(), own@, r),
                None => self.source.describes(
                    self.stream.source_of_stream(),
                    self.stream.source_of_stream().label() + "-"@ + decimal_text(sequence as nat),
                    r,
                ),
            },
    {
        self.source.resolved_source_identity(self.stream.source_id(), sequence)
    }

    /// What the kind label of a source reads as in the text that reports it before its first
    /// session.
    pub open spec fn short_label(label: Seq<char>) -> Seq<char> {
        match without_prefix(label, "websocket_"@) {
            Some(rest) => rest,
            None => label,
        }
    }

    /// The texts that a source of this config reports with.
    pub fn messages(&self, source: &ProviderSourceIdentity) -> (r: SourceMessages)
        ensures
            r.waiting@ == "waiting for first websocket "@ + Self::short_label(source.kind.label())
                + " session ack"@,
            r.ended@ == self.stream.kind_of_stream().label()@ + " stream ended unexpectedly"@,
            r.exhausted@ == "exhausted websocket reconnect attempts after "@,
    {
        let label = source.kind_str();
        let short = match strip_text_prefix(label, "websocket_") {
            Some(rest) => rest,
            None => label,
        };
        SourceMessages {
            waiting: joined3("waiting for first websocket ", short, " session ack"),
            ended: joined(self.stream.kind().as_str(), " stream ended unexpectedly"),
            exhausted: "exhausted websocket reconnect attempts after ".to_owned(),
        }
    }

    /// The HTTP endpoint that replay uses: the one that the user gave, otherwise the websocket
    /// endpoint with its scheme exchanged, none for another scheme.
    pub open spec fn replay_endpoint(self) -> Option<Seq<char>> {
        match self.http_endpoint {
            Some(own) => Some(own@),
            None => match without_prefix(self.endpoint@, "wss://"@) {
                Some(rest) => Some("https://"@ + rest),
                None => match without_prefix(self.endpoint@, "ws://"@) {
                    Some(rest) => Some("http://"@ + rest),
                    None => None,
                },
            },
        }
    }

    /// Whether the gap that a reconnect leaves is replayed.
    pub open spec fn replays_gaps(self) -> bool {
        self.stream is Transaction && self.replay_on_reconnect
    }

    /// Whether the gap that a reconnect leaves is replayed.
    pub fn replays(&self) -> (r: bool)
        ensures
            r == self.replays_gaps(),
    {
        matches!(self.stream, WebsocketPrimaryStream::Transaction) && self.replay_on_reconnect
    }

    /// Refuses to connect where replay is on and there is no HTTP endpoint for it.
    pub fn check_replay_endpoint(&self) -> (r: Result<(), WebsocketTransactionError>)
        ensures
            if self.replays_gaps() && self.replay_endpoint() is None {
                r matches Err(WebsocketTransactionError::Protocol(error)) && error is MissingReplayHttpEndpoint
            } else {
                r is Ok
            },
    {
        if self.replays() && websocket_http_endpoint(self).is_none() {
            Err(WebsocketTransactionError::Protocol(WebsocketProtocolError::MissingReplayHttpEndpoint))
        } else {
            Ok(())
        }
    }
}

/// The HTTP endpoint that replay uses.
pub fn websocket_http_endpoint(config: &WebsocketTransactionConfig) -> (r: Option<String>)
    ensures
        match r {
            Some(endpoint) => config.replay_endpoint() == Some(endpoint@),
            None => config.replay_endpoint() is None,
        },
{
    if let Some(endpoint) = config.http_endpoint() {
        return Some(endpoint.to_owned());
    }
    if let Some(rest) = strip_text_prefix(config.endpoint.as_str(), "wss://") {
        return Some(joined("https://", rest));
    }
    if let Some(rest) = strip_text_prefix(config.endpoint.as_str(), "ws://") {
        return Some(joined("http://", rest));
    }
    None
}

/// Which transactions a log stream reports.
#[derive(Clone, Copy, Debug, PartialEq, Eq)]
pub enum WebsocketLogsFilter {
    /// All but votes.
    All,
    /// All.
    AllWithVotes,
    /// Those that mention a key.
    Mentions(PubkeyBytes),
}

impl Default for WebsocketLogsFilter {
    fn default() -> (r: Self)
        ensures
            r is All,
    {
        WebsocketLogsFilter::All
    }
}

/// Config of a websocket log source.
#[derive(Clone, Debug)]
pub struct WebsocketLogsConfig {
    /// Endpoint.
    pub endpoint: String,
    /// Source policy.
    pub source: SourceSettings,
    /// Commitment.
    pub commitment: WebsocketTransactionCommitment,
    /// Filter.
    pub filter: WebsocketLogsFilter,
    /// Time between pings.
    pub ping_interval: Option<Duration>,
    /// Time without progress after which a session counts as stalled.
    pub stall_timeout: Option<Duration>,
    /// Pause before a reconnect.
    pub reconnect_delay: Duration,
    /// Failures in a row after which the source gives up.
    pub max_reconnect_attempts: Option<u32>,
}

impl WebsocketLogsConfig {
    /// Creates a config of an optional log source without votes.
    pub fn new(endpoint: &str) -> (r: Self)
        ensures
            r.endpoint@ == endpoint@,
            r.source == SourceSettings::in_role(ProviderSourceReadiness::Optional, ProviderSourceRole::Primary),
            r.commitment == WebsocketTransactionCommitment::Processed,
            r.filter is All,
            is_secs(r.ping_interval, 60),
            is_secs(r.stall_timeout, 30),
            r.reconnect_delay.nanos() == 1_000_000_000,
            r.max_reconnect_attempts is None,
    {
        WebsocketLogsConfig {
            endpoint: endpoint.to_owned(),
            source: SourceSettings::new(ProviderSourceReadiness::Optional, ProviderSourceRole::Primary),
            commitment: WebsocketTransactionCommitment::Processed,
            filter: WebsocketLogsFilter::All,
            ping_interval: Some(Duration::from_secs(60)),
            stall_timeout: Some(Duration::from_secs(30)),
            reconnect_delay: Duration::from_secs(1),
            max_reconnect_attempts: None,
        }
    }

    /// Returns the endpoint.
    pub fn endpoint(&self) -> (r: &str)
        ensures
            r@ == self.endpoint@,
    {
        self.endpoint.as_str()
    }

    /// Sets the instance label.
    pub fn with_source_instance(self, instance: &str) -> (r: Self)
        ensures
            r == (WebsocketLogsConfig { source: SourceSettings { instance: r.source.instance, ..self.source }, ..self }),
            r.source.instance matches Some(label) && label@ == instance@,
    {
        let mut config = self;
        config.source.instance = Some(shared_text(instance));
        config
    }

    /// Sets whether the source takes part in readiness.
    pub fn with_readiness(self, readiness: ProviderSourceReadiness) -> (r: Self)
        ensures
            r == (WebsocketLogsConfig { source: SourceSettings { readiness, ..self.source }, ..self }),
    {
        let mut config = self;
        config.source.readiness = readiness;
        config
    }

    /// Sets the role, and the priority to that role's default.
    pub fn with_source_role(self, role: ProviderSourceRole) -> (r: Self)
        ensures
            r == (WebsocketLogsConfig {
                source: SourceSettings { role, priority: role.priority(), ..self.source },
                ..self
            }),
    {
        let mut config = self;
        config.source.role = role;
        config.source.priority = role.default_priority();
        config
    }

    /// Sets the arbitration priority.
    pub fn with_source_priority(self, priority: u16) -> (r: Self)
        ensures
            r == (WebsocketLogsConfig { source: SourceSettings { priority, ..self.source }, ..self }),
    {
        let mut config = self;
        config.source.priority = priority;
        config
    }

    /// Sets the treatment of duplicates.
    pub fn with_source_arbitration(self, arbitration: ProviderSourceArbitrationMode) -> (r: Self)
        ensures
            r == (WebsocketLogsConfig { source: SourceSettings { arbitration, ..self.source }, ..self }),
    {
        let mut config = self;
        config.source.arbitration = arbitration;
        config
    }

    /// Chooses the commitment.
    pub fn with_commitment(self, commitment: WebsocketTransactionCommitment) -> (r: Self)
        ensures
            r == (WebsocketLogsConfig { commitment, ..self }),
    {
        let mut config = self;
        config.commitment = commitment;
        config
    }

    /// Sets the filter.
    pub fn with_filter(self, filter: WebsocketLogsFilter) -> (r: Self)
        ensures
            r == (WebsocketLogsConfig { filter, ..self }),
    {
        let mut config = self;
        config.filter = filter;
        config
    }

    /// Sets the time between pings.
    pub fn with_ping_interval(self, interval: Duration) -> (r: Self)
        ensures
            r == (WebsocketLogsConfig { ping_interval: Some(interval), ..self }),
    {
        let mut config = self;
        config.ping_interval = Some(interval);
        config
    }

    /// Sets the time without progress after which a session counts as stalled.
    pub fn with_stall_timeout(self, timeout: Duration) -> (r: Self)
        ensures
            r == (WebsocketLogsConfig { stall_timeout: Some(timeout), ..self }),
    {
        let mut config = self;
        config.stall_timeout = Some(timeout);
        config
    }

    /// Sets the pause before a reconnect.
    pub fn with_reconnect_delay(self, delay: Duration) -> (r: Self)
        ensures
            r == (WebsocketLogsConfig { reconnect_delay: delay, ..self }),
    {
        let mut config = self;
        config.reconnect_delay = delay;
        config
    }

    /// Sets the failures in a row after which the source gives up.
    pub fn with_max_reconnect_attempts(self, attempts: u32) -> (r: Self)
        ensures
            r == (WebsocketLogsConfig { max_reconnect_attempts: Some(attempts), ..self }),
    {
        let mut config = self;
        config.max_reconnect_attempts = Some(attempts);
        config
    }

    /// The filter as JSON.
    pub open spec fn filter_json(self) -> Json {
        match self.filter {
            WebsocketLogsFilter::All => Json::Text("all"@),
            WebsocketLogsFilter::AllWithVotes => Json::Text("allWithVotes"@),
            WebsocketLogsFilter::Mentions(key) => Json::Object(
                Seq::<(Seq<char>, Json)>::empty().push(
                    ("mentions"@, Json::Array(seq![Json::Text(pubkey_base58(key@))])),
                ),
            ),
        }
    }

    /// The subscription request as JSON.
    pub open spec fn request_json(self) -> Json {
        call_json(
            "logsSubscribe"@,
            Json::Array(
                seq![
                    self.filter_json(),
                    Json::Object(
                        Seq::<(Seq<char>, Json)>::empty().push(
                            ("commitment"@, Json::Text(self.commitment.label()@)),
                        ),
                    ),
                ],
            ),
        )
    }

    /// Makes the subscription request.
    pub fn subscribe_request(&self) -> (r: JsonValue)
        ensures
            r.is_json(self.request_json()),
    {
        let ghost m0 = Seq::<(Seq<char>, Json)>::empty();
        let filter = match self.filter {
            WebsocketLogsFilter::All => json_text("all"),
            WebsocketLogsFilter::AllWithVotes => json_text("allWithVotes"),
            WebsocketLogsFilter::Mentions(key) => {
                let text = JsonValue::Text(pubkey_text(&key));
                assert(text.is_json(Json::Text(pubkey_base58(key@))));
                let mentions = json_single(text);
                let ghost list = Json::Array(seq![Json::Text(pubkey_base58(key@))]);
                assert(mentions.is_json(list));
                let mut members: Vec<(String, JsonValue)> = Vec::new();
                assert(are_members(members@, m0));
                push_member(&mut members, "mentions", mentions);
                assert(are_members(members@, m0.push(("mentions"@, list))));
                json_object(members)
            },
        };
        assert(filter.is_json(self.filter_json()));
        let mut members: Vec<(String, JsonValue)> = Vec::new();
        assert(are_members(members@, m0));
        push_member(&mut members, "commitment", json_text(self.commitment.as_str()));
        let ghost m1 = m0.push(("commitment"@, Json::Text(self.commitment.label()@)));
        assert(are_members(members@, m1));
        let settings = json_object(members);
        assert(settings.is_json(Json::Object(m1)));
        let params = json_pair(filter, settings);
        assert(params.is_json(Json::Array(seq![self.filter_json(), Json::Object(m1)])));
        json_call("logsSubscribe", params)
    }

    /// The runtime mode of a log source.
    pub fn runtime_mode(&self) -> (r: ProviderStreamMode)
        ensures
            r == ProviderStreamMode::WebsocketLogs,
    {
        ProviderStreamMode::WebsocketLogs
    }

    /// The identity to reserve: none without an instance label.
    pub fn source_identity(&self) -> (r: Option<ProviderSourceIdentity>)
        ensures
            match r {
                Some(identity) => self.source.instance matches Some(own) && self.source.describes(
                    ProviderSourceId::WebsocketLogs,
                    own@,
                    identity,
                ),
                None => self.source.instance is None,
            },
    {
        self.source.source_identity(ProviderSourceId::WebsocketLogs)
    }

    /// The identity under which the source runs: its label, or one made with `sequence`.
    pub fn resolved_source_identity(&self, sequence: u64) -> (r: ProviderSourceIdentity)
        ensures
            match self.source.instance {
                Some(own) => self.source.describes(ProviderSourceId::WebsocketLogs, own@, r),
                None => self.source.describes(
                    ProviderSourceId::WebsocketLogs,
                    ProviderSourceId::WebsocketLogs.label() + "-"@ + decimal_text(sequence as nat),
                    r,
                ),
            },
    {
        self.source.resolved_source_identity(ProviderSourceId::WebsocketLogs, sequence)
    }

    /// The texts that a log source reports with.
    pub fn messages(&self) -> (r: SourceMessages)
        ensures
            r.waiting@ == "waiting for first websocket logs session ack"@,
            r.ended@ == "websocket logs stream ended unexpectedly"@,
            r.exhausted@ == "exhausted websocket logs reconnect attempts after "@,
    {
        SourceMessages {
            waiting: "waiting for first websocket logs session ack".to_owned(),
            ended: "websocket logs stream ended unexpectedly".to_owned(),
            exhausted: "exhausted websocket logs reconnect attempts after ".to_owned(),
        }
    }
}

/// A failure of the websocket protocol or of the HTTP calls that replay makes. Errors of the
/// transport and of the provider come as text.
#[derive(Debug, PartialEq, Eq)]
pub enum WebsocketProtocolError {
    /// No acknowledgement came in time.
    SubscriptionAckTimeout,
    /// The websocket closed before the acknowledgement.
    ClosedBeforeSubscriptionAck,
    /// The websocket closed before the acknowledgement, with this frame.
    ClosedBeforeSubscriptionAckWithFrame(String),
    /// The stream made no progress.
    StreamStalled {
        /// The stream.
        stream: WebsocketStreamKind,
    },
    /// The websocket closed, with this frame.
    Closed(String),
    /// A message was no valid JSON.
    InvalidJson(String),
    /// The provider refused the subscription.
    SubscriptionError(String),
    /// The provider reported an error.
    ProviderError(String),
    /// A log notification carried no valid signature.
    InvalidLogSignature,
    /// An HTTP call failed.
    HttpRpcFailed {
        /// The method.
        method: &'static str,
        /// What happened.
        detail: String,
    },
    /// The answer to an HTTP call could not be read.
    HttpRpcDecodeFailed {
        /// The method.
        method: &'static str,
        /// What happened.
        detail: String,
    },
    /// The answer to an HTTP call carried no result.
    HttpRpcMissingResult {
        /// The method.
        method: &'static str,
    },
    /// Replay is on and there is no HTTP endpoint for it.
    MissingReplayHttpEndpoint,
    /// No reconnect attempts are left.
    ReconnectBudgetExhausted {
        /// Failures in a row.
        attempts: u32,
    },
}

impl WebsocketProtocolError {
    /// The text of the error.
    pub open spec fn text(self) -> Seq<char> {
        match self {
            WebsocketProtocolError::SubscriptionAckTimeout => "timed out waiting for websocket subscription ack"@,
            WebsocketProtocolError::ClosedBeforeSubscriptionAck => "websocket closed before subscription ack"@,
            WebsocketProtocolError::ClosedBeforeSubscriptionAckWithFrame(text) => "websocket closed before subscription ack: "@ + text@,
            WebsocketProtocolError::Closed(text) => "websocket closed: "@ + text@,
            WebsocketProtocolError::InvalidJson(text) => "invalid websocket json: "@ + text@,
            WebsocketProtocolError::SubscriptionError(text) => "websocket subscription error: "@ + text@,
            WebsocketProtocolError::ProviderError(text) => "websocket provider error: "@ + text@,
            WebsocketProtocolError::InvalidLogSignature => "invalid websocket log signature"@,
            WebsocketProtocolError::MissingReplayHttpEndpoint => "websocket reconnect replay requires a matching http rpc endpoint"@,
            WebsocketProtocolError::StreamStalled { stream } => stream.label()@
                + " stream stalled without inbound progress"@,
            WebsocketProtocolError::HttpRpcFailed { method, detail } => "http rpc "@ + method@ + " failed: "@
                + detail@,
            WebsocketProtocolError::HttpRpcDecodeFailed { method, detail } => "http rpc "@ + method@
                + " decode failed: "@ + detail@,
            WebsocketProtocolError::HttpRpcMissingResult { method } => "http rpc "@ + method@
                + " returned no result"@,
            WebsocketProtocolError::ReconnectBudgetExhausted { attempts } => {
                "exhausted websocket reconnect attempts after "@ + decimal_text(attempts as nat) + " failures"@
            },
        }
    }

    /// Writes the error for a human reader.
    pub fn to_text(&self) -> (r: String)
        ensures
            r@ == self.text(),
    {
        match self {
            WebsocketProtocolError::SubscriptionAckTimeout => "timed out waiting for websocket subscription ack".to_owned(),
            WebsocketProtocolError::ClosedBeforeSubscriptionAck => "websocket closed before subscription ack".to_owned(),
            WebsocketProtocolError::ClosedBeforeSubscriptionAckWithFrame(text) => joined("websocket closed before subscription ack: ", text.as_str()),
            WebsocketProtocolError::Closed(text) => joined("websocket closed: ", text.as_str()),
            WebsocketProtocolError::InvalidJson(text) => joined("invalid websocket json: ", text.as_str()),
            WebsocketProtocolError::SubscriptionError(text) => joined("websocket subscription error: ", text.as_str()),
            WebsocketProtocolError::ProviderError(text) => joined("websocket provider error: ", text.as_str()),
            WebsocketProtocolError::InvalidLogSignature => "invalid websocket log signature".to_owned(),
            WebsocketProtocolError::MissingReplayHttpEndpoint => "websocket reconnect replay requires a matching http rpc endpoint".to_owned(),
            WebsocketProtocolError::StreamStalled { stream } => joined(
                stream.as_str(),
                " stream stalled without inbound progress",
            ),
            WebsocketProtocolError::HttpRpcFailed { method, detail } => {
                let head = joined3("http rpc ", method, " failed: ");
                joined(head.as_str(), detail.as_str())
            },
            WebsocketProtocolError::HttpRpcDecodeFailed { method, detail } => {
                let head = joined3("http rpc ", method, " decode failed: ");
                joined(head.as_str(), detail.as_str())
            },
            WebsocketProtocolError::HttpRpcMissingResult { method } => joined3(
                "http rpc ",
                method,
                " returned no result",
            ),
            WebsocketProtocolError::ReconnectBudgetExhausted { attempts } => {
                let number = decimal(*attempts as u64);
                joined3("exhausted websocket reconnect attempts after ", number.as_str(), " failures")
            },
        }
    }
}

/// An error of a primary websocket source.
#[derive(Debug)]
pub enum WebsocketTransactionError {
    /// The config cannot be used.
    Config(WebsocketConfigError),
    /// The transport failed, with its error as text.
    Transport(String),
    /// The protocol failed.
    Protocol(WebsocketProtocolError),
    /// A notification could not be converted.
    Convert(&'static str),
    /// Nobody receives updates any more.
    QueueClosed,
    /// The source is reserved already.
    DuplicateSourceIdentity(ProviderSourceIdentityRegistrationError),
}

impl WebsocketTransactionError {
    /// The text of the error.
    pub open spec fn text(self) -> Seq<char> {
        match self {
            WebsocketTransactionError::Config(error) => error.text(),
            WebsocketTransactionError::Transport(text) => text@,
            WebsocketTransactionError::Protocol(error) => error.text(),
            WebsocketTransactionError::Convert(what) => "websocket transaction conversion failed: "@ + what@,
            WebsocketTransactionError::QueueClosed => "provider-stream queue closed"@,
            WebsocketTransactionError::DuplicateSourceIdentity(error) => error.text(),
        }
    }

    /// Writes the error for a human reader.
    pub fn to_text(&self) -> (r: String)
        ensures
            r@ == self.text(),
    {
        match self {
            WebsocketTransactionError::Config(error) => error.to_text(),
            WebsocketTransactionError::Transport(text) => text.clone(),
            WebsocketTransactionError::Protocol(error) => error.to_text(),
            WebsocketTransactionError::Convert(what) => joined("websocket transaction conversion failed: ", what),
            WebsocketTransactionError::QueueClosed => "provider-stream queue closed".to_owned(),
            WebsocketTransactionError::DuplicateSourceIdentity(error) => error.to_text(),
        }
    }

    /// The reason under which the error is reported.
    pub open spec fn health_reason(self) -> ProviderSourceHealthReason {
        match self {
            WebsocketTransactionError::Transport(_) => ProviderSourceHealthReason::UpstreamTransportFailure,
            _ => ProviderSourceHealthReason::UpstreamProtocolFailure,
        }
    }
}

/// The reason under which an error is reported: a transport failure where the transport failed,
/// a protocol failure otherwise.
pub fn websocket_health_reason(error: &WebsocketTransactionError) -> (r: ProviderSourceHealthReason)
    ensures
        r == error.health_reason(),
{
    match error {
        WebsocketTransactionError::Transport(_) => ProviderSourceHealthReason::UpstreamTransportFailure,
        _ => ProviderSourceHealthReason::UpstreamProtocolFailure,
    }
}

/// An error of a websocket log source.
#[derive(Debug)]
pub enum WebsocketLogsError {
    /// The transport failed, with its error as text.
    Transport(String),
    /// The protocol failed.
    Protocol(WebsocketProtocolError),
    /// Nobody receives updates any more.
    QueueClosed,
    /// The source is reserved already.
    DuplicateSourceIdentity(ProviderSourceIdentityRegistrationError),
}

impl WebsocketLogsError {
    /// The text of the error.
    pub open spec fn text(self) -> Seq<char> {
        match self {
            WebsocketLogsError::Transport(text) => text@,
            WebsocketLogsError::Protocol(error) => error.text(),
            WebsocketLogsError::QueueClosed => "provider-stream queue closed"@,
            WebsocketLogsError::DuplicateSourceIdentity(error) => error.text(),
        }
    }

    /// Writes the error for a human reader.
    pub fn to_text(&self) -> (r: String)
        ensures
            r@ == self.text(),
    {
        match self {
            WebsocketLogsError::Transport(text) => text.clone(),
            WebsocketLogsError::Protocol(error) => error.to_text(),
            WebsocketLogsError::QueueClosed => "provider-stream queue closed".to_owned(),
            WebsocketLogsError::DuplicateSourceIdentity(error) => error.to_text(),
        }
    }

    /// The reason under which the error is reported.
    pub open spec fn health_reason(self) -> ProviderSourceHealthReason {
        match self {
            WebsocketLogsError::Transport(_) => ProviderSourceHealthReason::UpstreamTransportFailure,
            _ => ProviderSourceHealthReason::UpstreamProtocolFailure,
        }
    }
}

/// The reason under which an error of a log source is reported.
pub fn websocket_logs_health_reason(error: &WebsocketLogsError) -> (r: ProviderSourceHealthReason)
    ensures
        r == error.health_reason(),
{
    match error {
        WebsocketLogsError::Transport(_) => ProviderSourceHealthReason::UpstreamTransportFailure,
        _ => ProviderSourceHealthReason::UpstreamProtocolFailure,
    }
}

/// Commitments are named from the weakest to the strongest, and each is told as itself.
pub proof fn commitments_are_named(commitment: WebsocketTransactionCommitment)
    ensures
        commitment is Processed ==> commitment.label() == "processed",
        commitment is Confirmed ==> commitment.label() == "confirmed",
        commitment is Finalized ==> commitment.label() == "finalized",
        commitment.tx_commitment() is Processed <==> commitment is Processed,
        commitment.tx_commitment() is Confirmed <==> commitment is Confirmed,
        commitment.tx_commitment() is Finalized <==> commitment is Finalized,
{
}

/// A stream runs in the mode and as the source of its own kind, which have one label.
pub proof fn streams_are_of_their_kind(stream: WebsocketPrimaryStream, kind: WebsocketStreamKind)
    ensures
        stream.mode_of_stream().label()@ == stream.source_of_stream().label(),
        stream is Transaction <==> stream.mode_of_stream() == ProviderStreamMode::WebsocketTransaction,
        stream is Account <==> stream.mode_of_stream() == ProviderStreamMode::WebsocketAccount,
        stream is Program <==> stream.mode_of_stream() == ProviderStreamMode::WebsocketProgram,
        stream is Transaction <==> stream.source_of_stream() is WebsocketTransaction,
        stream is Account <==> stream.source_of_stream() is WebsocketAccount,
        stream is Program <==> stream.source_of_stream() is WebsocketProgram,
        stream is Transaction <==> stream.kind_of_stream() is Transaction,
        stream is Account <==> stream.kind_of_stream() is Account,
        stream is Program <==> stream.kind_of_stream() is Program,
        kind is Transaction ==> kind.label() == "websocket transaction",
        kind is Logs ==> kind.label() == "websocket logs",
        kind is Account ==> kind.label() == "websocket account",
        kind is Program ==> kind.label() == "websocket program",
{
}

/// The options that an error can name are named so.
pub proof fn option_labels_are_stable(option: WebsocketConfigOption, stream: WebsocketStreamKind)
    ensures
        option is HttpEndpoint ==> option.label() == "http replay endpoint",
        option is VoteFilter ==> option.label() == "vote filter",
        option is FailedFilter ==> option.label() == "failed filter",
        option is SignatureFilter ==> option.label() == "signature filter",
        option is AccountIncludeFilter ==> option.label() == "account-include filter",
        option is AccountExcludeFilter ==> option.label() == "account-exclude filter",
        option is AccountRequiredFilter ==> option.label() == "account-required filter",
        option is ReplayOnReconnect ==> option.label() == "replay-on-reconnect",
        option is ReplayMaxSlots ==> option.label() == "replay-max-slots",
        option is ProgramFilters ==> option.label() == "program filters",
        (WebsocketConfigError::UnsupportedOption { stream, option }).text() == option.label()@
            + " is not supported for websocket "@ + stream.label()@ + " streams"@,
{
}

/// A config is refused exactly if it sets what its stream has no use for: what is for transactions on
/// another stream, or filters on a program's accounts on a stream of anything else. What is told is set,
/// and of no use to the stream.
pub proof fn foreign_options_are_refused(config: WebsocketTransactionConfig)
    ensures
        ({
            let told = config.unsupported();
            let own = config.stream is Transaction || (config.http_endpoint is None && config.vote is None
                && config.failed is None && config.signature is None && config.account_include@.len() == 0
                && config.account_exclude@.len() == 0 && config.account_required@.len() == 0 && !(
            config.replay_on_reconnect_explicit && config.replay_on_reconnect)
                && !config.replay_max_slots_explicit);
            &&& told is None <==> own && (config.stream is Program || config.program_filters@.len() == 0)
            &&& told == Some(WebsocketConfigOption::ProgramFilters) <==> own && !(config.stream is Program)
                && config.program_filters@.len() > 0
            &&& told is Some && told->0 != WebsocketConfigOption::ProgramFilters ==> !(
            config.stream is Transaction)
            &&& told == Some(WebsocketConfigOption::HttpEndpoint) <==> !(config.stream is Transaction)
                && config.http_endpoint is Some
            &&& told == Some(WebsocketConfigOption::VoteFilter) ==> config.vote is Some
                && config.http_endpoint is None
            &&& told == Some(WebsocketConfigOption::FailedFilter) ==> config.failed is Some
                && config.vote is None
            &&& told == Some(WebsocketConfigOption::SignatureFilter) ==> config.signature is Some
                && config.failed is None
            &&& told == Some(WebsocketConfigOption::AccountIncludeFilter) ==> config.account_include@.len() > 0
                && config.signature is None
            &&& told == Some(WebsocketConfigOption::AccountExcludeFilter) ==> config.account_exclude@.len() > 0
                && config.account_include@.len() == 0
            &&& told == Some(WebsocketConfigOption::AccountRequiredFilter) ==> config.account_required@.len()
                > 0 && config.account_exclude@.len() == 0
            &&& told == Some(WebsocketConfigOption::ReplayOnReconnect) ==> config.replay_on_reconnect
                && config.replay_on_reconnect_explicit && config.account_required@.len() == 0
            &&& told == Some(WebsocketConfigOption::ReplayMaxSlots) ==> config.replay_max_slots_explicit
        }),
{
}

/// The endpoint to ask for missed blocks is the configured one; without one it is the websocket's own with
/// the scheme of the same safety, and none where the endpoint has no websocket scheme.
pub proof fn replay_endpoint_keeps_the_host(config: WebsocketTransactionConfig, rest: Seq<char>)
    ensures
        config.http_endpoint matches Some(own) ==> config.replay_endpoint() == Some(own@),
        config.http_endpoint is None && config.endpoint@ == "wss://"@ + rest ==> config.replay_endpoint()
            == Some("https://"@ + rest),
        config.http_endpoint is None && config.endpoint@ == "ws://"@ + rest ==> config.replay_endpoint() == Some(
            "http://"@ + rest,
        ),
        config.http_endpoint is None && config.replay_endpoint() is Some ==> (exists|host: Seq<char>|
            config.endpoint@ == "wss://"@ + host && #[trigger] ("https://"@ + host) == config.replay_endpoint()->0)
            || (exists|host: Seq<char>|
            config.endpoint@ == "ws://"@ + host && #[trigger] ("http://"@ + host) == config.replay_endpoint()->0),
{
    reveal_strlit("wss://");
    reveal_strlit("ws://");
    let text = config.endpoint@;
    prefix_and_rest_make_the_text(text, "wss://"@, rest);
    prefix_and_rest_make_the_text(text, "ws://"@, rest);
    if text == "ws://"@ + rest {
        assert(text[2] == ':');
        if without_prefix(text, "wss://"@) is Some {
            assert(text.take("wss://"@.len() as int)[2] == 's');
        }
    }
    if config.http_endpoint is None && config.replay_endpoint() is Some {
        if without_prefix(text, "wss://"@) is Some {
            let host = without_prefix(text, "wss://"@)->0;
            prefix_and_rest_make_the_text(text, "wss://"@, host);
            assert(("https://"@ + host) == config.replay_endpoint()->0);
        } else {
            let host = without_prefix(text, "ws://"@)->0;
            prefix_and_rest_make_the_text(text, "ws://"@, host);
            assert(("http://"@ + host) == config.replay_endpoint()->0);
        }
    }
}

/// Missed blocks are asked for on a stream of transactions only, and only where that is configured.
pub proof fn only_transactions_are_replayed(config: WebsocketTransactionConfig)
    ensures
        config.replays_gaps() ==> config.stream is Transaction,
        config.stream is Transaction ==> (config.replays_gaps() <==> config.replay_on_reconnect),
{
}

/// A request's filter holds a member for each condition that is configured, with its value under its name,
/// and no other.
pub proof fn filters_hold_each_condition(config: WebsocketTransactionConfig)
    ensures
        ({
            let members = config.filter_members();
            let n1: int = if config.vote is Some { 1 } else { 0 };
            let n2: int = if config.failed is Some { 1 } else { 0 };
            let n3: int = if config.signature is Some { 1 } else { 0 };
            let n4: int = if config.account_include@.len() > 0 { 1 } else { 0 };
            let n5: int = if config.account_exclude@.len() > 0 { 1 } else { 0 };
            let n6: int = if config.account_required@.len() > 0 { 1 } else { 0 };
            &&& members.len() == n1 + n2 + n3 + n4 + n5 + n6
            &&& config.vote matches Some(vote) ==> members.contains(("vote"@, Json::Bool(vote)))
            &&& config.failed matches Some(failed) ==> members.contains(("failed"@, Json::Bool(failed)))
            &&& config.signature matches Some(signature) ==> members.contains(
                ("signature"@, Json::Text(signature_base58(signature@))),
            )
            &&& n4 == 1 ==> members.contains(("accountInclude"@, keys_json(config.account_include@)))
            &&& n5 == 1 ==> members.contains(("accountExclude"@, keys_json(config.account_exclude@)))
            &&& n6 == 1 ==> members.contains(("accountRequired"@, keys_json(config.account_required@)))
        }),
{
    let members = config.filter_members();
    let n1: int = if config.vote is Some { 1 } else { 0 };
    let n2: int = if config.failed is Some { 1 } else { 0 };
    let n3: int = if config.signature is Some { 1 } else { 0 };
    let n4: int = if config.account_include@.len() > 0 { 1 } else { 0 };
    let n5: int = if config.account_exclude@.len() > 0 { 1 } else { 0 };
    if config.vote is Some {
        assert(members[0] == ("vote"@, Json::Bool(config.vote->0)));
    }
    if config.failed is Some {
        assert(members[n1] == ("failed"@, Json::Bool(config.failed->0)));
    }
    if config.signature is Some {
        assert(members[n1 + n2] == ("signature"@, Json::Text(signature_base58(config.signature->0@))));
    }
    if config.account_include@.len() > 0 {
        assert(members[n1 + n2 + n3] == ("accountInclude"@, keys_json(config.account_include@)));
    }
    if config.account_exclude@.len() > 0 {
        assert(members[n1 + n2 + n3 + n4] == ("accountExclude"@, keys_json(config.account_exclude@)));
    }
    if config.account_required@.len() > 0 {
        assert(members[n1 + n2 + n3 + n4 + n5] == ("accountRequired"@, keys_json(config.account_required@)));
    }
}

/// A request calls the method of its stream, names first what it is about, the filter, the account or the
/// program, and then asks for the configured commitment.
pub proof fn requests_call_their_method(config: WebsocketTransactionConfig, logs: WebsocketLogsConfig)
    ensures
        ({
            let call = config.request_json()->Object_0;
            let params = call[3].1->Array_0;
            let options = params[1]->Object_0;
            &&& config.request_json() is Object && call.len() == 4
            &&& call[2].0 == "method"@ && call[3].0 == "params"@ && call[3].1 is Array && params.len() == 2
            &&& config.stream is Transaction ==> call[2].1 == Json::Text("transactionSubscribe"@) && params[0]
                == Json::Object(config.filter_members()) && options.len() == 4
            &&& config.stream matches WebsocketPrimaryStream::Account(key) ==> call[2].1 == Json::Text(
                "accountSubscribe"@,
            ) && params[0] == Json::Text(pubkey_base58(key@)) && options.len() == 2
            &&& config.stream matches WebsocketPrimaryStream::Program(key) ==> call[2].1 == Json::Text(
                "programSubscribe"@,
            ) && params[0] == Json::Text(pubkey_base58(key@)) && options.len() == 3 && options[2].0
                == "filters"@ && options[2].1->Array_0.len() == config.program_filters@.len()
            &&& params[1] is Object && options[0] == ("commitment"@, Json::Text(config.commitment.label()@))
            &&& options[1] == ("encoding"@, Json::Text("base64"@))
            &&& config.stream is Transaction ==> options[2] == ("transactionDetails"@, Json::Text("full"@))
                && options[3] == ("maxSupportedTransactionVersion"@, Json::Number(0))
        }),
        ({
            let call = logs.request_json()->Object_0;
            let params = call[3].1->Array_0;
            &&& logs.request_json() is Object && call.len() == 4
            &&& call[2] == ("method"@, Json::Text("logsSubscribe"@))
            &&& call[3].0 == "params"@ && call[3].1 is Array && params.len() == 2
            &&& logs.filter is All ==> params[0] == Json::Text("all"@)
            &&& logs.filter is AllWithVotes ==> params[0] == Json::Text("allWithVotes"@)
            &&& logs.filter matches WebsocketLogsFilter::Mentions(key) ==> params[0] is Object
                && params[0]->Object_0.len() == 1 && params[0]->Object_0[0].0 == "mentions"@
                && params[0]->Object_0[0].1->Array_0.len() == 1 && params[0]->Object_0[0].1->Array_0[0]
                == Json::Text(pubkey_base58(key@))
            &&& params[1] is Object && params[1]->Object_0.len() == 1 && params[1]->Object_0[0] == (
                "commitment"@,
                Json::Text(logs.commitment.label()@),
            )
        }),
{
}

/// A failure of the transport is told as one, every other failure as one of the protocol, and the text of
/// an error holds what it was made with.
pub proof fn errors_are_told(error: WebsocketTransactionError, logs: WebsocketLogsError, inner: WebsocketProtocolError)
    ensures
        error.health_reason() == ProviderSourceHealthReason::UpstreamTransportFailure <==> error is Transport,
        !(error is Transport) ==> error.health_reason() == ProviderSourceHealthReason::UpstreamProtocolFailure,
        logs.health_reason() == ProviderSourceHealthReason::UpstreamTransportFailure <==> logs is Transport,
        !(logs is Transport) ==> logs.health_reason() == ProviderSourceHealthReason::UpstreamProtocolFailure,
        error matches WebsocketTransactionError::Transport(text) ==> error.text() == text@,
        error matches WebsocketTransactionError::Convert(what) ==> error.text()
            == "websocket transaction conversion failed: "@ + what@,
        error matches WebsocketTransactionError::Protocol(told) ==> error.text() == told.text(),
        error is QueueClosed ==> error.text() == "provider-stream queue closed"@,
        logs matches WebsocketLogsError::Transport(text) ==> logs.text() == text@,
        logs matches WebsocketLogsError::Protocol(told) ==> logs.text() == told.text(),
        logs is QueueClosed ==> logs.text() == "provider-stream queue closed"@,
        inner is SubscriptionAckTimeout ==> inner.text() == "timed out waiting for websocket subscription ack"@,
        inner is ClosedBeforeSubscriptionAck ==> inner.text() == "websocket closed before subscription ack"@,
        inner matches WebsocketProtocolError::ClosedBeforeSubscriptionAckWithFrame(text) ==> inner.text()
            == "websocket closed before subscription ack: "@ + text@,
        inner matches WebsocketProtocolError::Closed(text) ==> inner.text() == "websocket closed: "@ + text@,
        inner matches WebsocketProtocolError::InvalidJson(text) ==> inner.text() == "invalid websocket json: "@
            + text@,
        inner matches WebsocketProtocolError::SubscriptionError(text) ==> inner.text()
            == "websocket subscription error: "@ + text@,
        inner matches WebsocketProtocolError::ProviderError(text) ==> inner.text()
            == "websocket provider error: "@ + text@,
        inner is InvalidLogSignature ==> inner.text() == "invalid websocket log signature"@,
        inner is MissingReplayHttpEndpoint ==> inner.text()
            == "websocket reconnect replay requires a matching http rpc endpoint"@,
        inner matches WebsocketProtocolError::StreamStalled { stream } ==> inner.text() == stream.label()@
            + " stream stalled without inbound progress"@,
        inner matches WebsocketProtocolError::ReconnectBudgetExhausted { attempts } ==> inner.text()
            == "exhausted websocket reconnect attempts after "@ + decimal_text(attempts as nat)
            + " failures"@,
{
}

} // verus!
