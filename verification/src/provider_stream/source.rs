//! Provider sources: who feeds updates in, in which role, and how healthy it is.
use crate::text::{decimal, decimal_text, joined, joined3, same_text};
use std::sync::Arc;
use vstd::prelude::*;
use vstd::std_specs::cmp::PartialEqSpecImpl;

verus! {

/// Shares a text through `Arc::<str>::from(&str)`. Claimed of it: the shared text holds the
/// same characters.
#[verifier::external_body]
pub(crate) fn shared_text(text: &str) -> (r: Arc<str>)
    ensures
        r@ == text@,
{
    Arc::from(text)
}

/// What kind of provider a source is.
#[derive(Debug, Eq, Hash)]
pub enum ProviderSourceId {
    /// A custom provider under the label that the embedding program gives it.
    Generic(Arc<str>),
    /// Yellowstone gRPC transactions.
    YellowstoneGrpc,
    /// Yellowstone gRPC transaction statuses.
    YellowstoneGrpcTransactionStatus,
    /// Yellowstone gRPC accounts.
    YellowstoneGrpcAccounts,
    /// Yellowstone gRPC block meta.
    YellowstoneGrpcBlockMeta,
    /// Yellowstone gRPC slots.
    YellowstoneGrpcSlots,
    /// LaserStream transactions.
    LaserStream,
    /// LaserStream transaction statuses.
    LaserStreamTransactionStatus,
    /// LaserStream accounts.
    LaserStreamAccounts,
    /// LaserStream block meta.
    LaserStreamBlockMeta,
    /// LaserStream slots.
    LaserStreamSlots,
    /// Websocket `transactionSubscribe`.
    WebsocketTransaction,
    /// Websocket `logsSubscribe`.
    WebsocketLogs,
    /// Websocket `accountSubscribe`.
    WebsocketAccount,
    /// Websocket `programSubscribe`.
    WebsocketProgram,
}

impl ProviderSourceId {
    /// The label of a kind: the embedding program's own label for a custom provider, a fixed one
    /// otherwise.
    pub open spec fn label(self) -> Seq<char> {
        match self {
            ProviderSourceId::Generic(label) => label@,
            ProviderSourceId::YellowstoneGrpc => "yellowstone_grpc"@,
            ProviderSourceId::YellowstoneGrpcTransactionStatus => "yellowstone_grpc_transaction_status"@,
            ProviderSourceId::YellowstoneGrpcAccounts => "yellowstone_grpc_accounts"@,
            ProviderSourceId::YellowstoneGrpcBlockMeta => "yellowstone_grpc_block_meta"@,
            ProviderSourceId::YellowstoneGrpcSlots => "yellowstone_grpc_slots"@,
            ProviderSourceId::LaserStream => "laserstream"@,
            ProviderSourceId::LaserStreamTransactionStatus => "laserstream_transaction_status"@,
            ProviderSourceId::LaserStreamAccounts => "laserstream_accounts"@,
            ProviderSourceId::LaserStreamBlockMeta => "laserstream_block_meta"@,
            ProviderSourceId::LaserStreamSlots => "laserstream_slots"@,
            ProviderSourceId::WebsocketTransaction => "websocket_transaction"@,
            ProviderSourceId::WebsocketLogs => "websocket_logs"@,
            ProviderSourceId::WebsocketAccount => "websocket_account"@,
            ProviderSourceId::WebsocketProgram => "websocket_program"@,
        }
    }

    /// Whether two kinds are the same: the same built-in provider, or two custom providers of
    /// the same label.
    pub open spec fn same_kind(self, other: ProviderSourceId) -> bool {
        match (self, other) {
            (ProviderSourceId::Generic(a), ProviderSourceId::Generic(b)) => a@ == b@,
            (ProviderSourceId::Generic(_), _) => false,
            (_, ProviderSourceId::Generic(_)) => false,
            _ => self == other,
        }
    }

    /// Returns the stable label used in logs and error messages.
    pub fn as_str(&self) -> (r: &str)
        ensures
            r@ == self.label(),
    {
        match self {
            ProviderSourceId::Generic(label) => label,
            ProviderSourceId::YellowstoneGrpc => "yellowstone_grpc",
            ProviderSourceId::YellowstoneGrpcTransactionStatus => "yellowstone_grpc_transaction_status",
            ProviderSourceId::YellowstoneGrpcAccounts => "yellowstone_grpc_accounts",
            ProviderSourceId::YellowstoneGrpcBlockMeta => "yellowstone_grpc_block_meta",
            ProviderSourceId::YellowstoneGrpcSlots => "yellowstone_grpc_slots",
            ProviderSourceId::LaserStream => "laserstream",
            ProviderSourceId::LaserStreamTransactionStatus => "laserstream_transaction_status",
            ProviderSourceId::LaserStreamAccounts => "laserstream_accounts",
            ProviderSourceId::LaserStreamBlockMeta => "laserstream_block_meta",
            ProviderSourceId::LaserStreamSlots => "laserstream_slots",
            ProviderSourceId::WebsocketTransaction => "websocket_transaction",
            ProviderSourceId::WebsocketLogs => "websocket_logs",
            ProviderSourceId::WebsocketAccount => "websocket_account",
            ProviderSourceId::WebsocketProgram => "websocket_program",
        }
    }

    fn ordinal(&self) -> (r: u8)
        ensures
            r == self.ordinal_spec(),
    {
        match self {
            ProviderSourceId::Generic(_) => 0,
            ProviderSourceId::YellowstoneGrpc => 1,
            ProviderSourceId::YellowstoneGrpcTransactionStatus => 2,
            ProviderSourceId::YellowstoneGrpcAccounts => 3,
            ProviderSourceId::YellowstoneGrpcBlockMeta => 4,
            ProviderSourceId::YellowstoneGrpcSlots => 5,
            ProviderSourceId::LaserStream => 6,
            ProviderSourceId::LaserStreamTransactionStatus => 7,
            ProviderSourceId::LaserStreamAccounts => 8,
            ProviderSourceId::LaserStreamBlockMeta => 9,
            ProviderSourceId::LaserStreamSlots => 10,
            ProviderSourceId::WebsocketTransaction => 11,
            ProviderSourceId::WebsocketLogs => 12,
            ProviderSourceId::WebsocketAccount => 13,
            ProviderSourceId::WebsocketProgram => 14,
        }
    }

    spec fn ordinal_spec(self) -> u8 {
        match self {
            ProviderSourceId::Generic(_) => 0,
            ProviderSourceId::YellowstoneGrpc => 1,
            ProviderSourceId::YellowstoneGrpcTransactionStatus => 2,
            ProviderSourceId::YellowstoneGrpcAccounts => 3,
            ProviderSourceId::YellowstoneGrpcBlockMeta => 4,
            ProviderSourceId::YellowstoneGrpcSlots => 5,
            ProviderSourceId::LaserStream => 6,
            ProviderSourceId::LaserStreamTransactionStatus => 7,
            ProviderSourceId::LaserStreamAccounts => 8,
            ProviderSourceId::LaserStreamBlockMeta => 9,
            ProviderSourceId::LaserStreamSlots => 10,
            ProviderSourceId::WebsocketTransaction => 11,
            ProviderSourceId::WebsocketLogs => 12,
            ProviderSourceId::WebsocketAccount => 13,
            ProviderSourceId::WebsocketProgram => 14,
        }
    }
}

impl Clone for ProviderSourceId {
    fn clone(&self) -> (r: Self)
        ensures
            r == *self,
    {
        match self {
            ProviderSourceId::Generic(label) => ProviderSourceId::Generic(label.clone()),
            ProviderSourceId::YellowstoneGrpc => ProviderSourceId::YellowstoneGrpc,
            ProviderSourceId::YellowstoneGrpcTransactionStatus => ProviderSourceId::YellowstoneGrpcTransactionStatus,
            ProviderSourceId::YellowstoneGrpcAccounts => ProviderSourceId::YellowstoneGrpcAccounts,
            ProviderSourceId::YellowstoneGrpcBlockMeta => ProviderSourceId::YellowstoneGrpcBlockMeta,
            ProviderSourceId::YellowstoneGrpcSlots => ProviderSourceId::YellowstoneGrpcSlots,
            ProviderSourceId::LaserStream => ProviderSourceId::LaserStream,
            ProviderSourceId::LaserStreamTransactionStatus => ProviderSourceId::LaserStreamTransactionStatus,
            ProviderSourceId::LaserStreamAccounts => ProviderSourceId::LaserStreamAccounts,
            ProviderSourceId::LaserStreamBlockMeta => ProviderSourceId::LaserStreamBlockMeta,
            ProviderSourceId::LaserStreamSlots => ProviderSourceId::LaserStreamSlots,
            ProviderSourceId::WebsocketTransaction => ProviderSourceId::WebsocketTransaction,
            ProviderSourceId::WebsocketLogs => ProviderSourceId::WebsocketLogs,
            ProviderSourceId::WebsocketAccount => ProviderSourceId::WebsocketAccount,
            ProviderSourceId::WebsocketProgram => ProviderSourceId::WebsocketProgram,
        }
    }
}

impl PartialEq for ProviderSourceId {
    fn eq(&self, other: &Self) -> (r: bool) {
        match (self, other) {
            (ProviderSourceId::Generic(a), ProviderSourceId::Generic(b)) => same_text(a, b),
            _ => self.ordinal() == other.ordinal(),
        }
    }
}

impl PartialEqSpecImpl for ProviderSourceId {
    open spec fn obeys_eq_spec() -> bool {
        true
    }

    open spec fn eq_spec(&self, other: &Self) -> bool {
        self.same_kind(*other)
    }
}

/// The role of a source among the sources that feed one queue.
#[derive(Clone, Copy, Debug, PartialEq, Eq, Hash, Structural)]
pub enum ProviderSourceRole {
    /// Lowest-latency or best-effort primary feed.
    Primary,
    /// Secondary feed that often overlaps the primary.
    Secondary,
    /// Lower-priority fallback feed.
    Fallback,
    /// Confirmation-only feed.
    ConfirmOnly,
}

impl ProviderSourceRole {
    /// The stable label of a role.
    pub open spec fn label(self) -> &'static str {
        match self {
            ProviderSourceRole::Primary => "primary",
            ProviderSourceRole::Secondary => "secondary",
            ProviderSourceRole::Fallback => "fallback",
            ProviderSourceRole::ConfirmOnly => "confirm_only",
        }
    }

    /// The arbitration priority that a role starts with.
    pub open spec fn priority(self) -> u16 {
        match self {
            ProviderSourceRole::Primary => 300,
            ProviderSourceRole::Secondary => 200,
            ProviderSourceRole::Fallback => 100,
            ProviderSourceRole::ConfirmOnly => 400,
        }
    }

    /// Returns the stable label used in logs and docs.
    pub fn as_str(self) -> (r: &'static str)
        ensures
            r == self.label(),
    {
        match self {
            ProviderSourceRole::Primary => "primary",
            ProviderSourceRole::Secondary => "secondary",
            ProviderSourceRole::Fallback => "fallback",
            ProviderSourceRole::ConfirmOnly => "confirm_only",
        }
    }

    /// Returns the arbitration priority that this role starts with.
    pub fn default_priority(self) -> (r: u16)
        ensures
            r == self.priority(),
    {
        match self {
            ProviderSourceRole::Primary => 300,
            ProviderSourceRole::Secondary => 200,
            ProviderSourceRole::Fallback => 100,
            ProviderSourceRole::ConfirmOnly => 400,
        }
    }
}

/// What happens to an event that more than one source delivers.
#[derive(Clone, Copy, Debug, PartialEq, Eq, Hash, Structural)]
pub enum ProviderSourceArbitrationMode {
    /// Forward it from every source.
    EmitAll,
    /// Forward it from the first source only.
    FirstSeen,
    /// Forward it at once, and once more from a later source of higher priority.
    FirstSeenThenPromote,
}

impl ProviderSourceArbitrationMode {
    /// The stable label of a mode.
    pub open spec fn label(self) -> &'static str {
        match self {
            ProviderSourceArbitrationMode::EmitAll => "emit_all",
            ProviderSourceArbitrationMode::FirstSeen => "first_seen",
            ProviderSourceArbitrationMode::FirstSeenThenPromote => "first_seen_then_promote",
        }
    }

    /// Returns the stable label used in logs and docs.
    pub fn as_str(self) -> (r: &'static str)
        ensures
            r == self.label(),
    {
        match self {
            ProviderSourceArbitrationMode::EmitAll => "emit_all",
            ProviderSourceArbitrationMode::FirstSeen => "first_seen",
            ProviderSourceArbitrationMode::FirstSeenThenPromote => "first_seen_then_promote",
        }
    }
}

/// One source instance. Two identities are the same source when kind and instance label agree;
/// priority, role and arbitration are policy.
#[derive(Debug, Eq)]
pub struct ProviderSourceIdentity {
    /// Kind of the source.
    pub kind: ProviderSourceId,
    /// Instance label, given by the user or generated.
    pub instance: Arc<str>,
    /// Arbitration priority.
    pub priority: u16,
    /// Role among the sources of one queue.
    pub role: ProviderSourceRole,
    /// Treatment of duplicates.
    pub arbitration: ProviderSourceArbitrationMode,
}

/// A source identity shared by the events that the source delivers.
pub type ProviderSourceRef = Arc<ProviderSourceIdentity>;

impl Clone for ProviderSourceIdentity {
    fn clone(&self) -> (r: Self)
        ensures
            r == *self,
    {
        ProviderSourceIdentity {
            kind: self.kind.clone(),
            instance: self.instance.clone(),
            priority: self.priority,
            role: self.role,
            arbitration: self.arbitration,
        }
    }
}

impl PartialEq for ProviderSourceIdentity {
    fn eq(&self, other: &Self) -> (r: bool) {
        self.kind == other.kind && same_text(&self.instance, &other.instance)
    }
}

impl PartialEqSpecImpl for ProviderSourceIdentity {
    open spec fn obeys_eq_spec() -> bool {
        true
    }

    open spec fn eq_spec(&self, other: &Self) -> bool {
        self.same_source(*other)
    }
}

impl ProviderSourceIdentity {
    /// Whether two identities name the same source.
    pub open spec fn same_source(self, other: ProviderSourceIdentity) -> bool {
        self.kind.same_kind(other.kind) && self.instance@ == other.instance@
    }

    /// Creates an identity with the policy of a primary source.
    pub fn new(kind: ProviderSourceId, instance: &str) -> (r: Self)
        ensures
            r.kind == kind,
            r.instance@ == instance@,
            r.priority == ProviderSourceRole::Primary.priority(),
            r.role == ProviderSourceRole::Primary,
            r.arbitration == ProviderSourceArbitrationMode::EmitAll,
    {
        ProviderSourceIdentity {
            kind,
            instance: shared_text(instance),
            priority: ProviderSourceRole::Primary.default_priority(),
            role: ProviderSourceRole::Primary,
            arbitration: ProviderSourceArbitrationMode::EmitAll,
        }
    }

    /// The instance label that a source without a label of its own gets.
    pub open spec fn generated_instance(kind: ProviderSourceId, label: Option<&str>, sequence: u64) -> Seq<char> {
        match label {
            Some(label) => label@,
            None => kind.label() + "-"@ + decimal_text(sequence as nat),
        }
    }

    /// Creates an identity under `label`, or under a label made of the kind and the number
    /// `sequence`, which the caller hands out once.
    pub fn generated(kind: ProviderSourceId, label: Option<&str>, sequence: u64) -> (r: Self)
        ensures
            r.kind == kind,
            r.instance@ == Self::generated_instance(kind, label, sequence),
            r.priority == ProviderSourceRole::Primary.priority(),
            r.role == ProviderSourceRole::Primary,
            r.arbitration == ProviderSourceArbitrationMode::EmitAll,
    {
        match label {
            Some(label) => Self::new(kind, label),
            None => {
                let number = decimal(sequence);
                let instance = joined3(kind.as_str(), "-", number.as_str());
                Self::new(kind, instance.as_str())
            },
        }
    }

    /// Returns the kind label.
    pub fn kind_str(&self) -> (r: &str)
        ensures
            r@ == self.kind.label(),
    {
        self.kind.as_str()
    }

    /// Returns the instance label.
    pub fn instance_str(&self) -> (r: &str)
        ensures
            r@ == self.instance@,
    {
        &self.instance
    }

    /// Returns the arbitration priority.
    pub fn priority(&self) -> (r: u16)
        ensures
            r == self.priority,
    {
        self.priority
    }

    /// Returns the role.
    pub fn role(&self) -> (r: ProviderSourceRole)
        ensures
            r == self.role,
    {
        self.role
    }

    /// Returns the treatment of duplicates.
    pub fn arbitration(&self) -> (r: ProviderSourceArbitrationMode)
        ensures
            r == self.arbitration,
    {
        self.arbitration
    }

    /// Sets the arbitration priority.
    pub fn with_priority(self, priority: u16) -> (r: Self)
        ensures
            r == (ProviderSourceIdentity { priority, ..self }),
    {
        let mut identity = self;
        identity.priority = priority;
        identity
    }

    /// Sets the role. A priority that is still the old role's default becomes the new role's
    /// default, an explicit one stays.
    pub fn with_role(self, role: ProviderSourceRole) -> (r: Self)
        ensures
            r == (ProviderSourceIdentity {
                role,
                priority: if self.priority == self.role.priority() {
                    role.priority()
                } else {
                    self.priority
                },
                ..self
            }),
    {
        let mut identity = self;
        if identity.priority == identity.role.default_priority() {
            identity.priority = role.default_priority();
        }
        identity.role = role;
        identity
    }

    /// Sets the treatment of duplicates.
    pub fn with_arbitration(self, arbitration: ProviderSourceArbitrationMode) -> (r: Self)
        ensures
            r == (ProviderSourceIdentity { arbitration, ..self }),
    {
        let mut identity = self;
        identity.arbitration = arbitration;
        identity
    }

    /// The text of an identity: kind label, a colon, instance label.
    pub open spec fn text(self) -> Seq<char> {
        self.kind.label() + ":"@ + self.instance@
    }

    /// Writes the identity as kind label, a colon and instance label.
    pub fn to_text(&self) -> (r: String)
        ensures
            r@ == self.text(),
    {
        joined3(self.kind.as_str(), ":", &self.instance)
    }
}

/// Being the same source is an equivalence that policy plays no part in.
pub proof fn same_source_is_equivalence(
    a: ProviderSourceIdentity,
    b: ProviderSourceIdentity,
    c: ProviderSourceIdentity,
)
    ensures
        a.same_source(a),
        a.same_source(b) ==> b.same_source(a),
        a.same_source(b) && b.same_source(c) ==> a.same_source(c),
{
}

/// The health of a source.
#[derive(Clone, Copy, Debug, PartialEq, Eq, Structural)]
pub enum ProviderSourceHealthStatus {
    /// Delivering updates.
    Healthy,
    /// Recovering after a disruption, or not connected yet.
    Reconnecting,
    /// Recovery given up.
    Unhealthy,
    /// No longer registered; a lifecycle event rather than a state.
    Removed,
}

/// Whether a source takes part in readiness.
#[derive(Clone, Copy, Debug, PartialEq, Eq, Hash, Structural)]
pub enum ProviderSourceReadiness {
    /// The runtime is not ready without this source.
    Required,
    /// The source does not gate readiness.
    Optional,
}

impl ProviderSourceReadiness {
    /// The stable label of a readiness class.
    pub open spec fn label(self) -> &'static str {
        match self {
            ProviderSourceReadiness::Required => "required",
            ProviderSourceReadiness::Optional => "optional",
        }
    }

    /// Returns the stable label used in metrics and logs.
    pub fn as_str(self) -> (r: &'static str)
        ensures
            r == self.label(),
    {
        match self {
            ProviderSourceReadiness::Required => "required",
            ProviderSourceReadiness::Optional => "optional",
        }
    }
}

/// Why a source's health changed.
#[derive(Clone, Copy, Debug, PartialEq, Eq, Hash, Structural)]
pub enum ProviderSourceHealthReason {
    /// Waiting for the first acknowledgement of a live session.
    InitialConnectPending,
    /// The provider acknowledged the subscription.
    SubscriptionAckReceived,
    /// The stream ended without an error.
    UpstreamStreamClosedUnexpectedly,
    /// The transport failed.
    UpstreamTransportFailure,
    /// The protocol or a payload was wrong.
    UpstreamProtocolFailure,
    /// Replay or backfill failed.
    ReplayBackfillFailure,
    /// No reconnect attempts are left.
    ReconnectBudgetExhausted,
    /// The source stopped and is no longer tracked.
    SourceRemoved,
}

impl ProviderSourceHealthReason {
    /// The stable label of a reason.
    pub open spec fn label(self) -> &'static str {
        match self {
            ProviderSourceHealthReason::InitialConnectPending => "initial_connect_pending",
            ProviderSourceHealthReason::SubscriptionAckReceived => "subscription_ack_received",
            ProviderSourceHealthReason::UpstreamStreamClosedUnexpectedly => "upstream_stream_closed_unexpectedly",
            ProviderSourceHealthReason::UpstreamTransportFailure => "upstream_transport_failure",
            ProviderSourceHealthReason::UpstreamProtocolFailure => "upstream_protocol_failure",
            ProviderSourceHealthReason::ReplayBackfillFailure => "replay_backfill_failure",
            ProviderSourceHealthReason::ReconnectBudgetExhausted => "reconnect_budget_exhausted",
            ProviderSourceHealthReason::SourceRemoved => "source_removed",
        }
    }

    /// Returns the stable label used in logs and runtime errors.
    pub fn as_str(self) -> (r: &'static str)
        ensures
            r == self.label(),
    {
        match self {
            ProviderSourceHealthReason::InitialConnectPending => "initial_connect_pending",
            ProviderSourceHealthReason::SubscriptionAckReceived => "subscription_ack_received",
            ProviderSourceHealthReason::UpstreamStreamClosedUnexpectedly => "upstream_stream_closed_unexpectedly",
            ProviderSourceHealthReason::UpstreamTransportFailure => "upstream_transport_failure",
            ProviderSourceHealthReason::UpstreamProtocolFailure => "upstream_protocol_failure",
            ProviderSourceHealthReason::ReplayBackfillFailure => "replay_backfill_failure",
            ProviderSourceHealthReason::ReconnectBudgetExhausted => "reconnect_budget_exhausted",
            ProviderSourceHealthReason::SourceRemoved => "source_removed",
        }
    }
}

/// One change of a source's health.
#[derive(Debug, Clone, PartialEq, Eq)]
pub struct ProviderSourceHealthEvent {
    /// The source.
    pub source: ProviderSourceIdentity,
    /// Whether the source takes part in readiness.
    pub readiness: ProviderSourceReadiness,
    /// The health it changed to.
    pub status: ProviderSourceHealthStatus,
    /// Why it changed.
    pub reason: ProviderSourceHealthReason,
    /// Text for a human reader.
    pub message: String,
}

impl ProviderSourceHealthEvent {
    /// Whether this event says of `source` what the other arguments say.
    pub open spec fn tells(
        self,
        source: ProviderSourceIdentity,
        readiness: ProviderSourceReadiness,
        status: ProviderSourceHealthStatus,
        reason: ProviderSourceHealthReason,
        message: Seq<char>,
    ) -> bool {
        &&& self.source == source
        &&& self.readiness == readiness
        &&& self.status == status
        &&& self.reason == reason
        &&& self.message@ == message
    }

    /// Creates an event about `source`.
    pub fn about(
        source: &ProviderSourceIdentity,
        readiness: ProviderSourceReadiness,
        status: ProviderSourceHealthStatus,
        reason: ProviderSourceHealthReason,
        message: String,
    ) -> (r: Self)
        ensures
            r.tells(*source, readiness, status, reason, message@),
    {
        ProviderSourceHealthEvent { source: source.clone(), readiness, status, reason, message }
    }
}

/// An identity that is already reserved.
#[derive(Debug)]
pub struct ProviderSourceIdentityRegistrationError(pub ProviderSourceIdentity);

impl ProviderSourceIdentityRegistrationError {
    /// The text of the error.
    pub open spec fn text(self) -> Seq<char> {
        "provider fan-in already contains source identity "@ + self.0.text()
    }

    /// Writes the error for a human reader.
    pub fn to_text(&self) -> (r: String)
        ensures
            r@ == self.text(),
    {
        let identity = self.0.to_text();
        joined("provider fan-in already contains source identity ", identity.as_str())
    }
}

/// The source policy of a provider config.
#[derive(Debug)]
pub struct SourceSettings {
    /// Instance label, if the user gave one.
    pub instance: Option<Arc<str>>,
    /// Whether the source takes part in readiness.
    pub readiness: ProviderSourceReadiness,
    /// Role among the sources of one queue.
    pub role: ProviderSourceRole,
    /// Arbitration priority.
    pub priority: u16,
    /// Treatment of duplicates.
    pub arbitration: ProviderSourceArbitrationMode,
}

impl Clone for SourceSettings {
    fn clone(&self) -> (r: Self)
        ensures
            r == *self,
    {
        SourceSettings {
            instance: match &self.instance {
                Some(label) => Some(label.clone()),
                None => None,
            },
            readiness: self.readiness,
            role: self.role,
            priority: self.priority,
            arbitration: self.arbitration,
        }
    }
}

impl SourceSettings {
    /// The policy of a source in `role`, with that role's priority and no label.
    pub open spec fn in_role(readiness: ProviderSourceReadiness, role: ProviderSourceRole) -> Self {
        SourceSettings {
            instance: None,
            readiness,
            role,
            priority: role.priority(),
            arbitration: ProviderSourceArbitrationMode::EmitAll,
        }
    }

    /// Creates the policy of a source in `role`, with that role's priority and no label.
    pub fn new(readiness: ProviderSourceReadiness, role: ProviderSourceRole) -> (r: Self)
        ensures
            r == Self::in_role(readiness, role),
    {
        SourceSettings {
            instance: None,
            readiness,
            role,
            priority: role.default_priority(),
            arbitration: ProviderSourceArbitrationMode::EmitAll,
        }
    }

    /// Whether `identity` is the source of `kind` under instance label `instance` with this
    /// policy.
    pub open spec fn describes(self, kind: ProviderSourceId, instance: Seq<char>, identity: ProviderSourceIdentity) -> bool {
        &&& identity.kind == kind
        &&& identity.instance@ == instance
        &&& identity.role == self.role
        &&& identity.priority == self.priority
        &&& identity.arbitration == self.arbitration
    }

    /// The instance label, if the user gave one.
    pub fn label(&self) -> (r: Option<&str>)
        ensures
            match r {
                Some(label) => self.instance matches Some(own) && label@ == own@,
                None => self.instance is None,
            },
    {
        match &self.instance {
            Some(label) => Some(label),
            None => None,
        }
    }

    /// The identity to reserve for a source of `kind`: none without a label.
    pub fn source_identity(&self, kind: ProviderSourceId) -> (r: Option<ProviderSourceIdentity>)
        ensures
            match r {
                Some(identity) => self.instance matches Some(own) && self.describes(kind, own@, identity),
                None => self.instance is None,
            },
    {
        match &self.instance {
            Some(label) => Some(
                ProviderSourceIdentity::new(kind, label).with_role(self.role).with_priority(
                    self.priority,
                ).with_arbitration(self.arbitration),
            ),
            None => None,
        }
    }

    /// The identity under which a source of `kind` runs: its label, or a generated one.
    pub fn resolved_source_identity(&self, kind: ProviderSourceId, sequence: u64) -> (r: ProviderSourceIdentity)
        ensures
            match self.instance {
                Some(own) => self.describes(kind, own@, r),
                None => self.describes(
                    kind,
                    kind.label() + "-"@ + decimal_text(sequence as nat),
                    r,
                ),
            },
    {
        ProviderSourceIdentity::generated(kind, self.label(), sequence).with_role(self.role).with_priority(
            self.priority,
        ).with_arbitration(self.arbitration)
    }
}

/// Every built-in kind has its own stable label, and a custom provider has the one it was given.
pub proof fn kind_labels_are_stable(kind: ProviderSourceId)
    ensures
        kind matches ProviderSourceId::Generic(own) ==> kind.label() == own@,
        kind is YellowstoneGrpc ==> kind.label() == "yellowstone_grpc"@,
        kind is YellowstoneGrpcTransactionStatus ==> kind.label() == "yellowstone_grpc_transaction_status"@,
        kind is YellowstoneGrpcAccounts ==> kind.label() == "yellowstone_grpc_accounts"@,
        kind is YellowstoneGrpcBlockMeta ==> kind.label() == "yellowstone_grpc_block_meta"@,
        kind is YellowstoneGrpcSlots ==> kind.label() == "yellowstone_grpc_slots"@,
        kind is LaserStream ==> kind.label() == "laserstream"@,
        kind is LaserStreamTransactionStatus ==> kind.label() == "laserstream_transaction_status"@,
        kind is LaserStreamAccounts ==> kind.label() == "laserstream_accounts"@,
        kind is LaserStreamBlockMeta ==> kind.label() == "laserstream_block_meta"@,
        kind is LaserStreamSlots ==> kind.label() == "laserstream_slots"@,
        kind is WebsocketTransaction ==> kind.label() == "websocket_transaction"@,
        kind is WebsocketLogs ==> kind.label() == "websocket_logs"@,
        kind is WebsocketAccount ==> kind.label() == "websocket_account"@,
        kind is WebsocketProgram ==> kind.label() == "websocket_program"@,
{
}

/// Every role has its own stable label.
pub proof fn role_labels_are_stable(role: ProviderSourceRole)
    ensures
        role is Primary ==> role.label() == "primary",
        role is Secondary ==> role.label() == "secondary",
        role is Fallback ==> role.label() == "fallback",
        role is ConfirmOnly ==> role.label() == "confirm_only",
{
}

/// Every treatment of duplicates has its own stable label.
pub proof fn arbitration_labels_are_stable(mode: ProviderSourceArbitrationMode)
    ensures
        mode is EmitAll ==> mode.label() == "emit_all",
        mode is FirstSeen ==> mode.label() == "first_seen",
        mode is FirstSeenThenPromote ==> mode.label() == "first_seen_then_promote",
{
}

/// Every readiness class has its own stable label.
pub proof fn readiness_labels_are_stable(readiness: ProviderSourceReadiness)
    ensures
        readiness is Required ==> readiness.label() == "required",
        readiness is Optional ==> readiness.label() == "optional",
{
}

/// Every reason has its own stable label.
pub proof fn reason_labels_are_stable(reason: ProviderSourceHealthReason)
    ensures
        reason is InitialConnectPending ==> reason.label() == "initial_connect_pending",
        reason is SubscriptionAckReceived ==> reason.label() == "subscription_ack_received",
        reason is UpstreamStreamClosedUnexpectedly ==> reason.label() == "upstream_stream_closed_unexpectedly",
        reason is UpstreamTransportFailure ==> reason.label() == "upstream_transport_failure",
        reason is UpstreamProtocolFailure ==> reason.label() == "upstream_protocol_failure",
        reason is ReplayBackfillFailure ==> reason.label() == "replay_backfill_failure",
        reason is ReconnectBudgetExhausted ==> reason.label() == "reconnect_budget_exhausted",
        reason is SourceRemoved ==> reason.label() == "source_removed",
{
}

/// A confirmation-only source outranks a primary one by default, a primary one a secondary one, and a
/// secondary one a fallback, each by a hundred.
pub proof fn roles_are_ranked()
    ensures
        ProviderSourceRole::Fallback.priority() == 100,
        ProviderSourceRole::Secondary.priority() == ProviderSourceRole::Fallback.priority() + 100,
        ProviderSourceRole::Primary.priority() == ProviderSourceRole::Secondary.priority() + 100,
        ProviderSourceRole::ConfirmOnly.priority() == ProviderSourceRole::Primary.priority() + 100,
{
}

/// Two identities are the same source exactly if they are of one built-in kind, or of two custom
/// providers with one label, and have one instance label. Priority, role and treatment of duplicates
/// play no part.
pub proof fn source_is_its_kind_and_instance(a: ProviderSourceIdentity, b: ProviderSourceIdentity)
    ensures
        a.same_source(b) ==> a.instance@ == b.instance@ && a.kind.label() == b.kind.label(),
        a.same_source(b) ==> (a.kind is Generic <==> b.kind is Generic),
        a.kind == b.kind && a.instance@ == b.instance@ ==> a.same_source(b),
        a.instance@ != b.instance@ ==> !a.same_source(b),
        a.kind is Generic && !(b.kind is Generic) ==> !a.same_source(b),
        !(a.kind is Generic) && a.kind != b.kind ==> !a.same_source(b),
        a.kind is Generic && b.kind is Generic && a.instance@ == b.instance@ ==> (a.same_source(b)
            <==> a.kind.label() == b.kind.label()),
{
}

/// The text of an identity is its kind's label, a colon and its instance label, and nothing else. A
/// source without a label of its own is called by its kind's label, a dash and its number.
pub proof fn identity_texts_are_spelled(identity: ProviderSourceIdentity, label: Option<&str>, sequence: u64)
    ensures
        identity.text().len() == identity.kind.label().len() + 1 + identity.instance@.len(),
        identity.text().take(identity.kind.label().len() as int) == identity.kind.label(),
        identity.text()[identity.kind.label().len() as int] == ':',
        identity.text().skip(identity.kind.label().len() as int + 1) == identity.instance@,
        label is Some ==> ProviderSourceIdentity::generated_instance(identity.kind, label, sequence)
            == label->0@,
        label is None ==> ({
            let instance = ProviderSourceIdentity::generated_instance(identity.kind, label, sequence);
            let kind = identity.kind.label();
            &&& instance.take(kind.len() as int) == kind
            &&& instance[kind.len() as int] == '-'
            &&& instance.skip(kind.len() as int + 1) == decimal_text(sequence as nat)
        }),
{
    reveal_strlit(":");
    reveal_strlit("-");
    let kind = identity.kind.label();
    assert(identity.text().take(kind.len() as int) =~= kind);
    assert(identity.text().skip(kind.len() as int + 1) =~= identity.instance@);
    if label is None {
        let instance = ProviderSourceIdentity::generated_instance(identity.kind, label, sequence);
        assert(instance.take(kind.len() as int) =~= kind);
        assert(instance.skip(kind.len() as int + 1) =~= decimal_text(sequence as nat));
    }
}

} // verus!
