use vstd::prelude::*;
use crate::domain::{AgentId, AttemptId, ContentRefId, DedupeKey, DestinationRef, EffectId, EntityKind, EntityRef, IdempotencyKey, MessageId, PolicyKind, PolicyRef, PrivacyClass, RetentionClass, RetryClassification, RunId, RuntimePackageFingerprint, SessionId, SourceKind, SourceRef, TurnId, ValidatedOutputId, ValueEq};
use crate::effect::{EffectIntent, EffectKind, EffectResult, EffectTerminalStatus};
use crate::hashing::{sha256_digest_spec, sha256_hex};
use crate::journal::{EventIndexProjection, JOURNAL_SCHEMA_VERSION, JournalRecord, JournalRecordKind, JournalRecordPayload, content_entity_views, entity_is, entity_views, push_content_entities};
use crate::text::{concat2, concat3, decimal, hex_lower, is_lower_hex_char, join_commas, join_with_commas, lemma_hex_lower_chars, string_views, u64_to_decimal};

verus! {

/// Identifier of an output delivery; nonempty.
#[derive(Debug)]
pub struct OutputDeliveryId(String);

impl View for OutputDeliveryId {
    type V = Seq<char>;

    closed spec fn view(&self) -> Seq<char> {
        self.0@
    }
}

impl Clone for OutputDeliveryId {
    fn clone(&self) -> (res: Self)
        ensures
            res == *self,
    {
        OutputDeliveryId(self.0.clone())
    }
}

impl crate::domain::ValueEq for OutputDeliveryId {
    open spec fn value_eq(&self, other: &Self) -> bool {
        self@ == other@
    }

    fn equals(&self, other: &Self) -> (r: bool) {
        let r = self.0 == other.0;
        proof {
            assert(self@ == self.0@ && other@ == other.0@);
            assert(r == (self@ == other@));
            assert(r == self.value_eq(other));
        }
        r
    }
}

impl OutputDeliveryId {
    /// Builds the identifier; the value must not be empty.
    pub fn new(value: String) -> (res: Self)
        requires
            value@.len() > 0,
        ensures
            res@ == value@,
    {
        OutputDeliveryId(value)
    }

    /// Returns the identifier text.
    pub fn as_str(&self) -> (res: &str)
        ensures
            res@ == self@,
    {
        self.0.as_str()
    }
}

/// Reference to an output sink; nonempty.
#[derive(Debug)]
pub struct OutputSinkRef(String);

impl View for OutputSinkRef {
    type V = Seq<char>;

    closed spec fn view(&self) -> Seq<char> {
        self.0@
    }
}

impl Clone for OutputSinkRef {
    fn clone(&self) -> (res: Self)
        ensures
            res == *self,
    {
        OutputSinkRef(self.0.clone())
    }
}

impl crate::domain::ValueEq for OutputSinkRef {
    open spec fn value_eq(&self, other: &Self) -> bool {
        self@ == other@
    }

    fn equals(&self, other: &Self) -> (r: bool) {
        let r = self.0 == other.0;
        proof {
            assert(self@ == self.0@ && other@ == other.0@);
            assert(r == (self@ == other@));
            assert(r == self.value_eq(other));
        }
        r
    }
}

impl OutputSinkRef {
    /// Builds the identifier; the value must not be empty.
    pub fn new(value: String) -> (res: Self)
        requires
            value@.len() > 0,
        ensures
            res@ == value@,
    {
        OutputSinkRef(value)
    }

    /// Returns the identifier text.
    pub fn as_str(&self) -> (res: &str)
        ensures
            res@ == self@,
    {
        self.0.as_str()
    }
}

/// Whether output delivery is disabled, optional, or required.
#[derive(Clone, Copy, Debug, PartialEq, Eq, Structural)]
pub enum OutputDeliveryRequirement {
    Disabled,
    Optional,
    Required,
}

impl crate::domain::ValueEq for OutputDeliveryRequirement {
    open spec fn value_eq(&self, other: &Self) -> bool {
        *self == *other
    }

    fn equals(&self, other: &Self) -> (r: bool) {
        *self == *other
    }
}

/// What is being delivered.
#[derive(Debug)]
pub enum OutputDeliveryKind {
    StreamChunk { stream_cursor: String, chunk_index: u64 },
    FinalMessage,
    FinalValidatedOutput,
}

impl Clone for OutputDeliveryKind {
    fn clone(&self) -> (res: Self)
        ensures
            res == *self,
    {
        match self {
            OutputDeliveryKind::StreamChunk { stream_cursor, chunk_index } => { OutputDeliveryKind::StreamChunk { stream_cursor: stream_cursor.clone(), chunk_index: *chunk_index } }
            OutputDeliveryKind::FinalMessage => OutputDeliveryKind::FinalMessage,
            OutputDeliveryKind::FinalValidatedOutput => OutputDeliveryKind::FinalValidatedOutput,
        }
    }
}

/// How content is carried to a sink.
#[derive(Clone, Copy, Debug, PartialEq, Eq, Structural)]
pub enum OutputContentMode {
    ContentRefsOnly,
    RedactedSummary,
    RawContentIfPolicyAllows,
}

impl crate::domain::ValueEq for OutputContentMode {
    open spec fn value_eq(&self, other: &Self) -> bool {
        *self == *other
    }

    fn equals(&self, other: &Self) -> (r: bool) {
        *self == *other
    }
}

/// Policy of output delivery.
#[derive(Debug)]
pub struct OutputDeliveryPolicy {
    pub policy_ref: PolicyRef,
    pub requirement: OutputDeliveryRequirement,
    pub default_content_mode: OutputContentMode,
    pub allowed_content_modes: Vec<OutputContentMode>,
    pub required_sink_ref: Option<OutputSinkRef>,
    pub retry_policy_ref: Option<PolicyRef>,
    pub reconciliation_policy_ref: Option<PolicyRef>,
    pub raw_content_policy: RawOutputContentPolicy,
}

impl OutputDeliveryPolicy {
    /// Field-wise equality, with vectors compared by their contents.
    pub open spec fn same_as(&self, other: &Self) -> bool {
        &&& self.policy_ref == other.policy_ref
        &&& self.requirement == other.requirement
        &&& self.default_content_mode == other.default_content_mode
        &&& self.allowed_content_modes@ == other.allowed_content_modes@
        &&& self.required_sink_ref == other.required_sink_ref
        &&& self.retry_policy_ref == other.retry_policy_ref
        &&& self.reconciliation_policy_ref == other.reconciliation_policy_ref
        &&& self.raw_content_policy == other.raw_content_policy
    }
}

impl Clone for OutputDeliveryPolicy {
    fn clone(&self) -> (res: Self)
        ensures
            res.same_as(self),
    {
        let allowed_content_modes_copy = self.allowed_content_modes.clone();
        proof { assert(allowed_content_modes_copy@ =~= self.allowed_content_modes@); }
        OutputDeliveryPolicy {
            policy_ref: self.policy_ref.clone(),
            requirement: self.requirement,
            default_content_mode: self.default_content_mode,
            allowed_content_modes: allowed_content_modes_copy,
            required_sink_ref: self.required_sink_ref.clone(),
            retry_policy_ref: self.retry_policy_ref.clone(),
            reconciliation_policy_ref: self.reconciliation_policy_ref.clone(),
            raw_content_policy: self.raw_content_policy.clone(),
        }
    }
}

/// When raw output content may reach a sink.
#[derive(Debug)]
pub struct RawOutputContentPolicy {
    pub policy_ref: PolicyRef,
    pub allow_raw_content: bool,
    pub retention_named: bool,
    pub redaction_policy_named: bool,
    pub allowed_sink_ref: Option<OutputSinkRef>,
    pub byte_limit: u64,
}

impl Clone for RawOutputContentPolicy {
    fn clone(&self) -> (res: Self)
        ensures
            res == *self,
    {
        RawOutputContentPolicy {
            policy_ref: self.policy_ref.clone(),
            allow_raw_content: self.allow_raw_content,
            retention_named: self.retention_named,
            redaction_policy_named: self.redaction_policy_named,
            allowed_sink_ref: self.allowed_sink_ref.clone(),
            byte_limit: self.byte_limit,
        }
    }
}

/// A request to deliver output to a sink.
#[derive(Debug)]
pub struct OutputDeliveryRequest {
    pub delivery_id: OutputDeliveryId,
    pub effect_id: EffectId,
    pub run_id: RunId,
    pub session_id: Option<SessionId>,
    pub agent_id: AgentId,
    pub turn_id: Option<TurnId>,
    pub attempt_id: Option<AttemptId>,
    pub source_message_id: Option<MessageId>,
    pub validated_output_id: Option<ValidatedOutputId>,
    pub destination: DestinationRef,
    pub sink_ref: OutputSinkRef,
    pub delivery_kind: OutputDeliveryKind,
    pub content_mode: OutputContentMode,
    pub content_refs: Vec<ContentRefId>,
    pub redacted_summary: String,
    pub raw_content: Option<String>,
    pub privacy: PrivacyClass,
    pub retention: RetentionClass,
    pub policy_refs: Vec<PolicyRef>,
    pub idempotency_key: Option<IdempotencyKey>,
    pub dedupe_key: DedupeKey,
    pub runtime_package_fingerprint: RuntimePackageFingerprint,
}

impl OutputDeliveryRequest {
    /// Field-wise equality, with vectors compared by their contents.
    pub open spec fn same_as(&self, other: &Self) -> bool {
        &&& self.delivery_id == other.delivery_id
        &&& self.effect_id == other.effect_id
        &&& self.run_id == other.run_id
        &&& self.session_id == other.session_id
        &&& self.agent_id == other.agent_id
        &&& self.turn_id == other.turn_id
        &&& self.attempt_id == other.attempt_id
        &&& self.source_message_id == other.source_message_id
        &&& self.validated_output_id == other.validated_output_id
        &&& self.destination == other.destination
        &&& self.sink_ref == other.sink_ref
        &&& self.delivery_kind == other.delivery_kind
        &&& self.content_mode == other.content_mode
        &&& self.content_refs@ == other.content_refs@
        &&& self.redacted_summary == other.redacted_summary
        &&& self.raw_content == other.raw_content
        &&& self.privacy == other.privacy
        &&& self.retention == other.retention
        &&& self.policy_refs@ == other.policy_refs@
        &&& self.idempotency_key == other.idempotency_key
        &&& self.dedupe_key == other.dedupe_key
        &&& self.runtime_package_fingerprint == other.runtime_package_fingerprint
    }
}

impl Clone for OutputDeliveryRequest {
    fn clone(&self) -> (res: Self)
        ensures
            res.same_as(self),
    {
        let content_refs_copy = self.content_refs.clone();
        proof { assert(content_refs_copy@ =~= self.content_refs@); }
        let policy_refs_copy = self.policy_refs.clone();
        proof { assert(policy_refs_copy@ =~= self.policy_refs@); }
        OutputDeliveryRequest {
            delivery_id: self.delivery_id.clone(),
            effect_id: self.effect_id.clone(),
            run_id: self.run_id.clone(),
            session_id: self.session_id.clone(),
            agent_id: self.agent_id.clone(),
            turn_id: self.turn_id.clone(),
            attempt_id: self.attempt_id.clone(),
            source_message_id: self.source_message_id.clone(),
            validated_output_id: self.validated_output_id.clone(),
            destination: self.destination.clone(),
            sink_ref: self.sink_ref.clone(),
            delivery_kind: self.delivery_kind.clone(),
            content_mode: self.content_mode,
            content_refs: content_refs_copy,
            redacted_summary: self.redacted_summary.clone(),
            raw_content: self.raw_content.clone(),
            privacy: self.privacy,
            retention: self.retention,
            policy_refs: policy_refs_copy,
            idempotency_key: self.idempotency_key.clone(),
            dedupe_key: self.dedupe_key.clone(),
            runtime_package_fingerprint: self.runtime_package_fingerprint.clone(),
        }
    }
}

/// What a sink returned.
#[derive(Debug)]
pub struct OutputDeliveryReceipt {
    pub delivery_id: OutputDeliveryId,
    pub status: OutputDispatchStatus,
    pub ack_ref: Option<String>,
    pub destination_cursor: Option<String>,
    pub external_operation_id: Option<String>,
    pub reconciliation_ref: Option<String>,
    pub redacted_summary: String,
}

impl Clone for OutputDeliveryReceipt {
    fn clone(&self) -> (res: Self)
        ensures
            res == *self,
    {
        OutputDeliveryReceipt {
            delivery_id: self.delivery_id.clone(),
            status: self.status,
            ack_ref: self.ack_ref.clone(),
            destination_cursor: self.destination_cursor.clone(),
            external_operation_id: self.external_operation_id.clone(),
            reconciliation_ref: self.reconciliation_ref.clone(),
            redacted_summary: self.redacted_summary.clone(),
        }
    }
}

/// Status of an output dispatch.
#[derive(Clone, Copy, Debug, PartialEq, Eq, Structural)]
pub enum OutputDispatchStatus {
    Requested,
    Completed,
    Failed,
    Deduped,
    HostConfigurationNeeded,
    PolicyDenied,
    SkippedOptional,
    ReconciliationNeeded,
}

impl crate::domain::ValueEq for OutputDispatchStatus {
    open spec fn value_eq(&self, other: &Self) -> bool {
        *self == *other
    }

    fn equals(&self, other: &Self) -> (r: bool) {
        *self == *other
    }
}

/// Kind of output delivery event.
#[derive(Clone, Copy, Debug, PartialEq, Eq, Structural)]
pub enum OutputDeliveryEventKind {
    OutputDispatchRequested,
    OutputDispatchCompleted,
    OutputDispatchFailed,
    OutputDispatchDeduped,
}

impl crate::domain::ValueEq for OutputDeliveryEventKind {
    open spec fn value_eq(&self, other: &Self) -> bool {
        *self == *other
    }

    fn equals(&self, other: &Self) -> (r: bool) {
        *self == *other
    }
}

/// Journaled intent to deliver output.
#[derive(Debug)]
pub struct OutputDeliveryIntentRecord {
    pub delivery_id: OutputDeliveryId,
    pub effect_intent: EffectIntent,
    pub destination: DestinationRef,
    pub sink_ref: OutputSinkRef,
    pub desired_sink_ref: OutputSinkRef,
    pub delivery_kind: OutputDeliveryKind,
    pub content_mode: OutputContentMode,
    pub content_refs: Vec<ContentRefId>,
    pub redacted_summary: String,
    pub privacy: PrivacyClass,
    pub retention: RetentionClass,
    pub policy_refs: Vec<PolicyRef>,
    pub idempotency_key: Option<IdempotencyKey>,
    pub dedupe_key: DedupeKey,
    pub runtime_package_fingerprint: RuntimePackageFingerprint,
}

impl OutputDeliveryIntentRecord {
    /// Field-wise equality, with vectors compared by their contents.
    pub open spec fn same_as(&self, other: &Self) -> bool {
        &&& self.delivery_id == other.delivery_id
        &&& self.effect_intent.same_as(&other.effect_intent)
        &&& self.destination == other.destination
        &&& self.sink_ref == other.sink_ref
        &&& self.desired_sink_ref == other.desired_sink_ref
        &&& self.delivery_kind == other.delivery_kind
        &&& self.content_mode == other.content_mode
        &&& self.content_refs@ == other.content_refs@
        &&& self.redacted_summary == other.redacted_summary
        &&& self.privacy == other.privacy
        &&& self.retention == other.retention
        &&& self.policy_refs@ == other.policy_refs@
        &&& self.idempotency_key == other.idempotency_key
        &&& self.dedupe_key == other.dedupe_key
        &&& self.runtime_package_fingerprint == other.runtime_package_fingerprint
    }
}

impl Clone for OutputDeliveryIntentRecord {
    fn clone(&self) -> (res: Self)
        ensures
            res.same_as(self),
    {
        let content_refs_copy = self.content_refs.clone();
        proof { assert(content_refs_copy@ =~= self.content_refs@); }
        let policy_refs_copy = self.policy_refs.clone();
        proof { assert(policy_refs_copy@ =~= self.policy_refs@); }
        OutputDeliveryIntentRecord {
            delivery_id: self.delivery_id.clone(),
            effect_intent: self.effect_intent.clone(),
            destination: self.destination.clone(),
            sink_ref: self.sink_ref.clone(),
            desired_sink_ref: self.desired_sink_ref.clone(),
            delivery_kind: self.delivery_kind.clone(),
            content_mode: self.content_mode,
            content_refs: content_refs_copy,
            redacted_summary: self.redacted_summary.clone(),
            privacy: self.privacy,
            retention: self.retention,
            policy_refs: policy_refs_copy,
            idempotency_key: self.idempotency_key.clone(),
            dedupe_key: self.dedupe_key.clone(),
            runtime_package_fingerprint: self.runtime_package_fingerprint.clone(),
        }
    }
}

/// Journaled result of an output delivery.
#[derive(Debug)]
pub struct OutputDeliveryResultRecord {
    pub delivery_id: OutputDeliveryId,
    pub effect_result: EffectResult,
    pub destination: DestinationRef,
    pub sink_ref: OutputSinkRef,
    pub dispatch_status: OutputDispatchStatus,
    pub ack_ref: Option<String>,
    pub external_operation_id: Option<String>,
    pub error_ref: Option<String>,
    pub content_refs: Vec<ContentRefId>,
    pub redacted_summary: String,
    pub retry_classification: RetryClassification,
}

impl OutputDeliveryResultRecord {
    /// Field-wise equality, with vectors compared by their contents.
    pub open spec fn same_as(&self, other: &Self) -> bool {
        &&& self.delivery_id == other.delivery_id
        &&& self.effect_result.same_as(&other.effect_result)
        &&& self.destination == other.destination
        &&& self.sink_ref == other.sink_ref
        &&& self.dispatch_status == other.dispatch_status
        &&& self.ack_ref == other.ack_ref
        &&& self.external_operation_id == other.external_operation_id
        &&& self.error_ref == other.error_ref
        &&& self.content_refs@ == other.content_refs@
        &&& self.redacted_summary == other.redacted_summary
        &&& self.retry_classification == other.retry_classification
    }
}

impl Clone for OutputDeliveryResultRecord {
    fn clone(&self) -> (res: Self)
        ensures
            res.same_as(self),
    {
        let content_refs_copy = self.content_refs.clone();
        proof { assert(content_refs_copy@ =~= self.content_refs@); }
        OutputDeliveryResultRecord {
            delivery_id: self.delivery_id.clone(),
            effect_result: self.effect_result.clone(),
            destination: self.destination.clone(),
            sink_ref: self.sink_ref.clone(),
            dispatch_status: self.dispatch_status,
            ack_ref: self.ack_ref.clone(),
            external_operation_id: self.external_operation_id.clone(),
            error_ref: self.error_ref.clone(),
            content_refs: content_refs_copy,
            redacted_summary: self.redacted_summary.clone(),
            retry_classification: self.retry_classification,
        }
    }
}

/// Journaled proof that a delivery was deduplicated.
#[derive(Debug)]
pub struct OutputDeliveryDedupeRecord {
    pub delivery_id: OutputDeliveryId,
    pub dedupe_key: DedupeKey,
    pub prior_delivery_id: Option<OutputDeliveryId>,
    pub prior_external_operation_id: Option<String>,
    pub prior_terminal_status: OutputDispatchStatus,
    pub current_status: OutputDispatchStatus,
    pub redacted_summary: String,
    pub policy_refs: Vec<PolicyRef>,
}

impl OutputDeliveryDedupeRecord {
    /// Field-wise equality, with vectors compared by their contents.
    pub open spec fn same_as(&self, other: &Self) -> bool {
        &&& self.delivery_id == other.delivery_id
        &&& self.dedupe_key == other.dedupe_key
        &&& self.prior_delivery_id == other.prior_delivery_id
        &&& self.prior_external_operation_id == other.prior_external_operation_id
        &&& self.prior_terminal_status == other.prior_terminal_status
        &&& self.current_status == other.current_status
        &&& self.redacted_summary == other.redacted_summary
        &&& self.policy_refs@ == other.policy_refs@
    }
}

impl Clone for OutputDeliveryDedupeRecord {
    fn clone(&self) -> (res: Self)
        ensures
            res.same_as(self),
    {
        let policy_refs_copy = self.policy_refs.clone();
        proof { assert(policy_refs_copy@ =~= self.policy_refs@); }
        OutputDeliveryDedupeRecord {
            delivery_id: self.delivery_id.clone(),
            dedupe_key: self.dedupe_key.clone(),
            prior_delivery_id: self.prior_delivery_id.clone(),
            prior_external_operation_id: self.prior_external_operation_id.clone(),
            prior_terminal_status: self.prior_terminal_status,
            current_status: self.current_status,
            redacted_summary: self.redacted_summary.clone(),
            policy_refs: policy_refs_copy,
        }
    }
}

/// Journaled reconciliation of an unknown delivery outcome.
#[derive(Debug)]
pub struct OutputDeliveryReconciliationRecord {
    pub delivery_id: OutputDeliveryId,
    pub intent_record_id: String,
    pub side_effect_kind: EffectKind,
    pub idempotency_key: Option<IdempotencyKey>,
    pub dedupe_key: DedupeKey,
    pub external_operation_id: Option<String>,
    pub terminal_status: OutputDispatchStatus,
    pub terminal_append_status: TerminalAppendStatus,
    pub reconciliation_adapter: Option<OutputSinkRef>,
    pub unsafe_pending_reason: String,
    pub replay_decision: ReplayRepairDecision,
    pub resend_allowed: bool,
}

impl Clone for OutputDeliveryReconciliationRecord {
    fn clone(&self) -> (res: Self)
        ensures
            res == *self,
    {
        OutputDeliveryReconciliationRecord {
            delivery_id: self.delivery_id.clone(),
            intent_record_id: self.intent_record_id.clone(),
            side_effect_kind: self.side_effect_kind,
            idempotency_key: self.idempotency_key.clone(),
            dedupe_key: self.dedupe_key.clone(),
            external_operation_id: self.external_operation_id.clone(),
            terminal_status: self.terminal_status,
            terminal_append_status: self.terminal_append_status,
            reconciliation_adapter: self.reconciliation_adapter.clone(),
            unsafe_pending_reason: self.unsafe_pending_reason.clone(),
            replay_decision: self.replay_decision,
            resend_allowed: self.resend_allowed,
        }
    }
}

/// Whether a terminal record was appended.
#[derive(Clone, Copy, Debug, PartialEq, Eq, Structural)]
pub enum TerminalAppendStatus {
    NotAttempted,
    Appended,
    AppendFailed,
}

impl crate::domain::ValueEq for TerminalAppendStatus {
    open spec fn value_eq(&self, other: &Self) -> bool {
        *self == *other
    }

    fn equals(&self, other: &Self) -> (r: bool) {
        *self == *other
    }
}

/// How replay repairs a delivery.
#[derive(Clone, Copy, Debug, PartialEq, Eq, Structural)]
pub enum ReplayRepairDecision {
    CompletedByDedupeProof,
    RequiresHostReconciliation,
    UnsafePending,
}

impl crate::domain::ValueEq for ReplayRepairDecision {
    open spec fn value_eq(&self, other: &Self) -> bool {
        *self == *other
    }

    fn equals(&self, other: &Self) -> (r: bool) {
        *self == *other
    }
}

/// Event about an output delivery.
#[derive(Debug)]
pub struct OutputDeliveryEventRecord {
    pub event_kind: OutputDeliveryEventKind,
    pub delivery_id: OutputDeliveryId,
    pub destination: DestinationRef,
    pub sink_ref: OutputSinkRef,
    pub dedupe_key: DedupeKey,
    pub source_message_id: Option<MessageId>,
    pub dispatch_status: OutputDispatchStatus,
    pub ack_ref: Option<String>,
    pub reconciliation_status: Option<ReplayRepairDecision>,
    pub redacted_summary: String,
}

impl Clone for OutputDeliveryEventRecord {
    fn clone(&self) -> (res: Self)
        ensures
            res == *self,
    {
        OutputDeliveryEventRecord {
            event_kind: self.event_kind,
            delivery_id: self.delivery_id.clone(),
            destination: self.destination.clone(),
            sink_ref: self.sink_ref.clone(),
            dedupe_key: self.dedupe_key.clone(),
            source_message_id: self.source_message_id.clone(),
            dispatch_status: self.dispatch_status,
            ack_ref: self.ack_ref.clone(),
            reconciliation_status: self.reconciliation_status.clone(),
            redacted_summary: self.redacted_summary.clone(),
        }
    }
}

/// Journal payload of the output delivery feature.
#[derive(Debug)]
pub enum OutputDeliveryRecord {
    Intent(OutputDeliveryIntentRecord),
    Result(OutputDeliveryResultRecord),
    Dedupe(OutputDeliveryDedupeRecord),
    Reconciliation(OutputDeliveryReconciliationRecord),
    Event(OutputDeliveryEventRecord),
}

impl OutputDeliveryRecord {
    /// Variant-wise equality, with vectors compared by their contents.
    pub open spec fn same_as(&self, other: &Self) -> bool {
        match (*self, *other) {
            (OutputDeliveryRecord::Intent(a_v0), OutputDeliveryRecord::Intent(b_v0)) => (a_v0.same_as(&b_v0)),
            (OutputDeliveryRecord::Result(a_v0), OutputDeliveryRecord::Result(b_v0)) => (a_v0.same_as(&b_v0)),
            (OutputDeliveryRecord::Dedupe(a_v0), OutputDeliveryRecord::Dedupe(b_v0)) => (a_v0.same_as(&b_v0)),
            (OutputDeliveryRecord::Reconciliation(a_v0), OutputDeliveryRecord::Reconciliation(b_v0)) => (a_v0 == b_v0),
            (OutputDeliveryRecord::Event(a_v0), OutputDeliveryRecord::Event(b_v0)) => (a_v0 == b_v0),
            _ => false,
        }
    }
}

impl Clone for OutputDeliveryRecord {
    fn clone(&self) -> (res: Self)
        ensures
            res.same_as(self),
    {
        match self {
            OutputDeliveryRecord::Intent(v0) => { OutputDeliveryRecord::Intent(v0.clone()) }
            OutputDeliveryRecord::Result(v0) => { OutputDeliveryRecord::Result(v0.clone()) }
            OutputDeliveryRecord::Dedupe(v0) => { OutputDeliveryRecord::Dedupe(v0.clone()) }
            OutputDeliveryRecord::Reconciliation(v0) => { OutputDeliveryRecord::Reconciliation(v0.clone()) }
            OutputDeliveryRecord::Event(v0) => { OutputDeliveryRecord::Event(v0.clone()) }
        }
    }
}

/// Lineage fields shared by output delivery journal records.
#[derive(Debug)]
pub struct OutputDeliveryJournalBase {
    pub journal_seq: u64,
    pub record_id: String,
    pub run_id: RunId,
    pub session_id: Option<SessionId>,
    pub agent_id: AgentId,
    pub turn_id: Option<TurnId>,
    pub attempt_id: Option<AttemptId>,
    pub source: SourceRef,
    pub destination: DestinationRef,
    pub timestamp_millis: u64,
    pub runtime_package_fingerprint: RuntimePackageFingerprint,
    pub redaction_policy_id: String,
}

impl Clone for OutputDeliveryJournalBase {
    fn clone(&self) -> (res: Self)
        ensures
            res == *self,
    {
        OutputDeliveryJournalBase {
            journal_seq: self.journal_seq,
            record_id: self.record_id.clone(),
            run_id: self.run_id.clone(),
            session_id: self.session_id.clone(),
            agent_id: self.agent_id.clone(),
            turn_id: self.turn_id.clone(),
            attempt_id: self.attempt_id.clone(),
            source: self.source.clone(),
            destination: self.destination.clone(),
            timestamp_millis: self.timestamp_millis,
            runtime_package_fingerprint: self.runtime_package_fingerprint.clone(),
            redaction_policy_id: self.redaction_policy_id.clone(),
        }
    }
}

impl OutputDeliveryKind {
    /// Whether the delivery is a stream chunk.
    pub fn is_chunk(&self) -> (r: bool)
        ensures
            r == (*self is StreamChunk),
    {
        match self {
            OutputDeliveryKind::StreamChunk { .. } => true,
            _ => false,
        }
    }

    /// The fragment of the dedupe preimage that names the delivery kind.
    pub open spec fn dedupe_fragment_spec(&self) -> Seq<char> {
        match *self {
            OutputDeliveryKind::StreamChunk { stream_cursor, chunk_index } => "stream:"@ + stream_cursor@ + ":"@
                + decimal(chunk_index as nat),
            OutputDeliveryKind::FinalMessage => "final:message"@,
            OutputDeliveryKind::FinalValidatedOutput => "final:validated_output"@,
        }
    }

    /// The fragment of the dedupe preimage that names the delivery kind.
    pub(crate) fn dedupe_fragment(&self) -> (res: String)
        ensures
            res@ == self.dedupe_fragment_spec(),
    {
        match self {
            OutputDeliveryKind::StreamChunk { stream_cursor, chunk_index } => {
                let index = u64_to_decimal(*chunk_index);
                let mut s = concat3("stream:", stream_cursor.as_str(), ":");
                s.append(index.as_str());
                s
            },
            OutputDeliveryKind::FinalMessage => "final:message".to_string(),
            OutputDeliveryKind::FinalValidatedOutput => "final:validated_output".to_string(),
        }
    }
}

impl RawOutputContentPolicy {
    /// The policy that never allows raw content.
    pub fn deny() -> (res: Self)
        ensures
            res.policy_ref.kind == PolicyKind::RuntimePackage,
            res.policy_ref.id@ == "policy.output_delivery.raw.deny"@,
            res.policy_ref.version is None,
            !res.allow_raw_content,
            res.retention_named,
            res.redaction_policy_named,
            res.allowed_sink_ref is None,
            res.byte_limit == 0,
    {
        RawOutputContentPolicy {
            policy_ref: PolicyRef::new("policy.output_delivery.raw.deny"),
            allow_raw_content: false,
            retention_named: true,
            redaction_policy_named: true,
            allowed_sink_ref: None,
            byte_limit: 0,
        }
    }

    /// Raw content allowed for one sink, up to `byte_limit` bytes.
    pub fn allow_for_sink(policy_ref: PolicyRef, sink_ref: OutputSinkRef, byte_limit: u64) -> (res: Self)
        ensures
            res == (RawOutputContentPolicy {
                policy_ref,
                allow_raw_content: true,
                retention_named: true,
                redaction_policy_named: true,
                allowed_sink_ref: Some(sink_ref),
                byte_limit,
            }),
    {
        RawOutputContentPolicy {
            policy_ref,
            allow_raw_content: true,
            retention_named: true,
            redaction_policy_named: true,
            allowed_sink_ref: Some(sink_ref),
            byte_limit,
        }
    }

    /// Whether `byte_len` bytes of raw content may go to `sink_ref`.
    pub open spec fn allows_raw_for_spec(&self, sink_ref: OutputSinkRef, byte_len: nat) -> bool {
        &&& self.allow_raw_content
        &&& self.retention_named
        &&& self.redaction_policy_named
        &&& self.allowed_sink_ref is Some
        &&& self.allowed_sink_ref.unwrap()@ == sink_ref@
        &&& self.byte_limit >= byte_len
    }

    /// Whether `byte_len` bytes of raw content may go to `sink_ref`: raw content must be
    /// allowed, with named retention and redaction, for that sink, within the byte limit.
    pub fn allows_raw_for(&self, sink_ref: &OutputSinkRef, byte_len: usize) -> (r: bool)
        ensures
            r == self.allows_raw_for_spec(*sink_ref, byte_len as nat),
    {
        let sink_allowed = match &self.allowed_sink_ref {
            Some(allowed) => allowed.equals(sink_ref),
            None => false,
        };
        self.allow_raw_content && self.retention_named && self.redaction_policy_named && sink_allowed && self.byte_limit
            >= byte_len as u64
    }
}

/// The deny policy allows no raw content, whatever the sink and size.
pub proof fn lemma_deny_allows_no_raw(policy: RawOutputContentPolicy, sink_ref: OutputSinkRef, byte_len: nat)
    requires
        !policy.allow_raw_content,
    ensures
        !policy.allows_raw_for_spec(sink_ref, byte_len),
{
}

impl OutputDeliveryPolicy {
    /// Delivery required to one sink, by content refs (default) or redacted summary, never raw.
    pub fn required(policy_ref: PolicyRef, sink_ref: OutputSinkRef) -> (res: Self)
        ensures
            res.policy_ref == policy_ref,
            res.requirement == OutputDeliveryRequirement::Required,
            res.default_content_mode == OutputContentMode::ContentRefsOnly,
            res.allowed_content_modes@ == seq![OutputContentMode::ContentRefsOnly, OutputContentMode::RedactedSummary],
            res.required_sink_ref == Some(sink_ref),
            res.retry_policy_ref is None,
            res.reconciliation_policy_ref is None,
            !res.raw_content_policy.allow_raw_content,
    {
        let mut modes: Vec<OutputContentMode> = Vec::new();
        modes.push(OutputContentMode::ContentRefsOnly);
        modes.push(OutputContentMode::RedactedSummary);
        proof {
            assert(modes@ =~= seq![OutputContentMode::ContentRefsOnly, OutputContentMode::RedactedSummary]);
        }
        OutputDeliveryPolicy {
            policy_ref,
            requirement: OutputDeliveryRequirement::Required,
            default_content_mode: OutputContentMode::ContentRefsOnly,
            allowed_content_modes: modes,
            required_sink_ref: Some(sink_ref),
            retry_policy_ref: None,
            reconciliation_policy_ref: None,
            raw_content_policy: RawOutputContentPolicy::deny(),
        }
    }

    /// Optional delivery by redacted summary, to no particular sink, never raw.
    pub fn optional(policy_ref: PolicyRef) -> (res: Self)
        ensures
            res.policy_ref == policy_ref,
            res.requirement == OutputDeliveryRequirement::Optional,
            res.default_content_mode == OutputContentMode::RedactedSummary,
            res.allowed_content_modes@ == seq![OutputContentMode::RedactedSummary],
            res.required_sink_ref is None,
            res.retry_policy_ref is None,
            res.reconciliation_policy_ref is None,
            !res.raw_content_policy.allow_raw_content,
    {
        let mut modes: Vec<OutputContentMode> = Vec::new();
        modes.push(OutputContentMode::RedactedSummary);
        proof {
            assert(modes@ =~= seq![OutputContentMode::RedactedSummary]);
        }
        OutputDeliveryPolicy {
            policy_ref,
            requirement: OutputDeliveryRequirement::Optional,
            default_content_mode: OutputContentMode::RedactedSummary,
            allowed_content_modes: modes,
            required_sink_ref: None,
            retry_policy_ref: None,
            reconciliation_policy_ref: None,
            raw_content_policy: RawOutputContentPolicy::deny(),
        }
    }

    /// No delivery: no content mode is allowed.
    pub fn disabled(policy_ref: PolicyRef) -> (res: Self)
        ensures
            res.policy_ref == policy_ref,
            res.requirement == OutputDeliveryRequirement::Disabled,
            res.default_content_mode == OutputContentMode::ContentRefsOnly,
            res.allowed_content_modes@.len() == 0,
            res.required_sink_ref is None,
            res.retry_policy_ref is None,
            res.reconciliation_policy_ref is None,
            !res.raw_content_policy.allow_raw_content,
    {
        OutputDeliveryPolicy {
            policy_ref,
            requirement: OutputDeliveryRequirement::Disabled,
            default_content_mode: OutputContentMode::ContentRefsOnly,
            allowed_content_modes: Vec::new(),
            required_sink_ref: None,
            retry_policy_ref: None,
            reconciliation_policy_ref: None,
            raw_content_policy: RawOutputContentPolicy::deny(),
        }
    }

    /// Whether the policy allows a content mode.
    pub fn allows_mode(&self, mode: OutputContentMode) -> (r: bool)
        ensures
            r == self.allowed_content_modes@.contains(mode),
    {
        let mut i: usize = 0;
        while i < self.allowed_content_modes.len()
            invariant
                0 <= i <= self.allowed_content_modes@.len(),
                forall|k: int| 0 <= k < i ==> self.allowed_content_modes@[k] != mode,
            decreases self.allowed_content_modes@.len() - i,
        {
            if self.allowed_content_modes[i] == mode {
                proof {
                    assert(self.allowed_content_modes@[i as int] == mode);
                }
                return true;
            }
            i = i + 1;
        }
        false
    }

    /// The policy's own ref, then its retry and reconciliation policies when set.
    pub fn policy_refs(&self) -> (res: Vec<PolicyRef>)
        ensures
            res@ == seq![self.policy_ref] + (match self.retry_policy_ref {
                Some(p) => seq![p],
                None => Seq::empty(),
            }) + (match self.reconciliation_policy_ref {
                Some(p) => seq![p],
                None => Seq::empty(),
            }),
    {
        let mut refs: Vec<PolicyRef> = Vec::new();
        refs.push(self.policy_ref.clone());
        match &self.retry_policy_ref {
            Some(p) => {
                refs.push(p.clone());
            },
            None => {},
        }
        match &self.reconciliation_policy_ref {
            Some(p) => {
                refs.push(p.clone());
            },
            None => {},
        }
        proof {
            assert(refs@ =~= seq![self.policy_ref] + (match self.retry_policy_ref {
                Some(p) => seq![p],
                None => Seq::empty(),
            }) + (match self.reconciliation_policy_ref {
                Some(p) => seq![p],
                None => Seq::empty(),
            }));
        }
        refs
    }
}

/// A disabled delivery policy allows no content mode.
pub proof fn lemma_disabled_allows_no_mode(policy: OutputDeliveryPolicy, mode: OutputContentMode)
    requires
        policy.allowed_content_modes@.len() == 0,
    ensures
        !policy.allowed_content_modes@.contains(mode),
{
}

impl OutputDeliveryRequest {
    /// Whether `intent` is the output delivery intent of this request.
    pub open spec fn is_effect_intent(&self, intent: EffectIntent) -> bool {
        &&& intent.effect_id == self.effect_id
        &&& intent.kind == EffectKind::OutputDelivery
        &&& entity_is(intent.subject_ref, EntityKind::OutputDelivery, self.delivery_id@)
        &&& intent.source.kind == SourceKind::Sdk
        &&& intent.source.id@ == "source.sdk.output_delivery"@
        &&& intent.destination == Some(self.destination)
        &&& intent.policy_refs@ == self.policy_refs@
        &&& intent.idempotency_key == self.idempotency_key
        &&& intent.dedupe_key == Some(self.dedupe_key)
        &&& intent.content_refs@ == self.content_refs@
        &&& intent.redacted_summary == self.redacted_summary
    }

    /// The intent of delivering this request, from the SDK's output delivery source.
    pub fn effect_intent(&self) -> (res: EffectIntent)
        ensures
            self.is_effect_intent(res),
    {
        let mut intent = EffectIntent::new(
            self.effect_id.clone(),
            EffectKind::OutputDelivery,
            EntityRef::new(EntityKind::OutputDelivery, self.delivery_id.as_str()),
            SourceRef::with_kind(SourceKind::Sdk, "source.sdk.output_delivery"),
            self.redacted_summary.clone(),
        );
        intent.destination = Some(self.destination.clone());
        let policy_refs = self.policy_refs.clone();
        let content_refs = self.content_refs.clone();
        proof {
            assert(policy_refs@ =~= self.policy_refs@);
            assert(content_refs@ =~= self.content_refs@);
        }
        intent.policy_refs = policy_refs;
        intent.idempotency_key = self.idempotency_key.clone();
        intent.dedupe_key = Some(self.dedupe_key.clone());
        intent.content_refs = content_refs;
        intent
    }

    /// Whether the request carries raw content.
    pub fn carries_raw_content(&self) -> (r: bool)
        ensures
            r == self.raw_content is Some,
    {
        self.raw_content.is_some()
    }
}

impl OutputDeliveryReceipt {
    /// A completed delivery with its acknowledgement.
    pub fn completed(delivery_id: OutputDeliveryId, ack_ref: String) -> (res: Self)
        ensures
            res.delivery_id == delivery_id,
            res.status == OutputDispatchStatus::Completed,
            res.ack_ref == Some(ack_ref),
            res.destination_cursor is None,
            res.external_operation_id is None,
            res.reconciliation_ref is None,
            res.redacted_summary@ == "output delivery completed"@,
    {
        OutputDeliveryReceipt {
            delivery_id,
            status: OutputDispatchStatus::Completed,
            ack_ref: Some(ack_ref),
            destination_cursor: None,
            external_operation_id: None,
            reconciliation_ref: None,
            redacted_summary: "output delivery completed".to_string(),
        }
    }

    /// A delivery whose outcome is unknown and must be reconciled.
    pub fn unknown(delivery_id: OutputDeliveryId, reconciliation_ref: String) -> (res: Self)
        ensures
            res.delivery_id == delivery_id,
            res.status == OutputDispatchStatus::ReconciliationNeeded,
            res.ack_ref is None,
            res.destination_cursor is None,
            res.external_operation_id is None,
            res.reconciliation_ref == Some(reconciliation_ref),
            res.redacted_summary@ == "output delivery outcome unknown"@,
    {
        OutputDeliveryReceipt {
            delivery_id,
            status: OutputDispatchStatus::ReconciliationNeeded,
            ack_ref: None,
            destination_cursor: None,
            external_operation_id: None,
            reconciliation_ref: Some(reconciliation_ref),
            redacted_summary: "output delivery outcome unknown".to_string(),
        }
    }
}

/// Whether `record` is an output delivery journal record on `base`: of the given kind and
/// event kind, about the given delivery, to `destination`, with the given keys, content refs
/// (also its related refs) and privacy, tagged `output_delivery`.
pub open spec fn is_output_delivery_record(
    record: JournalRecord,
    base: OutputDeliveryJournalBase,
    record_kind: JournalRecordKind,
    event_kind: Seq<char>,
    idempotency_key: Option<IdempotencyKey>,
    dedupe_key: Option<DedupeKey>,
    content_refs: Seq<ContentRefId>,
    delivery_id: OutputDeliveryId,
    destination: DestinationRef,
    privacy: PrivacyClass,
) -> bool {
    &&& record.journal_schema_version == JOURNAL_SCHEMA_VERSION
    &&& record.journal_seq == base.journal_seq
    &&& record.record_id == base.record_id
    &&& record.record_kind == record_kind
    &&& record.run_id == base.run_id
    &&& record.session_id == base.session_id
    &&& record.agent_id == base.agent_id
    &&& record.turn_id == base.turn_id
    &&& record.attempt_id == base.attempt_id
    &&& entity_is(record.subject_ref, EntityKind::OutputDelivery, delivery_id@)
    &&& entity_views(record.related_refs@) == content_entity_views(content_refs)
    &&& record.causal_refs@.len() == 0
    &&& record.source == base.source
    &&& record.destination == Some(destination)
    &&& record.correlation_keys@.len() == 0
    &&& string_views(record.tags@) == seq!["output_delivery"@]
    &&& record.delivery_semantics@ == "journal_backed"@
    &&& record.event_index.describes(
        base.run_id,
        base.session_id,
        base.agent_id,
        base.turn_id,
        "output_delivery"@,
        event_kind,
        base.source,
        Some(destination),
        privacy,
        seq!["output_delivery"@],
    )
    &&& record.event_index.subject_ref == record.subject_ref
    &&& record.event_index.related_refs@ == record.related_refs@
    &&& record.timestamp_millis == base.timestamp_millis
    &&& record.runtime_package_fingerprint@ == base.runtime_package_fingerprint@
    &&& record.privacy == privacy
    &&& record.content_refs@ == content_refs
    &&& record.redaction_policy_id == base.redaction_policy_id
    &&& record.idempotency_key == idempotency_key
    &&& record.dedupe_key == dedupe_key
    &&& record.checkpoint_ref is None
}

fn output_delivery_tags() -> (res: Vec<String>)
    ensures
        string_views(res@) == seq!["output_delivery"@],
{
    let mut tags: Vec<String> = Vec::new();
    tags.push("output_delivery".to_string());
    proof {
        assert(string_views(tags@) =~= seq!["output_delivery"@]);
    }
    tags
}

fn output_delivery_effect_record(
    base: OutputDeliveryJournalBase,
    record_kind: JournalRecordKind,
    event_kind: &str,
    idempotency_key: Option<IdempotencyKey>,
    dedupe_key: Option<DedupeKey>,
    content_refs: Vec<ContentRefId>,
    payload: JournalRecordPayload,
    delivery_id: &OutputDeliveryId,
    destination: DestinationRef,
    privacy: PrivacyClass,
) -> (res: JournalRecord)
    ensures
        is_output_delivery_record(
            res,
            base,
            record_kind,
            event_kind@,
            idempotency_key,
            dedupe_key,
            content_refs@,
            *delivery_id,
            destination,
            privacy,
        ),
        res.payload == payload,
{
    let subject_ref = EntityRef::new(EntityKind::OutputDelivery, delivery_id.as_str());
    let mut related_refs: Vec<EntityRef> = Vec::new();
    push_content_entities(&mut related_refs, &content_refs);
    proof {
        assert(entity_views(related_refs@) =~= content_entity_views(content_refs@));
    }
    let index_related = related_refs.clone();
    proof {
        assert(index_related@ =~= related_refs@);
    }
    JournalRecord {
        journal_schema_version: JOURNAL_SCHEMA_VERSION,
        journal_seq: base.journal_seq,
        record_id: base.record_id,
        record_kind,
        run_id: base.run_id.clone(),
        session_id: base.session_id.clone(),
        agent_id: base.agent_id.clone(),
        turn_id: base.turn_id.clone(),
        attempt_id: base.attempt_id.clone(),
        subject_ref: subject_ref.clone(),
        related_refs,
        causal_refs: Vec::new(),
        source: base.source.clone(),
        destination: Some(destination.clone()),
        correlation_keys: Vec::new(),
        tags: output_delivery_tags(),
        delivery_semantics: "journal_backed".to_string(),
        event_index: EventIndexProjection {
            run_id: base.run_id,
            session_id: base.session_id,
            agent_id: base.agent_id,
            turn_id: base.turn_id,
            event_family: "output_delivery".to_string(),
            event_kind: event_kind.to_string(),
            source: base.source,
            destination: Some(destination),
            subject_ref,
            related_refs: index_related,
            correlation_keys: Vec::new(),
            tags: output_delivery_tags(),
            privacy_class: privacy,
            delivery_semantics: "journal_backed".to_string(),
        },
        timestamp_millis: base.timestamp_millis,
        runtime_package_fingerprint: base.runtime_package_fingerprint.as_str().to_string(),
        privacy,
        content_refs,
        redaction_policy_id: base.redaction_policy_id,
        idempotency_key,
        dedupe_key,
        checkpoint_ref: None,
        payload,
    }
}

impl OutputDeliveryIntentRecord {
    /// The journaled intent of a delivery request: the request's fields and intent, its sink
    /// as both sink and desired sink.
    pub fn from_request(request: &OutputDeliveryRequest) -> (res: Self)
        ensures
            res.delivery_id == request.delivery_id,
            request.is_effect_intent(res.effect_intent),
            res.destination == request.destination,
            res.sink_ref == request.sink_ref,
            res.desired_sink_ref == request.sink_ref,
            res.delivery_kind == request.delivery_kind,
            res.content_mode == request.content_mode,
            res.content_refs@ == request.content_refs@,
            res.redacted_summary == request.redacted_summary,
            res.privacy == request.privacy,
            res.retention == request.retention,
            res.policy_refs@ == request.policy_refs@,
            res.idempotency_key == request.idempotency_key,
            res.dedupe_key == request.dedupe_key,
            res.runtime_package_fingerprint == request.runtime_package_fingerprint,
    {
        let content_refs = request.content_refs.clone();
        let policy_refs = request.policy_refs.clone();
        proof {
            assert(content_refs@ =~= request.content_refs@);
            assert(policy_refs@ =~= request.policy_refs@);
        }
        OutputDeliveryIntentRecord {
            delivery_id: request.delivery_id.clone(),
            effect_intent: request.effect_intent(),
            destination: request.destination.clone(),
            sink_ref: request.sink_ref.clone(),
            desired_sink_ref: request.sink_ref.clone(),
            delivery_kind: request.delivery_kind.clone(),
            content_mode: request.content_mode,
            content_refs,
            redacted_summary: request.redacted_summary.clone(),
            privacy: request.privacy,
            retention: request.retention,
            policy_refs,
            idempotency_key: request.idempotency_key.clone(),
            dedupe_key: request.dedupe_key.clone(),
            runtime_package_fingerprint: request.runtime_package_fingerprint.clone(),
        }
    }

    /// The journal record of this intent, as `output_dispatch_requested`.
    pub fn to_journal_record(&self, base: OutputDeliveryJournalBase) -> (res: JournalRecord)
        ensures
            is_output_delivery_record(
                res,
                base,
                JournalRecordKind::OutputDispatch,
                "output_dispatch_requested"@,
                self.idempotency_key,
                Some(self.dedupe_key),
                self.effect_intent.content_refs@,
                self.delivery_id,
                self.destination,
                self.privacy,
            ),
            res.payload matches JournalRecordPayload::OutputDelivery(OutputDeliveryRecord::Intent(r)) && r.same_as(self),
    {
        let content_refs = self.effect_intent.content_refs.clone();
        proof {
            assert(content_refs@ =~= self.effect_intent.content_refs@);
        }
        output_delivery_effect_record(
            base,
            JournalRecordKind::OutputDispatch,
            "output_dispatch_requested",
            self.idempotency_key.clone(),
            Some(self.dedupe_key.clone()),
            content_refs,
            JournalRecordPayload::OutputDelivery(OutputDeliveryRecord::Intent(self.clone())),
            &self.delivery_id,
            self.destination.clone(),
            self.privacy,
        )
    }
}

impl OutputDeliveryResultRecord {
    /// Whether this record is the result of `request` with the given outcome fields; the
    /// effect result repeats them with the request's effect id and content refs.
    pub open spec fn is_result_of(
        &self,
        request: OutputDeliveryRequest,
        dispatch_status: OutputDispatchStatus,
        terminal_status: EffectTerminalStatus,
        ack_ref: Option<String>,
        external_operation_id: Option<String>,
        reconciliation_ref: Option<String>,
        error_ref: Option<String>,
        retry_classification: RetryClassification,
        redacted_summary: Seq<char>,
    ) -> bool {
        &&& self.delivery_id == request.delivery_id
        &&& self.effect_result.effect_id == request.effect_id
        &&& self.effect_result.terminal_status == terminal_status
        &&& self.effect_result.external_operation_id == external_operation_id
        &&& self.effect_result.reconciliation_ref == reconciliation_ref
        &&& self.effect_result.error_ref == error_ref
        &&& self.effect_result.content_refs@ == request.content_refs@
        &&& self.effect_result.redacted_summary@ == redacted_summary
        &&& self.destination == request.destination
        &&& self.sink_ref == request.sink_ref
        &&& self.dispatch_status == dispatch_status
        &&& self.ack_ref == ack_ref
        &&& self.external_operation_id == external_operation_id
        &&& self.error_ref == error_ref
        &&& self.content_refs@ == request.content_refs@
        &&& self.redacted_summary@ == redacted_summary
        &&& self.retry_classification == retry_classification
    }

    /// A completed delivery, with the receipt's acknowledgement and operation id; not
    /// retryable.
    pub fn completed(request: &OutputDeliveryRequest, receipt: &OutputDeliveryReceipt) -> (res: Self)
        ensures
            res.is_result_of(
                *request,
                OutputDispatchStatus::Completed,
                EffectTerminalStatus::Completed,
                receipt.ack_ref,
                receipt.external_operation_id,
                None,
                None,
                RetryClassification::NotRetryable,
                receipt.redacted_summary@,
            ),
    {
        Self::from_status(
            request,
            OutputDispatchStatus::Completed,
            EffectTerminalStatus::Completed,
            receipt.ack_ref.clone(),
            receipt.external_operation_id.clone(),
            None,
            None,
            RetryClassification::NotRetryable,
            receipt.redacted_summary.clone(),
        )
    }

    /// A failed delivery with the given status, error ref and retry classification.
    pub fn failed(
        request: &OutputDeliveryRequest,
        status: OutputDispatchStatus,
        error_ref: String,
        retry_classification: RetryClassification,
    ) -> (res: Self)
        ensures
            res.is_result_of(
                *request,
                status,
                EffectTerminalStatus::Failed,
                None,
                None,
                None,
                Some(error_ref),
                retry_classification,
                "output delivery failed before host send or at sink boundary"@,
            ),
    {
        Self::from_status(
            request,
            status,
            EffectTerminalStatus::Failed,
            None,
            None,
            None,
            Some(error_ref),
            retry_classification,
            "output delivery failed before host send or at sink boundary".to_string(),
        )
    }

    /// A delivery whose outcome needs reconciliation, with the receipt's refs; repair needed.
    pub fn reconciliation_needed(request: &OutputDeliveryRequest, receipt: &OutputDeliveryReceipt) -> (res: Self)
        ensures
            res.is_result_of(
                *request,
                OutputDispatchStatus::ReconciliationNeeded,
                EffectTerminalStatus::Unknown,
                receipt.ack_ref,
                receipt.external_operation_id,
                receipt.reconciliation_ref,
                None,
                RetryClassification::RepairNeeded,
                receipt.redacted_summary@,
            ),
    {
        Self::from_status(
            request,
            OutputDispatchStatus::ReconciliationNeeded,
            EffectTerminalStatus::Unknown,
            receipt.ack_ref.clone(),
            receipt.external_operation_id.clone(),
            receipt.reconciliation_ref.clone(),
            None,
            RetryClassification::RepairNeeded,
            receipt.redacted_summary.clone(),
        )
    }

    fn from_status(
        request: &OutputDeliveryRequest,
        dispatch_status: OutputDispatchStatus,
        terminal_status: EffectTerminalStatus,
        ack_ref: Option<String>,
        external_operation_id: Option<String>,
        reconciliation_ref: Option<String>,
        error_ref: Option<String>,
        retry_classification: RetryClassification,
        redacted_summary: String,
    ) -> (res: Self)
        ensures
            res.is_result_of(
                *request,
                dispatch_status,
                terminal_status,
                ack_ref,
                external_operation_id,
                reconciliation_ref,
                error_ref,
                retry_classification,
                redacted_summary@,
            ),
    {
        let result_content_refs = request.content_refs.clone();
        let content_refs = request.content_refs.clone();
        proof {
            assert(result_content_refs@ =~= request.content_refs@);
            assert(content_refs@ =~= request.content_refs@);
        }
        OutputDeliveryResultRecord {
            delivery_id: request.delivery_id.clone(),
            effect_result: EffectResult {
                effect_id: request.effect_id.clone(),
                terminal_status,
                external_operation_id: external_operation_id.clone(),
                reconciliation_ref,
                error_ref: error_ref.clone(),
                content_refs: result_content_refs,
                redacted_summary: redacted_summary.clone(),
            },
            destination: request.destination.clone(),
            sink_ref: request.sink_ref.clone(),
            dispatch_status,
            ack_ref,
            external_operation_id,
            error_ref,
            content_refs,
            redacted_summary,
            retry_classification,
        }
    }

    /// The event kind a result is journaled as.
    pub open spec fn event_kind_spec(&self) -> Seq<char> {
        match self.dispatch_status {
            OutputDispatchStatus::Completed => "output_dispatch_completed"@,
            OutputDispatchStatus::HostConfigurationNeeded
            | OutputDispatchStatus::PolicyDenied
            | OutputDispatchStatus::Failed => "output_dispatch_failed"@,
            OutputDispatchStatus::ReconciliationNeeded => "output_dispatch_reconciliation_needed"@,
            OutputDispatchStatus::Deduped => "output_dispatch_deduped"@,
            OutputDispatchStatus::Requested | OutputDispatchStatus::SkippedOptional => "output_dispatch_status"@,
        }
    }

    /// The journal record of this result, by dispatch status, with no keys.
    pub fn to_journal_record(&self, base: OutputDeliveryJournalBase) -> (res: JournalRecord)
        ensures
            is_output_delivery_record(
                res,
                base,
                JournalRecordKind::OutputDispatch,
                self.event_kind_spec(),
                None,
                None,
                self.effect_result.content_refs@,
                self.delivery_id,
                self.destination,
                PrivacyClass::ContentRefsOnly,
            ),
            res.payload matches JournalRecordPayload::OutputDelivery(OutputDeliveryRecord::Result(r)) && r.same_as(self),
    {
        let event_kind = match self.dispatch_status {
            OutputDispatchStatus::Completed => "output_dispatch_completed",
            OutputDispatchStatus::HostConfigurationNeeded
            | OutputDispatchStatus::PolicyDenied
            | OutputDispatchStatus::Failed => "output_dispatch_failed",
            OutputDispatchStatus::ReconciliationNeeded => "output_dispatch_reconciliation_needed",
            OutputDispatchStatus::Deduped => "output_dispatch_deduped",
            OutputDispatchStatus::Requested | OutputDispatchStatus::SkippedOptional => "output_dispatch_status",
        };
        let content_refs = self.effect_result.content_refs.clone();
        proof {
            assert(content_refs@ =~= self.effect_result.content_refs@);
        }
        output_delivery_effect_record(
            base,
            JournalRecordKind::OutputDispatch,
            event_kind,
            None,
            None,
            content_refs,
            JournalRecordPayload::OutputDelivery(OutputDeliveryRecord::Result(self.clone())),
            &self.delivery_id,
            self.destination.clone(),
            PrivacyClass::ContentRefsOnly,
        )
    }
}

impl OutputDeliveryDedupeRecord {
    /// The journal record of this dedupe proof, as `output_dispatch_deduped`.
    pub fn to_journal_record(&self, base: OutputDeliveryJournalBase, destination: DestinationRef) -> (res: JournalRecord)
        ensures
            is_output_delivery_record(
                res,
                base,
                JournalRecordKind::OutputDispatch,
                "output_dispatch_deduped"@,
                None,
                Some(self.dedupe_key),
                Seq::empty(),
                self.delivery_id,
                destination,
                PrivacyClass::ContentRefsOnly,
            ),
            res.payload matches JournalRecordPayload::OutputDelivery(OutputDeliveryRecord::Dedupe(r)) && r.same_as(self),
    {
        output_delivery_effect_record(
            base,
            JournalRecordKind::OutputDispatch,
            "output_dispatch_deduped",
            None,
            Some(self.dedupe_key.clone()),
            Vec::new(),
            JournalRecordPayload::OutputDelivery(OutputDeliveryRecord::Dedupe(self.clone())),
            &self.delivery_id,
            destination,
            PrivacyClass::ContentRefsOnly,
        )
    }
}

impl OutputDeliveryReconciliationRecord {
    /// The journal record of this reconciliation, as `output_dispatch_reconciliation_needed`.
    pub fn to_journal_record(&self, base: OutputDeliveryJournalBase, destination: DestinationRef) -> (res: JournalRecord)
        ensures
            is_output_delivery_record(
                res,
                base,
                JournalRecordKind::OutputDispatch,
                "output_dispatch_reconciliation_needed"@,
                self.idempotency_key,
                Some(self.dedupe_key),
                Seq::empty(),
                self.delivery_id,
                destination,
                PrivacyClass::ContentRefsOnly,
            ),
            res.payload == JournalRecordPayload::OutputDelivery(OutputDeliveryRecord::Reconciliation(*self)),
    {
        output_delivery_effect_record(
            base,
            JournalRecordKind::OutputDispatch,
            "output_dispatch_reconciliation_needed",
            self.idempotency_key.clone(),
            Some(self.dedupe_key.clone()),
            Vec::new(),
            JournalRecordPayload::OutputDelivery(OutputDeliveryRecord::Reconciliation(self.clone())),
            &self.delivery_id,
            destination,
            PrivacyClass::ContentRefsOnly,
        )
    }
}

/// The dedupe text of a policy ref: its id, `:`, and its version or `unversioned`.
pub open spec fn policy_dedupe_text(policy_ref: PolicyRef) -> Seq<char> {
    policy_ref.id@ + ":"@ + match policy_ref.version {
        Some(v) => v@,
        None => "unversioned"@,
    }
}

/// The text that a delivery's dedupe key hashes: run, destination kind and id, sink, kind,
/// source message, validated output, content refs, policy refs and package fingerprint.
pub open spec fn dedupe_preimage(request: OutputDeliveryRequest) -> Seq<char> {
    "run="@ + request.run_id@ + "|destination_kind="@ + request.destination.kind.debug_name_spec() + "|destination="@
        + request.destination.id@ + "|sink="@ + request.sink_ref@ + "|kind="@ + request.delivery_kind.dedupe_fragment_spec()
        + "|message="@ + match request.source_message_id {
        Some(id) => id@,
        None => "none"@,
    } + "|validated="@ + match request.validated_output_id {
        Some(id) => id@,
        None => "none"@,
    } + "|content="@ + join_commas(request.content_refs@.map_values(|c: ContentRefId| c@)) + "|policies="@
        + join_commas(request.policy_refs@.map_values(|p: PolicyRef| policy_dedupe_text(p))) + "|package="@
        + request.runtime_package_fingerprint@
}

fn policy_dedupe_texts(policy_refs: &Vec<PolicyRef>) -> (res: Vec<String>)
    ensures
        string_views(res@) == policy_refs@.map_values(|p: PolicyRef| policy_dedupe_text(p)),
{
    let mut out: Vec<String> = Vec::new();
    let mut i: usize = 0;
    while i < policy_refs.len()
        invariant
            0 <= i <= policy_refs@.len(),
            string_views(out@) == policy_refs@.take(i as int).map_values(|p: PolicyRef| policy_dedupe_text(p)),
        decreases policy_refs@.len() - i,
    {
        let p = &policy_refs[i];
        let version = match &p.version {
            Some(v) => v.as_str(),
            None => "unversioned",
        };
        let text = concat3(p.as_str(), ":", version);
        let ghost prev = out@;
        out.push(text);
        proof {
            assert(string_views(out@) =~= string_views(prev).push(text@));
            assert(policy_refs@.take(i + 1).map_values(|p: PolicyRef| policy_dedupe_text(p)) =~= policy_refs@.take(
                i as int,
            ).map_values(|p: PolicyRef| policy_dedupe_text(p)).push(policy_dedupe_text(policy_refs@[i as int])));
        }
        i = i + 1;
    }
    proof {
        assert(policy_refs@.take(policy_refs@.len() as int) =~= policy_refs@);
    }
    out
}

fn content_ref_texts(content_refs: &Vec<ContentRefId>) -> (res: Vec<String>)
    ensures
        string_views(res@) == content_refs@.map_values(|c: ContentRefId| c@),
{
    let mut out: Vec<String> = Vec::new();
    let mut i: usize = 0;
    while i < content_refs.len()
        invariant
            0 <= i <= content_refs@.len(),
            string_views(out@) == content_refs@.take(i as int).map_values(|c: ContentRefId| c@),
        decreases content_refs@.len() - i,
    {
        let text = content_refs[i].as_str().to_string();
        let ghost prev = out@;
        out.push(text);
        proof {
            assert(string_views(out@) =~= string_views(prev).push(text@));
            assert(content_refs@.take(i + 1).map_values(|c: ContentRefId| c@) =~= content_refs@.take(i as int).map_values(
                |c: ContentRefId| c@,
            ).push(content_refs@[i as int]@));
        }
        i = i + 1;
    }
    proof {
        assert(content_refs@.take(content_refs@.len() as int) =~= content_refs@);
    }
    out
}

/// The dedupe key of a delivery: `dedupe.output_delivery.` and the hex sha256 digest of its
/// dedupe preimage.
pub fn build_output_delivery_dedupe_key(request: &OutputDeliveryRequest) -> (res: DedupeKey)
    ensures
        res@ == "dedupe.output_delivery."@ + hex_lower(
            sha256_digest_spec(vstd::utf8::encode_utf8(dedupe_preimage(*request))),
        ),
        sha256_digest_spec(vstd::utf8::encode_utf8(dedupe_preimage(*request))).len() == 32,
        res@.len() == "dedupe.output_delivery."@.len() + 64,
        forall|i: int|
            "dedupe.output_delivery."@.len() <= i < res@.len() ==> is_lower_hex_char(#[trigger] res@[i]),
{
    let content = join_with_commas(&content_ref_texts(&request.content_refs));
    let policies = join_with_commas(&policy_dedupe_texts(&request.policy_refs));
    let message = match &request.source_message_id {
        Some(id) => id.as_str(),
        None => "none",
    };
    let validated = match &request.validated_output_id {
        Some(id) => id.as_str(),
        None => "none",
    };
    let kind = request.delivery_kind.dedupe_fragment();
    let mut preimage = String::from_str("run=");
    preimage.append(request.run_id.as_str());
    preimage.append("|destination_kind=");
    preimage.append(request.destination.kind.debug_name());
    preimage.append("|destination=");
    preimage.append(request.destination.as_str());
    preimage.append("|sink=");
    preimage.append(request.sink_ref.as_str());
    preimage.append("|kind=");
    preimage.append(kind.as_str());
    preimage.append("|message=");
    preimage.append(message);
    preimage.append("|validated=");
    preimage.append(validated);
    preimage.append("|content=");
    preimage.append(content.as_str());
    preimage.append("|policies=");
    preimage.append(policies.as_str());
    preimage.append("|package=");
    preimage.append(request.runtime_package_fingerprint.as_str());
    proof {
        assert(preimage@ =~= dedupe_preimage(*request));
    }
    let digest = sha256_hex(preimage.as_str().as_bytes());
    proof {
        lemma_hex_lower_chars(sha256_digest_spec(vstd::utf8::encode_utf8(dedupe_preimage(*request))));
    }
    DedupeKey::new(concat2("dedupe.output_delivery.", digest.as_str()))
}

/// Two deliveries with the same run, destination, sink, delivery kind, source message,
/// validated output, content refs, policy refs and package fingerprint have the same dedupe
/// preimage, and so the same dedupe key, whatever their ids, effects, summaries, content
/// modes or raw content.
pub proof fn lemma_dedupe_preimage_identity(a: OutputDeliveryRequest, b: OutputDeliveryRequest)
    requires
        a.run_id@ == b.run_id@,
        a.destination.kind == b.destination.kind,
        a.destination.id@ == b.destination.id@,
        a.sink_ref@ == b.sink_ref@,
        a.delivery_kind == b.delivery_kind,
        a.source_message_id == b.source_message_id,
        a.validated_output_id == b.validated_output_id,
        a.content_refs@ == b.content_refs@,
        a.policy_refs@ == b.policy_refs@,
        a.runtime_package_fingerprint@ == b.runtime_package_fingerprint@,
    ensures
        dedupe_preimage(a) == dedupe_preimage(b),
{
}

proof fn lemma_prefix_cancel(p: Seq<char>, x: Seq<char>, y: Seq<char>)
    requires
        p + x == p + y,
    ensures
        x == y,
{
    assert(x =~= (p + x).subrange(p.len() as int, (p + x).len() as int));
    assert(y =~= (p + y).subrange(p.len() as int, (p + y).len() as int));
}

proof fn lemma_suffix_cancel(u: Seq<char>, v: Seq<char>, t: Seq<char>)
    requires
        u + t == v + t,
    ensures
        u == v,
{
    assert((u + t).len() == u.len() + t.len());
    assert((v + t).len() == v.len() + t.len());
    assert(u =~= (u + t).subrange(0, u.len() as int));
    assert(v =~= (v + t).subrange(0, v.len() as int));
}

/// Deliveries that differ only in their run get different dedupe preimages.
pub proof fn lemma_dedupe_preimage_separates_runs(a: OutputDeliveryRequest, b: OutputDeliveryRequest)
    requires
        b == (OutputDeliveryRequest { run_id: b.run_id, ..a }),
        a.run_id@ != b.run_id@,
    ensures
        dedupe_preimage(a) != dedupe_preimage(b),
{
    let a0 = "run="@;
    let a1 = a0 + a.run_id@;
    let a2 = a1 + "|destination_kind="@;
    let a3 = a2 + a.destination.kind.debug_name_spec();
    let a4 = a3 + "|destination="@;
    let a5 = a4 + a.destination.id@;
    let a6 = a5 + "|sink="@;
    let a7 = a6 + a.sink_ref@;
    let a8 = a7 + "|kind="@;
    let a9 = a8 + a.delivery_kind.dedupe_fragment_spec();
    let a10 = a9 + "|message="@;
    let a11 = a10 + match a.source_message_id { Some(id) => id@, None => "none"@ };
    let a12 = a11 + "|validated="@;
    let a13 = a12 + match a.validated_output_id { Some(id) => id@, None => "none"@ };
    let a14 = a13 + "|content="@;
    let a15 = a14 + join_commas(a.content_refs@.map_values(|c: ContentRefId| c@));
    let a16 = a15 + "|policies="@;
    let a17 = a16 + join_commas(a.policy_refs@.map_values(|p: PolicyRef| policy_dedupe_text(p)));
    let a18 = a17 + "|package="@;
    let a19 = a18 + a.runtime_package_fingerprint@;
    let b0 = "run="@;
    let b1 = b0 + b.run_id@;
    let b2 = b1 + "|destination_kind="@;
    let b3 = b2 + b.destination.kind.debug_name_spec();
    let b4 = b3 + "|destination="@;
    let b5 = b4 + b.destination.id@;
    let b6 = b5 + "|sink="@;
    let b7 = b6 + b.sink_ref@;
    let b8 = b7 + "|kind="@;
    let b9 = b8 + b.delivery_kind.dedupe_fragment_spec();
    let b10 = b9 + "|message="@;
    let b11 = b10 + match b.source_message_id { Some(id) => id@, None => "none"@ };
    let b12 = b11 + "|validated="@;
    let b13 = b12 + match b.validated_output_id { Some(id) => id@, None => "none"@ };
    let b14 = b13 + "|content="@;
    let b15 = b14 + join_commas(b.content_refs@.map_values(|c: ContentRefId| c@));
    let b16 = b15 + "|policies="@;
    let b17 = b16 + join_commas(b.policy_refs@.map_values(|p: PolicyRef| policy_dedupe_text(p)));
    let b18 = b17 + "|package="@;
    let b19 = b18 + b.runtime_package_fingerprint@;
    assert(dedupe_preimage(a) == a19);
    assert(dedupe_preimage(b) == b19);
    if a19 == b19 {
        lemma_suffix_cancel(a18, b18, a.runtime_package_fingerprint@);
        lemma_suffix_cancel(a17, b17, "|package="@);
        lemma_suffix_cancel(a16, b16, join_commas(a.policy_refs@.map_values(|p: PolicyRef| policy_dedupe_text(p))));
        lemma_suffix_cancel(a15, b15, "|policies="@);
        lemma_suffix_cancel(a14, b14, join_commas(a.content_refs@.map_values(|c: ContentRefId| c@)));
        lemma_suffix_cancel(a13, b13, "|content="@);
        lemma_suffix_cancel(a12, b12, match a.validated_output_id { Some(id) => id@, None => "none"@ });
        lemma_suffix_cancel(a11, b11, "|validated="@);
        lemma_suffix_cancel(a10, b10, match a.source_message_id { Some(id) => id@, None => "none"@ });
        lemma_suffix_cancel(a9, b9, "|message="@);
        lemma_suffix_cancel(a8, b8, a.delivery_kind.dedupe_fragment_spec());
        lemma_suffix_cancel(a7, b7, "|kind="@);
        lemma_suffix_cancel(a6, b6, a.sink_ref@);
        lemma_suffix_cancel(a5, b5, "|sink="@);
        lemma_suffix_cancel(a4, b4, a.destination.id@);
        lemma_suffix_cancel(a3, b3, "|destination="@);
        lemma_suffix_cancel(a2, b2, a.destination.kind.debug_name_spec());
        lemma_suffix_cancel(a1, b1, "|destination_kind="@);
        lemma_prefix_cancel(a0, a.run_id@, b.run_id@);
    }
}

/// Deliveries that differ only in their destination's id get different dedupe preimages.
pub proof fn lemma_dedupe_preimage_separates_destinations(a: OutputDeliveryRequest, b: OutputDeliveryRequest)
    requires
        b == (OutputDeliveryRequest { destination: DestinationRef { id: b.destination.id, ..a.destination }, ..a }),
        a.destination.id@ != b.destination.id@,
    ensures
        dedupe_preimage(a) != dedupe_preimage(b),
{
    let a0 = "run="@;
    let a1 = a0 + a.run_id@;
    let a2 = a1 + "|destination_kind="@;
    let a3 = a2 + a.destination.kind.debug_name_spec();
    let a4 = a3 + "|destination="@;
    let a5 = a4 + a.destination.id@;
    let a6 = a5 + "|sink="@;
    let a7 = a6 + a.sink_ref@;
    let a8 = a7 + "|kind="@;
    let a9 = a8 + a.delivery_kind.dedupe_fragment_spec();
    let a10 = a9 + "|message="@;
    let a11 = a10 + match a.source_message_id { Some(id) => id@, None => "none"@ };
    let a12 = a11 + "|validated="@;
    let a13 = a12 + match a.validated_output_id { Some(id) => id@, None => "none"@ };
    let a14 = a13 + "|content="@;
    let a15 = a14 + join_commas(a.content_refs@.map_values(|c: ContentRefId| c@));
    let a16 = a15 + "|policies="@;
    let a17 = a16 + join_commas(a.policy_refs@.map_values(|p: PolicyRef| policy_dedupe_text(p)));
    let a18 = a17 + "|package="@;
    let a19 = a18 + a.runtime_package_fingerprint@;
    let b0 = "run="@;
    let b1 = b0 + b.run_id@;
    let b2 = b1 + "|destination_kind="@;
    let b3 = b2 + b.destination.kind.debug_name_spec();
    let b4 = b3 + "|destination="@;
    let b5 = b4 + b.destination.id@;
    let b6 = b5 + "|sink="@;
    let b7 = b6 + b.sink_ref@;
    let b8 = b7 + "|kind="@;
    let b9 = b8 + b.delivery_kind.dedupe_fragment_spec();
    let b10 = b9 + "|message="@;
    let b11 = b10 + match b.source_message_id { Some(id) => id@, None => "none"@ };
    let b12 = b11 + "|validated="@;
    let b13 = b12 + match b.validated_output_id { Some(id) => id@, None => "none"@ };
    let b14 = b13 + "|content="@;
    let b15 = b14 + join_commas(b.content_refs@.map_values(|c: ContentRefId| c@));
    let b16 = b15 + "|policies="@;
    let b17 = b16 + join_commas(b.policy_refs@.map_values(|p: PolicyRef| policy_dedupe_text(p)));
    let b18 = b17 + "|package="@;
    let b19 = b18 + b.runtime_package_fingerprint@;
    assert(dedupe_preimage(a) == a19);
    assert(dedupe_preimage(b) == b19);
    if a19 == b19 {
        lemma_suffix_cancel(a18, b18, a.runtime_package_fingerprint@);
        lemma_suffix_cancel(a17, b17, "|package="@);
        lemma_suffix_cancel(a16, b16, join_commas(a.policy_refs@.map_values(|p: PolicyRef| policy_dedupe_text(p))));
        lemma_suffix_cancel(a15, b15, "|policies="@);
        lemma_suffix_cancel(a14, b14, join_commas(a.content_refs@.map_values(|c: ContentRefId| c@)));
        lemma_suffix_cancel(a13, b13, "|content="@);
        lemma_suffix_cancel(a12, b12, match a.validated_output_id { Some(id) => id@, None => "none"@ });
        lemma_suffix_cancel(a11, b11, "|validated="@);
        lemma_suffix_cancel(a10, b10, match a.source_message_id { Some(id) => id@, None => "none"@ });
        lemma_suffix_cancel(a9, b9, "|message="@);
        lemma_suffix_cancel(a8, b8, a.delivery_kind.dedupe_fragment_spec());
        lemma_suffix_cancel(a7, b7, "|kind="@);
        lemma_suffix_cancel(a6, b6, a.sink_ref@);
        lemma_suffix_cancel(a5, b5, "|sink="@);
        lemma_prefix_cancel(a4, a.destination.id@, b.destination.id@);
    }
}

/// Deliveries that differ only in their sink get different dedupe preimages.
pub proof fn lemma_dedupe_preimage_separates_sinks(a: OutputDeliveryRequest, b: OutputDeliveryRequest)
    requires
        b == (OutputDeliveryRequest { sink_ref: b.sink_ref, ..a }),
        a.sink_ref@ != b.sink_ref@,
    ensures
        dedupe_preimage(a) != dedupe_preimage(b),
{
    let a0 = "run="@;
    let a1 = a0 + a.run_id@;
    let a2 = a1 + "|destination_kind="@;
    let a3 = a2 + a.destination.kind.debug_name_spec();
    let a4 = a3 + "|destination="@;
    let a5 = a4 + a.destination.id@;
    let a6 = a5 + "|sink="@;
    let a7 = a6 + a.sink_ref@;
    let a8 = a7 + "|kind="@;
    let a9 = a8 + a.delivery_kind.dedupe_fragment_spec();
    let a10 = a9 + "|message="@;
    let a11 = a10 + match a.source_message_id { Some(id) => id@, None => "none"@ };
    let a12 = a11 + "|validated="@;
    let a13 = a12 + match a.validated_output_id { Some(id) => id@, None => "none"@ };
    let a14 = a13 + "|content="@;
    let a15 = a14 + join_commas(a.content_refs@.map_values(|c: ContentRefId| c@));
    let a16 = a15 + "|policies="@;
    let a17 = a16 + join_commas(a.policy_refs@.map_values(|p: PolicyRef| policy_dedupe_text(p)));
    let a18 = a17 + "|package="@;
    let a19 = a18 + a.runtime_package_fingerprint@;
    let b0 = "run="@;
    let b1 = b0 + b.run_id@;
    let b2 = b1 + "|destination_kind="@;
    let b3 = b2 + b.destination.kind.debug_name_spec();
    let b4 = b3 + "|destination="@;
    let b5 = b4 + b.destination.id@;
    let b6 = b5 + "|sink="@;
    let b7 = b6 + b.sink_ref@;
    let b8 = b7 + "|kind="@;
    let b9 = b8 + b.delivery_kind.dedupe_fragment_spec();
    let b10 = b9 + "|message="@;
    let b11 = b10 + match b.source_message_id { Some(id) => id@, None => "none"@ };
    let b12 = b11 + "|validated="@;
    let b13 = b12 + match b.validated_output_id { Some(id) => id@, None => "none"@ };
    let b14 = b13 + "|content="@;
    let b15 = b14 + join_commas(b.content_refs@.map_values(|c: ContentRefId| c@));
    let b16 = b15 + "|policies="@;
    let b17 = b16 + join_commas(b.policy_refs@.map_values(|p: PolicyRef| policy_dedupe_text(p)));
    let b18 = b17 + "|package="@;
    let b19 = b18 + b.runtime_package_fingerprint@;
    assert(dedupe_preimage(a) == a19);
    assert(dedupe_preimage(b) == b19);
    if a19 == b19 {
        lemma_suffix_cancel(a18, b18, a.runtime_package_fingerprint@);
        lemma_suffix_cancel(a17, b17, "|package="@);
        lemma_suffix_cancel(a16, b16, join_commas(a.policy_refs@.map_values(|p: PolicyRef| policy_dedupe_text(p))));
        lemma_suffix_cancel(a15, b15, "|policies="@);
        lemma_suffix_cancel(a14, b14, join_commas(a.content_refs@.map_values(|c: ContentRefId| c@)));
        lemma_suffix_cancel(a13, b13, "|content="@);
        lemma_suffix_cancel(a12, b12, match a.validated_output_id { Some(id) => id@, None => "none"@ });
        lemma_suffix_cancel(a11, b11, "|validated="@);
        lemma_suffix_cancel(a10, b10, match a.source_message_id { Some(id) => id@, None => "none"@ });
        lemma_suffix_cancel(a9, b9, "|message="@);
        lemma_suffix_cancel(a8, b8, a.delivery_kind.dedupe_fragment_spec());
        lemma_suffix_cancel(a7, b7, "|kind="@);
        lemma_prefix_cancel(a6, a.sink_ref@, b.sink_ref@);
    }
}

/// Deliveries that differ only in their source message get different dedupe preimages,
/// unless the two read the same: an absent message reads `none`.
pub proof fn lemma_dedupe_preimage_separates_messages(a: OutputDeliveryRequest, b: OutputDeliveryRequest)
    requires
        b == (OutputDeliveryRequest { source_message_id: b.source_message_id, ..a }),
        (match a.source_message_id { Some(id) => id@, None => "none"@ }) != (match b.source_message_id { Some(id) => id@, None => "none"@ }),
    ensures
        dedupe_preimage(a) != dedupe_preimage(b),
{
    let a0 = "run="@;
    let a1 = a0 + a.run_id@;
    let a2 = a1 + "|destination_kind="@;
    let a3 = a2 + a.destination.kind.debug_name_spec();
    let a4 = a3 + "|destination="@;
    let a5 = a4 + a.destination.id@;
    let a6 = a5 + "|sink="@;
    let a7 = a6 + a.sink_ref@;
    let a8 = a7 + "|kind="@;
    let a9 = a8 + a.delivery_kind.dedupe_fragment_spec();
    let a10 = a9 + "|message="@;
    let a11 = a10 + match a.source_message_id { Some(id) => id@, None => "none"@ };
    let a12 = a11 + "|validated="@;
    let a13 = a12 + match a.validated_output_id { Some(id) => id@, None => "none"@ };
    let a14 = a13 + "|content="@;
    let a15 = a14 + join_commas(a.content_refs@.map_values(|c: ContentRefId| c@));
    let a16 = a15 + "|policies="@;
    let a17 = a16 + join_commas(a.policy_refs@.map_values(|p: PolicyRef| policy_dedupe_text(p)));
    let a18 = a17 + "|package="@;
    let a19 = a18 + a.runtime_package_fingerprint@;
    let b0 = "run="@;
    let b1 = b0 + b.run_id@;
    let b2 = b1 + "|destination_kind="@;
    let b3 = b2 + b.destination.kind.debug_name_spec();
    let b4 = b3 + "|destination="@;
    let b5 = b4 + b.destination.id@;
    let b6 = b5 + "|sink="@;
    let b7 = b6 + b.sink_ref@;
    let b8 = b7 + "|kind="@;
    let b9 = b8 + b.delivery_kind.dedupe_fragment_spec();
    let b10 = b9 + "|message="@;
    let b11 = b10 + match b.source_message_id { Some(id) => id@, None => "none"@ };
    let b12 = b11 + "|validated="@;
    let b13 = b12 + match b.validated_output_id { Some(id) => id@, None => "none"@ };
    let b14 = b13 + "|content="@;
    let b15 = b14 + join_commas(b.content_refs@.map_values(|c: ContentRefId| c@));
    let b16 = b15 + "|policies="@;
    let b17 = b16 + join_commas(b.policy_refs@.map_values(|p: PolicyRef| policy_dedupe_text(p)));
    let b18 = b17 + "|package="@;
    let b19 = b18 + b.runtime_package_fingerprint@;
    assert(dedupe_preimage(a) == a19);
    assert(dedupe_preimage(b) == b19);
    if a19 == b19 {
        lemma_suffix_cancel(a18, b18, a.runtime_package_fingerprint@);
        lemma_suffix_cancel(a17, b17, "|package="@);
        lemma_suffix_cancel(a16, b16, join_commas(a.policy_refs@.map_values(|p: PolicyRef| policy_dedupe_text(p))));
        lemma_suffix_cancel(a15, b15, "|policies="@);
        lemma_suffix_cancel(a14, b14, join_commas(a.content_refs@.map_values(|c: ContentRefId| c@)));
        lemma_suffix_cancel(a13, b13, "|content="@);
        lemma_suffix_cancel(a12, b12, match a.validated_output_id { Some(id) => id@, None => "none"@ });
        lemma_suffix_cancel(a11, b11, "|validated="@);
        lemma_prefix_cancel(a10, match a.source_message_id { Some(id) => id@, None => "none"@ }, match b.source_message_id { Some(id) => id@, None => "none"@ });
    }
}

/// Deliveries that differ only in their validated output get different dedupe preimages,
/// unless the two read the same: an absent validated output reads `none`.
pub proof fn lemma_dedupe_preimage_separates_validated_outputs(a: OutputDeliveryRequest, b: OutputDeliveryRequest)
    requires
        b == (OutputDeliveryRequest { validated_output_id: b.validated_output_id, ..a }),
        (match a.validated_output_id { Some(id) => id@, None => "none"@ }) != (match b.validated_output_id { Some(id) => id@, None => "none"@ }),
    ensures
        dedupe_preimage(a) != dedupe_preimage(b),
{
    let a0 = "run="@;
    let a1 = a0 + a.run_id@;
    let a2 = a1 + "|destination_kind="@;
    let a3 = a2 + a.destination.kind.debug_name_spec();
    let a4 = a3 + "|destination="@;
    let a5 = a4 + a.destination.id@;
    let a6 = a5 + "|sink="@;
    let a7 = a6 + a.sink_ref@;
    let a8 = a7 + "|kind="@;
    let a9 = a8 + a.delivery_kind.dedupe_fragment_spec();
    let a10 = a9 + "|message="@;
    let a11 = a10 + match a.source_message_id { Some(id) => id@, None => "none"@ };
    let a12 = a11 + "|validated="@;
    let a13 = a12 + match a.validated_output_id { Some(id) => id@, None => "none"@ };
    let a14 = a13 + "|content="@;
    let a15 = a14 + join_commas(a.content_refs@.map_values(|c: ContentRefId| c@));
    let a16 = a15 + "|policies="@;
    let a17 = a16 + join_commas(a.policy_refs@.map_values(|p: PolicyRef| policy_dedupe_text(p)));
    let a18 = a17 + "|package="@;
    let a19 = a18 + a.runtime_package_fingerprint@;
    let b0 = "run="@;
    let b1 = b0 + b.run_id@;
    let b2 = b1 + "|destination_kind="@;
    let b3 = b2 + b.destination.kind.debug_name_spec();
    let b4 = b3 + "|destination="@;
    let b5 = b4 + b.destination.id@;
    let b6 = b5 + "|sink="@;
    let b7 = b6 + b.sink_ref@;
    let b8 = b7 + "|kind="@;
    let b9 = b8 + b.delivery_kind.dedupe_fragment_spec();
    let b10 = b9 + "|message="@;
    let b11 = b10 + match b.source_message_id { Some(id) => id@, None => "none"@ };
    let b12 = b11 + "|validated="@;
    let b13 = b12 + match b.validated_output_id { Some(id) => id@, None => "none"@ };
    let b14 = b13 + "|content="@;
    let b15 = b14 + join_commas(b.content_refs@.map_values(|c: ContentRefId| c@));
    let b16 = b15 + "|policies="@;
    let b17 = b16 + join_commas(b.policy_refs@.map_values(|p: PolicyRef| policy_dedupe_text(p)));
    let b18 = b17 + "|package="@;
    let b19 = b18 + b.runtime_package_fingerprint@;
    assert(dedupe_preimage(a) == a19);
    assert(dedupe_preimage(b) == b19);
    if a19 == b19 {
        lemma_suffix_cancel(a18, b18, a.runtime_package_fingerprint@);
        lemma_suffix_cancel(a17, b17, "|package="@);
        lemma_suffix_cancel(a16, b16, join_commas(a.policy_refs@.map_values(|p: PolicyRef| policy_dedupe_text(p))));
        lemma_suffix_cancel(a15, b15, "|policies="@);
        lemma_suffix_cancel(a14, b14, join_commas(a.content_refs@.map_values(|c: ContentRefId| c@)));
        lemma_suffix_cancel(a13, b13, "|content="@);
        lemma_prefix_cancel(a12, match a.validated_output_id { Some(id) => id@, None => "none"@ }, match b.validated_output_id { Some(id) => id@, None => "none"@ });
    }
}

/// Deliveries that differ only in their package fingerprint get different dedupe preimages.
pub proof fn lemma_dedupe_preimage_separates_packages(a: OutputDeliveryRequest, b: OutputDeliveryRequest)
    requires
        b == (OutputDeliveryRequest { runtime_package_fingerprint: b.runtime_package_fingerprint, ..a }),
        a.runtime_package_fingerprint@ != b.runtime_package_fingerprint@,
    ensures
        dedupe_preimage(a) != dedupe_preimage(b),
{
    let a0 = "run="@;
    let a1 = a0 + a.run_id@;
    let a2 = a1 + "|destination_kind="@;
    let a3 = a2 + a.destination.kind.debug_name_spec();
    let a4 = a3 + "|destination="@;
    let a5 = a4 + a.destination.id@;
    let a6 = a5 + "|sink="@;
    let a7 = a6 + a.sink_ref@;
    let a8 = a7 + "|kind="@;
    let a9 = a8 + a.delivery_kind.dedupe_fragment_spec();
    let a10 = a9 + "|message="@;
    let a11 = a10 + match a.source_message_id { Some(id) => id@, None => "none"@ };
    let a12 = a11 + "|validated="@;
    let a13 = a12 + match a.validated_output_id { Some(id) => id@, None => "none"@ };
    let a14 = a13 + "|content="@;
    let a15 = a14 + join_commas(a.content_refs@.map_values(|c: ContentRefId| c@));
    let a16 = a15 + "|policies="@;
    let a17 = a16 + join_commas(a.policy_refs@.map_values(|p: PolicyRef| policy_dedupe_text(p)));
    let a18 = a17 + "|package="@;
    let a19 = a18 + a.runtime_package_fingerprint@;
    let b0 = "run="@;
    let b1 = b0 + b.run_id@;
    let b2 = b1 + "|destination_kind="@;
    let b3 = b2 + b.destination.kind.debug_name_spec();
    let b4 = b3 + "|destination="@;
    let b5 = b4 + b.destination.id@;
    let b6 = b5 + "|sink="@;
    let b7 = b6 + b.sink_ref@;
    let b8 = b7 + "|kind="@;
    let b9 = b8 + b.delivery_kind.dedupe_fragment_spec();
    let b10 = b9 + "|message="@;
    let b11 = b10 + match b.source_message_id { Some(id) => id@, None => "none"@ };
    let b12 = b11 + "|validated="@;
    let b13 = b12 + match b.validated_output_id { Some(id) => id@, None => "none"@ };
    let b14 = b13 + "|content="@;
    let b15 = b14 + join_commas(b.content_refs@.map_values(|c: ContentRefId| c@));
    let b16 = b15 + "|policies="@;
    let b17 = b16 + join_commas(b.policy_refs@.map_values(|p: PolicyRef| policy_dedupe_text(p)));
    let b18 = b17 + "|package="@;
    let b19 = b18 + b.runtime_package_fingerprint@;
    assert(dedupe_preimage(a) == a19);
    assert(dedupe_preimage(b) == b19);
    if a19 == b19 {
        lemma_prefix_cancel(a18, a.runtime_package_fingerprint@, b.runtime_package_fingerprint@);
    }
}

} // verus!
