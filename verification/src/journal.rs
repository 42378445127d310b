use vstd::prelude::*;
use crate::approval::{ApprovalRecord};
use crate::domain::{AgentError, AgentId, AgentPoolId, AttemptId, ContentRefId, ContextProjectionId, CorrelationEntry, DedupeKey, DestinationRef, EffectId, EntityKind, EntityRef, EventId, IdempotencyKey, MessageId, PolicyRef, PrivacyClass, RunId, SessionId, SourceRef, TopicId, TurnId, WakeConditionId};
use crate::effect::{EffectIntent, EffectResult};
use crate::event::{EventCorrelation, EventFilterFingerprint};
use crate::extension::{ExtensionActionRecord};
use crate::hooks::{HookRecord};
use crate::isolation::{IsolationRecord};
use crate::output_delivery::{OutputDeliveryRecord};
use crate::package::{ProviderStopReason, ProviderUsage};
use crate::realtime::{RealtimeSessionRecord};
use crate::stream::{StreamRuleRecord};
use crate::structured_output::{RepairExhaustionRecord, RepairRecord, StructuredOutputLifecycleRecord, ValidationRecord};
use crate::subagent::{ChildLifecycleRecord, SubagentRecord};
use crate::tool::{ToolCallRecord};
use crate::validated_output::{TypedResultPublicationRecord, ValidatedOutput, ValidationReportRecord};

verus! {

/// Kind of journal record.
#[derive(Clone, Copy, Debug, PartialEq, Eq, Structural)]
pub enum JournalRecordKind {
    Run,
    Turn,
    Context,
    Message,
    ModelAttempt,
    StructuredOutput,
    StreamRule,
    RealtimeSession,
    Hook,
    Approval,
    Tool,
    Isolation,
    ChildLifecycle,
    AgentPool,
    RunMessage,
    Wake,
    OutputDispatch,
    Subagent,
    ExtensionAction,
    Telemetry,
    Recovery,
    Checkpoint,
    EffectIntent,
    EffectResult,
}

impl crate::domain::ValueEq for JournalRecordKind {
    open spec fn value_eq(&self, other: &Self) -> bool {
        *self == *other
    }

    fn equals(&self, other: &Self) -> (r: bool) {
        *self == *other
    }
}

/// Index fields by which a journal record is found as an event.
#[derive(Debug)]
pub struct EventIndexProjection {
    pub run_id: RunId,
    pub session_id: Option<SessionId>,
    pub agent_id: AgentId,
    pub turn_id: Option<TurnId>,
    pub event_family: String,
    pub event_kind: String,
    pub source: SourceRef,
    pub destination: Option<DestinationRef>,
    pub subject_ref: EntityRef,
    pub related_refs: Vec<EntityRef>,
    pub correlation_keys: Vec<CorrelationEntry>,
    pub tags: Vec<String>,
    pub privacy_class: PrivacyClass,
    pub delivery_semantics: String,
}

impl EventIndexProjection {
    /// Field-wise equality, with vectors compared by their contents.
    pub open spec fn same_as(&self, other: &Self) -> bool {
        &&& self.run_id == other.run_id
        &&& self.session_id == other.session_id
        &&& self.agent_id == other.agent_id
        &&& self.turn_id == other.turn_id
        &&& self.event_family == other.event_family
        &&& self.event_kind == other.event_kind
        &&& self.source == other.source
        &&& self.destination == other.destination
        &&& self.subject_ref == other.subject_ref
        &&& self.related_refs@ == other.related_refs@
        &&& self.correlation_keys@ == other.correlation_keys@
        &&& self.tags@ == other.tags@
        &&& self.privacy_class == other.privacy_class
        &&& self.delivery_semantics == other.delivery_semantics
    }
}

impl Clone for EventIndexProjection {
    fn clone(&self) -> (res: Self)
        ensures
            res.same_as(self),
    {
        let related_refs_copy = self.related_refs.clone();
        proof { assert(related_refs_copy@ =~= self.related_refs@); }
        let correlation_keys_copy = self.correlation_keys.clone();
        proof { assert(correlation_keys_copy@ =~= self.correlation_keys@); }
        let tags_copy = self.tags.clone();
        proof { assert(tags_copy@ =~= self.tags@); }
        EventIndexProjection {
            run_id: self.run_id.clone(),
            session_id: self.session_id.clone(),
            agent_id: self.agent_id.clone(),
            turn_id: self.turn_id.clone(),
            event_family: self.event_family.clone(),
            event_kind: self.event_kind.clone(),
            source: self.source.clone(),
            destination: self.destination.clone(),
            subject_ref: self.subject_ref.clone(),
            related_refs: related_refs_copy,
            correlation_keys: correlation_keys_copy,
            tags: tags_copy,
            privacy_class: self.privacy_class,
            delivery_semantics: self.delivery_semantics.clone(),
        }
    }
}

/// One durable journal record.
#[derive(Debug)]
pub struct JournalRecord {
    pub journal_schema_version: u16,
    pub journal_seq: u64,
    pub record_id: String,
    pub record_kind: JournalRecordKind,
    pub run_id: RunId,
    pub session_id: Option<SessionId>,
    pub agent_id: AgentId,
    pub turn_id: Option<TurnId>,
    pub attempt_id: Option<AttemptId>,
    pub subject_ref: EntityRef,
    pub related_refs: Vec<EntityRef>,
    pub causal_refs: Vec<String>,
    pub source: SourceRef,
    pub destination: Option<DestinationRef>,
    pub correlation_keys: Vec<CorrelationEntry>,
    pub tags: Vec<String>,
    pub delivery_semantics: String,
    pub event_index: EventIndexProjection,
    pub timestamp_millis: u64,
    pub runtime_package_fingerprint: String,
    pub privacy: PrivacyClass,
    pub content_refs: Vec<ContentRefId>,
    pub redaction_policy_id: String,
    pub idempotency_key: Option<IdempotencyKey>,
    pub dedupe_key: Option<DedupeKey>,
    pub checkpoint_ref: Option<String>,
    pub payload: JournalRecordPayload,
}

impl JournalRecord {
    /// Field-wise equality, with vectors compared by their contents.
    pub open spec fn same_as(&self, other: &Self) -> bool {
        &&& self.journal_schema_version == other.journal_schema_version
        &&& self.journal_seq == other.journal_seq
        &&& self.record_id == other.record_id
        &&& self.record_kind == other.record_kind
        &&& self.run_id == other.run_id
        &&& self.session_id == other.session_id
        &&& self.agent_id == other.agent_id
        &&& self.turn_id == other.turn_id
        &&& self.attempt_id == other.attempt_id
        &&& self.subject_ref == other.subject_ref
        &&& self.related_refs@ == other.related_refs@
        &&& self.causal_refs@ == other.causal_refs@
        &&& self.source == other.source
        &&& self.destination == other.destination
        &&& self.correlation_keys@ == other.correlation_keys@
        &&& self.tags@ == other.tags@
        &&& self.delivery_semantics == other.delivery_semantics
        &&& self.event_index.same_as(&other.event_index)
        &&& self.timestamp_millis == other.timestamp_millis
        &&& self.runtime_package_fingerprint == other.runtime_package_fingerprint
        &&& self.privacy == other.privacy
        &&& self.content_refs@ == other.content_refs@
        &&& self.redaction_policy_id == other.redaction_policy_id
        &&& self.idempotency_key == other.idempotency_key
        &&& self.dedupe_key == other.dedupe_key
        &&& self.checkpoint_ref == other.checkpoint_ref
        &&& self.payload.same_as(&other.payload)
    }
}

impl Clone for JournalRecord {
    fn clone(&self) -> (res: Self)
        ensures
            res.same_as(self),
    {
        let related_refs_copy = self.related_refs.clone();
        proof { assert(related_refs_copy@ =~= self.related_refs@); }
        let causal_refs_copy = self.causal_refs.clone();
        proof { assert(causal_refs_copy@ =~= self.causal_refs@); }
        let correlation_keys_copy = self.correlation_keys.clone();
        proof { assert(correlation_keys_copy@ =~= self.correlation_keys@); }
        let tags_copy = self.tags.clone();
        proof { assert(tags_copy@ =~= self.tags@); }
        let content_refs_copy = self.content_refs.clone();
        proof { assert(content_refs_copy@ =~= self.content_refs@); }
        JournalRecord {
            journal_schema_version: self.journal_schema_version,
            journal_seq: self.journal_seq,
            record_id: self.record_id.clone(),
            record_kind: self.record_kind,
            run_id: self.run_id.clone(),
            session_id: self.session_id.clone(),
            agent_id: self.agent_id.clone(),
            turn_id: self.turn_id.clone(),
            attempt_id: self.attempt_id.clone(),
            subject_ref: self.subject_ref.clone(),
            related_refs: related_refs_copy,
            causal_refs: causal_refs_copy,
            source: self.source.clone(),
            destination: self.destination.clone(),
            correlation_keys: correlation_keys_copy,
            tags: tags_copy,
            delivery_semantics: self.delivery_semantics.clone(),
            event_index: self.event_index.clone(),
            timestamp_millis: self.timestamp_millis,
            runtime_package_fingerprint: self.runtime_package_fingerprint.clone(),
            privacy: self.privacy,
            content_refs: content_refs_copy,
            redaction_policy_id: self.redaction_policy_id.clone(),
            idempotency_key: self.idempotency_key.clone(),
            dedupe_key: self.dedupe_key.clone(),
            checkpoint_ref: self.checkpoint_ref.clone(),
            payload: self.payload.clone(),
        }
    }
}

/// Lineage fields shared by the journal records a component appends.
#[derive(Debug)]
pub struct JournalRecordBase {
    pub journal_seq: u64,
    pub record_id: String,
    pub run_id: RunId,
    pub session_id: Option<SessionId>,
    pub agent_id: AgentId,
    pub turn_id: Option<TurnId>,
    pub attempt_id: Option<AttemptId>,
    pub source: SourceRef,
    pub destination: Option<DestinationRef>,
    pub causal_refs: Vec<String>,
    pub tags: Vec<String>,
    pub timestamp_millis: u64,
    pub runtime_package_fingerprint: String,
    pub privacy: PrivacyClass,
    pub redaction_policy_id: String,
    pub checkpoint_ref: Option<String>,
}

impl JournalRecordBase {
    /// Field-wise equality, with vectors compared by their contents.
    pub open spec fn same_as(&self, other: &Self) -> bool {
        &&& self.journal_seq == other.journal_seq
        &&& self.record_id == other.record_id
        &&& self.run_id == other.run_id
        &&& self.session_id == other.session_id
        &&& self.agent_id == other.agent_id
        &&& self.turn_id == other.turn_id
        &&& self.attempt_id == other.attempt_id
        &&& self.source == other.source
        &&& self.destination == other.destination
        &&& self.causal_refs@ == other.causal_refs@
        &&& self.tags@ == other.tags@
        &&& self.timestamp_millis == other.timestamp_millis
        &&& self.runtime_package_fingerprint == other.runtime_package_fingerprint
        &&& self.privacy == other.privacy
        &&& self.redaction_policy_id == other.redaction_policy_id
        &&& self.checkpoint_ref == other.checkpoint_ref
    }
}

impl Clone for JournalRecordBase {
    fn clone(&self) -> (res: Self)
        ensures
            res.same_as(self),
    {
        let causal_refs_copy = self.causal_refs.clone();
        proof { assert(causal_refs_copy@ =~= self.causal_refs@); }
        let tags_copy = self.tags.clone();
        proof { assert(tags_copy@ =~= self.tags@); }
        JournalRecordBase {
            journal_seq: self.journal_seq,
            record_id: self.record_id.clone(),
            run_id: self.run_id.clone(),
            session_id: self.session_id.clone(),
            agent_id: self.agent_id.clone(),
            turn_id: self.turn_id.clone(),
            attempt_id: self.attempt_id.clone(),
            source: self.source.clone(),
            destination: self.destination.clone(),
            causal_refs: causal_refs_copy,
            tags: tags_copy,
            timestamp_millis: self.timestamp_millis,
            runtime_package_fingerprint: self.runtime_package_fingerprint.clone(),
            privacy: self.privacy,
            redaction_policy_id: self.redaction_policy_id.clone(),
            checkpoint_ref: self.checkpoint_ref.clone(),
        }
    }
}

/// Payload of a journal record, one variant per feature.
#[derive(Debug)]
pub enum JournalRecordPayload {
    RunLifecycle(RunLifecycleRecord),
    ContextProjection(ContextProjectionRecord),
    ModelAttempt(ModelAttemptRecord),
    Message(MessageRecord),
    StructuredOutput(StructuredOutputRecord),
    Approval(ApprovalRecord),
    Tool(ToolCallRecord),
    OutputDelivery(OutputDeliveryRecord),
    Hook(HookRecord),
    StreamRule(StreamRuleRecord),
    RealtimeSession(RealtimeSessionRecord),
    Isolation(IsolationRecord),
    ChildLifecycle(ChildLifecycleRecord),
    AgentPool(AgentPoolRecord),
    RunMessage(RunMessageRecord),
    Wake(WakeRecord),
    Subagent(SubagentRecord),
    ExtensionAction(ExtensionActionRecord),
    EffectIntent(EffectIntent),
    EffectResult(EffectResult),
    Checkpoint(RunCheckpoint),
    Recovery(RecoveryMarker),
    TerminalResult(TerminalResultMarker),
}

impl JournalRecordPayload {
    /// Variant-wise equality, with vectors compared by their contents.
    pub open spec fn same_as(&self, other: &Self) -> bool {
        match (*self, *other) {
            (JournalRecordPayload::RunLifecycle(a_v0), JournalRecordPayload::RunLifecycle(b_v0)) => (a_v0 == b_v0),
            (JournalRecordPayload::ContextProjection(a_v0), JournalRecordPayload::ContextProjection(b_v0)) => (a_v0 == b_v0),
            (JournalRecordPayload::ModelAttempt(a_v0), JournalRecordPayload::ModelAttempt(b_v0)) => (a_v0 == b_v0),
            (JournalRecordPayload::Message(a_v0), JournalRecordPayload::Message(b_v0)) => (a_v0 == b_v0),
            (JournalRecordPayload::StructuredOutput(a_v0), JournalRecordPayload::StructuredOutput(b_v0)) => (a_v0.same_as(&b_v0)),
            (JournalRecordPayload::Approval(a_v0), JournalRecordPayload::Approval(b_v0)) => (a_v0.same_as(&b_v0)),
            (JournalRecordPayload::Tool(a_v0), JournalRecordPayload::Tool(b_v0)) => (a_v0.same_as(&b_v0)),
            (JournalRecordPayload::OutputDelivery(a_v0), JournalRecordPayload::OutputDelivery(b_v0)) => (a_v0.same_as(&b_v0)),
            (JournalRecordPayload::Hook(a_v0), JournalRecordPayload::Hook(b_v0)) => (a_v0.same_as(&b_v0)),
            (JournalRecordPayload::StreamRule(a_v0), JournalRecordPayload::StreamRule(b_v0)) => (a_v0.same_as(&b_v0)),
            (JournalRecordPayload::RealtimeSession(a_v0), JournalRecordPayload::RealtimeSession(b_v0)) => (a_v0.same_as(&b_v0)),
            (JournalRecordPayload::Isolation(a_v0), JournalRecordPayload::Isolation(b_v0)) => (a_v0.same_as(&b_v0)),
            (JournalRecordPayload::ChildLifecycle(a_v0), JournalRecordPayload::ChildLifecycle(b_v0)) => (a_v0.same_as(&b_v0)),
            (JournalRecordPayload::AgentPool(a_v0), JournalRecordPayload::AgentPool(b_v0)) => (a_v0.same_as(&b_v0)),
            (JournalRecordPayload::RunMessage(a_v0), JournalRecordPayload::RunMessage(b_v0)) => (a_v0.same_as(&b_v0)),
            (JournalRecordPayload::Wake(a_v0), JournalRecordPayload::Wake(b_v0)) => (a_v0.same_as(&b_v0)),
            (JournalRecordPayload::Subagent(a_v0), JournalRecordPayload::Subagent(b_v0)) => (a_v0.same_as(&b_v0)),
            (JournalRecordPayload::ExtensionAction(a_v0), JournalRecordPayload::ExtensionAction(b_v0)) => (a_v0.same_as(&b_v0)),
            (JournalRecordPayload::EffectIntent(a_v0), JournalRecordPayload::EffectIntent(b_v0)) => (a_v0.same_as(&b_v0)),
            (JournalRecordPayload::EffectResult(a_v0), JournalRecordPayload::EffectResult(b_v0)) => (a_v0.same_as(&b_v0)),
            (JournalRecordPayload::Checkpoint(a_v0), JournalRecordPayload::Checkpoint(b_v0)) => (a_v0.same_as(&b_v0)),
            (JournalRecordPayload::Recovery(a_v0), JournalRecordPayload::Recovery(b_v0)) => (a_v0.same_as(&b_v0)),
            (JournalRecordPayload::TerminalResult(a_v0), JournalRecordPayload::TerminalResult(b_v0)) => (a_v0 == b_v0),
            _ => false,
        }
    }
}

impl Clone for JournalRecordPayload {
    fn clone(&self) -> (res: Self)
        ensures
            res.same_as(self),
    {
        match self {
            JournalRecordPayload::RunLifecycle(v0) => { JournalRecordPayload::RunLifecycle(v0.clone()) }
            JournalRecordPayload::ContextProjection(v0) => { JournalRecordPayload::ContextProjection(v0.clone()) }
            JournalRecordPayload::ModelAttempt(v0) => { JournalRecordPayload::ModelAttempt(v0.clone()) }
            JournalRecordPayload::Message(v0) => { JournalRecordPayload::Message(v0.clone()) }
            JournalRecordPayload::StructuredOutput(v0) => { JournalRecordPayload::StructuredOutput(v0.clone()) }
            JournalRecordPayload::Approval(v0) => { JournalRecordPayload::Approval(v0.clone()) }
            JournalRecordPayload::Tool(v0) => { JournalRecordPayload::Tool(v0.clone()) }
            JournalRecordPayload::OutputDelivery(v0) => { JournalRecordPayload::OutputDelivery(v0.clone()) }
            JournalRecordPayload::Hook(v0) => { JournalRecordPayload::Hook(v0.clone()) }
            JournalRecordPayload::StreamRule(v0) => { JournalRecordPayload::StreamRule(v0.clone()) }
            JournalRecordPayload::RealtimeSession(v0) => { JournalRecordPayload::RealtimeSession(v0.clone()) }
            JournalRecordPayload::Isolation(v0) => { JournalRecordPayload::Isolation(v0.clone()) }
            JournalRecordPayload::ChildLifecycle(v0) => { JournalRecordPayload::ChildLifecycle(v0.clone()) }
            JournalRecordPayload::AgentPool(v0) => { JournalRecordPayload::AgentPool(v0.clone()) }
            JournalRecordPayload::RunMessage(v0) => { JournalRecordPayload::RunMessage(v0.clone()) }
            JournalRecordPayload::Wake(v0) => { JournalRecordPayload::Wake(v0.clone()) }
            JournalRecordPayload::Subagent(v0) => { JournalRecordPayload::Subagent(v0.clone()) }
            JournalRecordPayload::ExtensionAction(v0) => { JournalRecordPayload::ExtensionAction(v0.clone()) }
            JournalRecordPayload::EffectIntent(v0) => { JournalRecordPayload::EffectIntent(v0.clone()) }
            JournalRecordPayload::EffectResult(v0) => { JournalRecordPayload::EffectResult(v0.clone()) }
            JournalRecordPayload::Checkpoint(v0) => { JournalRecordPayload::Checkpoint(v0.clone()) }
            JournalRecordPayload::Recovery(v0) => { JournalRecordPayload::Recovery(v0.clone()) }
            JournalRecordPayload::TerminalResult(v0) => { JournalRecordPayload::TerminalResult(v0.clone()) }
        }
    }
}

/// Journal payload of the structured output feature.
#[derive(Debug)]
pub enum StructuredOutputRecord {
    Lifecycle(StructuredOutputLifecycleRecord),
    Validation(ValidationRecord),
    Repair(RepairRecord),
    RepairExhaustion(RepairExhaustionRecord),
    ValidationReport(ValidationReportRecord),
    ValidatedOutput(ValidatedOutput),
    TypedResultPublication(TypedResultPublicationRecord),
}

impl StructuredOutputRecord {
    /// Variant-wise equality, with vectors compared by their contents.
    pub open spec fn same_as(&self, other: &Self) -> bool {
        match (*self, *other) {
            (StructuredOutputRecord::Lifecycle(a_v0), StructuredOutputRecord::Lifecycle(b_v0)) => (a_v0 == b_v0),
            (StructuredOutputRecord::Validation(a_v0), StructuredOutputRecord::Validation(b_v0)) => (a_v0.same_as(&b_v0)),
            (StructuredOutputRecord::Repair(a_v0), StructuredOutputRecord::Repair(b_v0)) => (a_v0.same_as(&b_v0)),
            (StructuredOutputRecord::RepairExhaustion(a_v0), StructuredOutputRecord::RepairExhaustion(b_v0)) => (a_v0.same_as(&b_v0)),
            (StructuredOutputRecord::ValidationReport(a_v0), StructuredOutputRecord::ValidationReport(b_v0)) => (a_v0.same_as(&b_v0)),
            (StructuredOutputRecord::ValidatedOutput(a_v0), StructuredOutputRecord::ValidatedOutput(b_v0)) => (a_v0.same_as(&b_v0)),
            (StructuredOutputRecord::TypedResultPublication(a_v0), StructuredOutputRecord::TypedResultPublication(b_v0)) => (a_v0.same_as(&b_v0)),
            _ => false,
        }
    }
}

impl Clone for StructuredOutputRecord {
    fn clone(&self) -> (res: Self)
        ensures
            res.same_as(self),
    {
        match self {
            StructuredOutputRecord::Lifecycle(v0) => { StructuredOutputRecord::Lifecycle(v0.clone()) }
            StructuredOutputRecord::Validation(v0) => { StructuredOutputRecord::Validation(v0.clone()) }
            StructuredOutputRecord::Repair(v0) => { StructuredOutputRecord::Repair(v0.clone()) }
            StructuredOutputRecord::RepairExhaustion(v0) => { StructuredOutputRecord::RepairExhaustion(v0.clone()) }
            StructuredOutputRecord::ValidationReport(v0) => { StructuredOutputRecord::ValidationReport(v0.clone()) }
            StructuredOutputRecord::ValidatedOutput(v0) => { StructuredOutputRecord::ValidatedOutput(v0.clone()) }
            StructuredOutputRecord::TypedResultPublication(v0) => { StructuredOutputRecord::TypedResultPublication(v0.clone()) }
        }
    }
}

/// Run lifecycle transition.
#[derive(Debug)]
pub struct RunLifecycleRecord {
    pub status: String,
    pub reason: String,
}

impl Clone for RunLifecycleRecord {
    fn clone(&self) -> (res: Self)
        ensures
            res == *self,
    {
        RunLifecycleRecord {
            status: self.status.clone(),
            reason: self.reason.clone(),
        }
    }
}

/// Summary of a context projection.
#[derive(Debug)]
pub struct ContextProjectionRecord {
    pub projection_id: ContextProjectionId,
    pub selected_item_count: u32,
    pub provider_destination: DestinationRef,
}

impl Clone for ContextProjectionRecord {
    fn clone(&self) -> (res: Self)
        ensures
            res == *self,
    {
        ContextProjectionRecord {
            projection_id: self.projection_id.clone(),
            selected_item_count: self.selected_item_count,
            provider_destination: self.provider_destination.clone(),
        }
    }
}

/// One model attempt.
#[derive(Debug)]
pub struct ModelAttemptRecord {
    pub provider_route_id: String,
    pub provider_model_id: String,
    pub request_message_count: u32,
    pub stop_reason: Option<ProviderStopReason>,
    pub usage: Option<ProviderUsage>,
}

impl Clone for ModelAttemptRecord {
    fn clone(&self) -> (res: Self)
        ensures
            res == *self,
    {
        ModelAttemptRecord {
            provider_route_id: self.provider_route_id.clone(),
            provider_model_id: self.provider_model_id.clone(),
            request_message_count: self.request_message_count,
            stop_reason: self.stop_reason.clone(),
            usage: self.usage.clone(),
        }
    }
}

/// A committed message, redacted.
#[derive(Debug)]
pub struct MessageRecord {
    pub message_id: MessageId,
    pub role: String,
    pub redacted_summary: String,
}

impl Clone for MessageRecord {
    fn clone(&self) -> (res: Self)
        ensures
            res == *self,
    {
        MessageRecord {
            message_id: self.message_id.clone(),
            role: self.role.clone(),
            redacted_summary: self.redacted_summary.clone(),
        }
    }
}

/// Agent pool membership change.
#[derive(Debug)]
pub struct AgentPoolRecord {
    pub pool_id: AgentPoolId,
    pub member_run_ids: Vec<RunId>,
    pub topics: Vec<TopicId>,
    pub policy_refs: Vec<PolicyRef>,
    pub lifecycle_status: AgentPoolLifecycleStatus,
}

impl AgentPoolRecord {
    /// Field-wise equality, with vectors compared by their contents.
    pub open spec fn same_as(&self, other: &Self) -> bool {
        &&& self.pool_id == other.pool_id
        &&& self.member_run_ids@ == other.member_run_ids@
        &&& self.topics@ == other.topics@
        &&& self.policy_refs@ == other.policy_refs@
        &&& self.lifecycle_status == other.lifecycle_status
    }
}

impl Clone for AgentPoolRecord {
    fn clone(&self) -> (res: Self)
        ensures
            res.same_as(self),
    {
        let member_run_ids_copy = self.member_run_ids.clone();
        proof { assert(member_run_ids_copy@ =~= self.member_run_ids@); }
        let topics_copy = self.topics.clone();
        proof { assert(topics_copy@ =~= self.topics@); }
        let policy_refs_copy = self.policy_refs.clone();
        proof { assert(policy_refs_copy@ =~= self.policy_refs@); }
        AgentPoolRecord {
            pool_id: self.pool_id.clone(),
            member_run_ids: member_run_ids_copy,
            topics: topics_copy,
            policy_refs: policy_refs_copy,
            lifecycle_status: self.lifecycle_status,
        }
    }
}

/// Agent pool lifecycle status.
#[derive(Clone, Copy, Debug, PartialEq, Eq, Structural)]
pub enum AgentPoolLifecycleStatus {
    Created,
    RunJoined,
    RunLeft,
}

impl crate::domain::ValueEq for AgentPoolLifecycleStatus {
    open spec fn value_eq(&self, other: &Self) -> bool {
        *self == *other
    }

    fn equals(&self, other: &Self) -> (r: bool) {
        *self == *other
    }
}

/// A message between runs.
#[derive(Debug)]
pub struct RunMessageRecord {
    pub message_id: MessageId,
    pub source_run_id: RunId,
    pub address_target: RunMessageAddressTargetRecord,
    pub content_ref: ContentRefId,
    pub correlation: EventCorrelation,
    pub reply_to: Option<MessageId>,
    pub delivery_status: RunMessageDeliveryStatus,
    pub delivered_to: Vec<RunId>,
    pub policy_refs: Vec<PolicyRef>,
    pub idempotency_key: IdempotencyKey,
    pub effect_intent: Option<EffectIntent>,
    pub effect_result: Option<EffectResult>,
}

impl RunMessageRecord {
    /// Field-wise equality, with vectors compared by their contents.
    pub open spec fn same_as(&self, other: &Self) -> bool {
        &&& self.message_id == other.message_id
        &&& self.source_run_id == other.source_run_id
        &&& self.address_target == other.address_target
        &&& self.content_ref == other.content_ref
        &&& self.correlation.same_as(&other.correlation)
        &&& self.reply_to == other.reply_to
        &&& self.delivery_status == other.delivery_status
        &&& self.delivered_to@ == other.delivered_to@
        &&& self.policy_refs@ == other.policy_refs@
        &&& self.idempotency_key == other.idempotency_key
        &&& (self.effect_intent.is_some() == other.effect_intent.is_some() && (self.effect_intent.is_some() ==> self.effect_intent.unwrap().same_as(&other.effect_intent.unwrap())))
        &&& (self.effect_result.is_some() == other.effect_result.is_some() && (self.effect_result.is_some() ==> self.effect_result.unwrap().same_as(&other.effect_result.unwrap())))
    }
}

impl Clone for RunMessageRecord {
    fn clone(&self) -> (res: Self)
        ensures
            res.same_as(self),
    {
        let delivered_to_copy = self.delivered_to.clone();
        proof { assert(delivered_to_copy@ =~= self.delivered_to@); }
        let policy_refs_copy = self.policy_refs.clone();
        proof { assert(policy_refs_copy@ =~= self.policy_refs@); }
        RunMessageRecord {
            message_id: self.message_id.clone(),
            source_run_id: self.source_run_id.clone(),
            address_target: self.address_target.clone(),
            content_ref: self.content_ref.clone(),
            correlation: self.correlation.clone(),
            reply_to: self.reply_to.clone(),
            delivery_status: self.delivery_status,
            delivered_to: delivered_to_copy,
            policy_refs: policy_refs_copy,
            idempotency_key: self.idempotency_key.clone(),
            effect_intent: match &self.effect_intent { Some(x2) => {  Some(x2.clone()) }, None => None },
            effect_result: match &self.effect_result { Some(x3) => {  Some(x3.clone()) }, None => None },
        }
    }
}

/// Addressee of a run message.
#[derive(Debug)]
pub enum RunMessageAddressTargetRecord {
    Run { run_id: RunId },
    Agent { agent_id: AgentId },
    Topic { topic_id: TopicId },
    Pool { pool_id: AgentPoolId },
}

impl Clone for RunMessageAddressTargetRecord {
    fn clone(&self) -> (res: Self)
        ensures
            res == *self,
    {
        match self {
            RunMessageAddressTargetRecord::Run { run_id } => { RunMessageAddressTargetRecord::Run { run_id: run_id.clone() } }
            RunMessageAddressTargetRecord::Agent { agent_id } => { RunMessageAddressTargetRecord::Agent { agent_id: agent_id.clone() } }
            RunMessageAddressTargetRecord::Topic { topic_id } => { RunMessageAddressTargetRecord::Topic { topic_id: topic_id.clone() } }
            RunMessageAddressTargetRecord::Pool { pool_id } => { RunMessageAddressTargetRecord::Pool { pool_id: pool_id.clone() } }
        }
    }
}

/// Delivery status of a run message.
#[derive(Clone, Copy, Debug, PartialEq, Eq, Structural)]
pub enum RunMessageDeliveryStatus {
    Accepted,
    Delivered,
    Responded,
    Failed,
    TimedOut,
    Expired,
    Cancelled,
}

impl crate::domain::ValueEq for RunMessageDeliveryStatus {
    open spec fn value_eq(&self, other: &Self) -> bool {
        *self == *other
    }

    fn equals(&self, other: &Self) -> (r: bool) {
        *self == *other
    }
}

/// A wake condition and its trigger status.
#[derive(Debug)]
pub struct WakeRecord {
    pub condition_id: WakeConditionId,
    pub run_id: RunId,
    pub event_filter_fingerprint: EventFilterFingerprint,
    pub timeout_millis: Option<u64>,
    pub resume_policy: WakeResumeInputPolicyRecord,
    pub trigger_status: WakeTriggerStatus,
    pub policy_refs: Vec<PolicyRef>,
    pub idempotency_key: IdempotencyKey,
    pub matched_event_id: Option<EventId>,
}

impl WakeRecord {
    /// Field-wise equality, with vectors compared by their contents.
    pub open spec fn same_as(&self, other: &Self) -> bool {
        &&& self.condition_id == other.condition_id
        &&& self.run_id == other.run_id
        &&& self.event_filter_fingerprint == other.event_filter_fingerprint
        &&& self.timeout_millis == other.timeout_millis
        &&& self.resume_policy == other.resume_policy
        &&& self.trigger_status == other.trigger_status
        &&& self.policy_refs@ == other.policy_refs@
        &&& self.idempotency_key == other.idempotency_key
        &&& self.matched_event_id == other.matched_event_id
    }
}

impl Clone for WakeRecord {
    fn clone(&self) -> (res: Self)
        ensures
            res.same_as(self),
    {
        let policy_refs_copy = self.policy_refs.clone();
        proof { assert(policy_refs_copy@ =~= self.policy_refs@); }
        WakeRecord {
            condition_id: self.condition_id.clone(),
            run_id: self.run_id.clone(),
            event_filter_fingerprint: self.event_filter_fingerprint.clone(),
            timeout_millis: self.timeout_millis.clone(),
            resume_policy: self.resume_policy,
            trigger_status: self.trigger_status,
            policy_refs: policy_refs_copy,
            idempotency_key: self.idempotency_key.clone(),
            matched_event_id: self.matched_event_id.clone(),
        }
    }
}

/// What a woken run receives.
#[derive(Clone, Copy, Debug, PartialEq, Eq, Structural)]
pub enum WakeResumeInputPolicyRecord {
    MatchingEventRefs,
    RedactedSummary,
    NoResumeInput,
}

impl crate::domain::ValueEq for WakeResumeInputPolicyRecord {
    open spec fn value_eq(&self, other: &Self) -> bool {
        *self == *other
    }

    fn equals(&self, other: &Self) -> (r: bool) {
        *self == *other
    }
}

/// Trigger status of a wake condition.
#[derive(Clone, Copy, Debug, PartialEq, Eq, Structural)]
pub enum WakeTriggerStatus {
    Registered,
    Triggered,
    TimedOut,
    Cancelled,
    Failed,
}

impl crate::domain::ValueEq for WakeTriggerStatus {
    open spec fn value_eq(&self, other: &Self) -> bool {
        *self == *other
    }

    fn equals(&self, other: &Self) -> (r: bool) {
        *self == *other
    }
}

/// A run checkpoint covering a journal prefix.
#[derive(Debug)]
pub struct RunCheckpoint {
    pub checkpoint_id: String,
    pub run_id: RunId,
    pub checkpoint_seq: u64,
    pub covers_journal_seq: u64,
    pub loop_state: String,
    pub turn_id: Option<TurnId>,
    pub attempt_id: Option<AttemptId>,
    pub runtime_package_fingerprint: String,
    pub pending_side_effects: Vec<PendingSideEffect>,
    pub pending_approvals: Vec<String>,
    pub content_ref_manifest: Vec<ContentRefId>,
    pub state_hash: String,
    pub created_at_millis: u64,
    pub writer_id: String,
}

impl RunCheckpoint {
    /// Field-wise equality, with vectors compared by their contents.
    pub open spec fn same_as(&self, other: &Self) -> bool {
        &&& self.checkpoint_id == other.checkpoint_id
        &&& self.run_id == other.run_id
        &&& self.checkpoint_seq == other.checkpoint_seq
        &&& self.covers_journal_seq == other.covers_journal_seq
        &&& self.loop_state == other.loop_state
        &&& self.turn_id == other.turn_id
        &&& self.attempt_id == other.attempt_id
        &&& self.runtime_package_fingerprint == other.runtime_package_fingerprint
        &&& self.pending_side_effects@ == other.pending_side_effects@
        &&& self.pending_approvals@ == other.pending_approvals@
        &&& self.content_ref_manifest@ == other.content_ref_manifest@
        &&& self.state_hash == other.state_hash
        &&& self.created_at_millis == other.created_at_millis
        &&& self.writer_id == other.writer_id
    }
}

impl Clone for RunCheckpoint {
    fn clone(&self) -> (res: Self)
        ensures
            res.same_as(self),
    {
        let pending_side_effects_copy = self.pending_side_effects.clone();
        proof { assert(pending_side_effects_copy@ =~= self.pending_side_effects@); }
        let pending_approvals_copy = self.pending_approvals.clone();
        proof { assert(pending_approvals_copy@ =~= self.pending_approvals@); }
        let content_ref_manifest_copy = self.content_ref_manifest.clone();
        proof { assert(content_ref_manifest_copy@ =~= self.content_ref_manifest@); }
        RunCheckpoint {
            checkpoint_id: self.checkpoint_id.clone(),
            run_id: self.run_id.clone(),
            checkpoint_seq: self.checkpoint_seq,
            covers_journal_seq: self.covers_journal_seq,
            loop_state: self.loop_state.clone(),
            turn_id: self.turn_id.clone(),
            attempt_id: self.attempt_id.clone(),
            runtime_package_fingerprint: self.runtime_package_fingerprint.clone(),
            pending_side_effects: pending_side_effects_copy,
            pending_approvals: pending_approvals_copy,
            content_ref_manifest: content_ref_manifest_copy,
            state_hash: self.state_hash.clone(),
            created_at_millis: self.created_at_millis,
            writer_id: self.writer_id.clone(),
        }
    }
}

/// A side effect whose outcome is not yet known.
#[derive(Debug)]
pub struct PendingSideEffect {
    pub effect_id: EffectId,
    pub intent_record_id: String,
    pub idempotency_key: Option<IdempotencyKey>,
    pub dedupe_key: Option<DedupeKey>,
    pub unsafe_pending_reason: String,
}

impl Clone for PendingSideEffect {
    fn clone(&self) -> (res: Self)
        ensures
            res == *self,
    {
        PendingSideEffect {
            effect_id: self.effect_id.clone(),
            intent_record_id: self.intent_record_id.clone(),
            idempotency_key: self.idempotency_key.clone(),
            dedupe_key: self.dedupe_key.clone(),
            unsafe_pending_reason: self.unsafe_pending_reason.clone(),
        }
    }
}

/// Marker of a terminal effect result.
#[derive(Debug)]
pub struct TerminalResultMarker {
    pub effect_id: EffectId,
    pub result_record_id: String,
    pub terminal_status: String,
}

impl Clone for TerminalResultMarker {
    fn clone(&self) -> (res: Self)
        ensures
            res == *self,
    {
        TerminalResultMarker {
            effect_id: self.effect_id.clone(),
            result_record_id: self.result_record_id.clone(),
            terminal_status: self.terminal_status.clone(),
        }
    }
}

/// Marker of a recovery with the effects left pending.
#[derive(Debug)]
pub struct RecoveryMarker {
    pub unsafe_pending: Vec<PendingSideEffect>,
    pub recovery_reason: String,
    pub policy_refs: Vec<PolicyRef>,
}

impl RecoveryMarker {
    /// Field-wise equality, with vectors compared by their contents.
    pub open spec fn same_as(&self, other: &Self) -> bool {
        &&& self.unsafe_pending@ == other.unsafe_pending@
        &&& self.recovery_reason == other.recovery_reason
        &&& self.policy_refs@ == other.policy_refs@
    }
}

impl Clone for RecoveryMarker {
    fn clone(&self) -> (res: Self)
        ensures
            res.same_as(self),
    {
        let unsafe_pending_copy = self.unsafe_pending.clone();
        proof { assert(unsafe_pending_copy@ =~= self.unsafe_pending@); }
        let policy_refs_copy = self.policy_refs.clone();
        proof { assert(policy_refs_copy@ =~= self.policy_refs@); }
        RecoveryMarker {
            unsafe_pending: unsafe_pending_copy,
            recovery_reason: self.recovery_reason.clone(),
            policy_refs: policy_refs_copy,
        }
    }
}

/// Schema version of journal records.
pub const JOURNAL_SCHEMA_VERSION: u16 = 1;

/// `r` refers to the entity of `kind` whose identifier is `id`.
pub open spec fn entity_is(r: EntityRef, kind: EntityKind, id: Seq<char>) -> bool {
    r.kind == kind && r.id@ == id
}

impl JournalRecordBase {
    /// A base with the given lineage, no turn, attempt, destination, causal refs or tags,
    /// timestamp zero, the test package fingerprint, content-refs-only privacy, and the
    /// default redaction policy.
    pub fn new(journal_seq: u64, record_id: String, run_id: RunId, agent_id: AgentId, source: SourceRef) -> (res: Self)
        ensures
            res.journal_seq == journal_seq,
            res.record_id == record_id,
            res.run_id == run_id,
            res.session_id is None,
            res.agent_id == agent_id,
            res.turn_id is None,
            res.attempt_id is None,
            res.source == source,
            res.destination is None,
            res.causal_refs@.len() == 0,
            res.tags@.len() == 0,
            res.timestamp_millis == 0,
            res.runtime_package_fingerprint@ == "runtime.package.fingerprint.test"@,
            res.privacy == PrivacyClass::ContentRefsOnly,
            res.redaction_policy_id@ == "redaction.default"@,
            res.checkpoint_ref is None,
    {
        JournalRecordBase {
            journal_seq,
            record_id,
            run_id,
            session_id: None,
            agent_id,
            turn_id: None,
            attempt_id: None,
            source,
            destination: None,
            causal_refs: Vec::new(),
            tags: Vec::new(),
            timestamp_millis: 0,
            runtime_package_fingerprint: "runtime.package.fingerprint.test".to_string(),
            privacy: PrivacyClass::ContentRefsOnly,
            redaction_policy_id: "redaction.default".to_string(),
            checkpoint_ref: None,
        }
    }

    /// The event index of a record on this base: the base's lineage, source, destination,
    /// tags and privacy, with the run as subject and no related refs.
    pub(crate) fn event_index(&self, event_family: &str, event_kind: &str) -> (res: EventIndexProjection)
        ensures
            res.indexes(*self, event_family@, event_kind@),
            entity_is(res.subject_ref, EntityKind::Run, self.run_id@),
            res.related_refs@.len() == 0,
    {
        let tags = self.tags.clone();
        proof {
            assert(tags@ =~= self.tags@);
        }
        EventIndexProjection {
            run_id: self.run_id.clone(),
            session_id: self.session_id.clone(),
            agent_id: self.agent_id.clone(),
            turn_id: self.turn_id.clone(),
            event_family: event_family.to_string(),
            event_kind: event_kind.to_string(),
            source: self.source.clone(),
            destination: self.destination.clone(),
            subject_ref: EntityRef::run(&self.run_id),
            related_refs: Vec::new(),
            correlation_keys: Vec::new(),
            tags,
            privacy_class: self.privacy,
            delivery_semantics: "journal_backed".to_string(),
        }
    }
}

impl EventIndexProjection {
    /// Whether this index carries `base`'s lineage, source, destination, tags and privacy
    /// under the given family and kind, with no correlation keys.
    pub open spec fn indexes(&self, base: JournalRecordBase, event_family: Seq<char>, event_kind: Seq<char>) -> bool {
        &&& self.run_id == base.run_id
        &&& self.session_id == base.session_id
        &&& self.agent_id == base.agent_id
        &&& self.turn_id == base.turn_id
        &&& self.event_family@ == event_family
        &&& self.event_kind@ == event_kind
        &&& self.source == base.source
        &&& self.destination == base.destination
        &&& self.correlation_keys@.len() == 0
        &&& self.tags@ == base.tags@
        &&& self.privacy_class == base.privacy
        &&& self.delivery_semantics@ == "journal_backed"@
    }
}

impl JournalRecord {
    /// Whether this record carries `base`'s sequence number, id, lineage, timestamp,
    /// fingerprint, privacy and redaction policy, in the current schema, journal-backed,
    /// with no correlation keys.
    pub open spec fn on_base(&self, base: JournalRecordBase) -> bool {
        &&& self.journal_schema_version == JOURNAL_SCHEMA_VERSION
        &&& self.journal_seq == base.journal_seq
        &&& self.record_id == base.record_id
        &&& self.run_id == base.run_id
        &&& self.session_id == base.session_id
        &&& self.agent_id == base.agent_id
        &&& self.turn_id == base.turn_id
        &&& self.attempt_id == base.attempt_id
        &&& self.causal_refs == base.causal_refs
        &&& self.correlation_keys@.len() == 0
        &&& self.delivery_semantics@ == "journal_backed"@
        &&& self.timestamp_millis == base.timestamp_millis
        &&& self.runtime_package_fingerprint == base.runtime_package_fingerprint
        &&& self.privacy == base.privacy
        &&& self.redaction_policy_id == base.redaction_policy_id
    }

    /// Journals an effect intent: subject, source, destination, content refs and keys come
    /// from the intent; the effect is the related ref.
    pub fn effect_intent(base: JournalRecordBase, intent: EffectIntent) -> (res: Self)
        ensures
            res.on_base(base),
            res.record_kind == JournalRecordKind::EffectIntent,
            res.subject_ref == intent.subject_ref,
            res.related_refs@.len() == 1,
            entity_is(res.related_refs@[0], EntityKind::Effect, intent.effect_id@),
            res.source == intent.source,
            res.destination == intent.destination,
            res.tags == base.tags,
            res.content_refs@ == intent.content_refs@,
            res.idempotency_key == intent.idempotency_key,
            res.dedupe_key == intent.dedupe_key,
            res.checkpoint_ref == base.checkpoint_ref,
            res.event_index.indexes(base, "effect"@, "intent"@),
            res.event_index.subject_ref == intent.subject_ref,
            res.event_index.related_refs@ == res.related_refs@,
            res.payload == JournalRecordPayload::EffectIntent(intent),
    {
        let mut event_index = base.event_index("effect", "intent");
        let effect_ref = EntityRef::new(EntityKind::Effect, intent.effect_id.as_str());
        event_index.subject_ref = intent.subject_ref.clone();
        let mut index_related: Vec<EntityRef> = Vec::new();
        index_related.push(effect_ref.clone());
        event_index.related_refs = index_related;
        let mut related_refs: Vec<EntityRef> = Vec::new();
        related_refs.push(effect_ref);
        let content_refs = intent.content_refs.clone();
        proof {
            assert(content_refs@ =~= intent.content_refs@);
            assert(event_index.related_refs@ =~= related_refs@);
        }
        JournalRecord {
            journal_schema_version: JOURNAL_SCHEMA_VERSION,
            journal_seq: base.journal_seq,
            record_id: base.record_id,
            record_kind: JournalRecordKind::EffectIntent,
            run_id: base.run_id,
            session_id: base.session_id,
            agent_id: base.agent_id,
            turn_id: base.turn_id,
            attempt_id: base.attempt_id,
            subject_ref: intent.subject_ref.clone(),
            related_refs,
            causal_refs: base.causal_refs,
            source: intent.source.clone(),
            destination: intent.destination.clone(),
            correlation_keys: Vec::new(),
            tags: base.tags,
            delivery_semantics: "journal_backed".to_string(),
            event_index,
            timestamp_millis: base.timestamp_millis,
            runtime_package_fingerprint: base.runtime_package_fingerprint,
            privacy: base.privacy,
            content_refs,
            redaction_policy_id: base.redaction_policy_id,
            idempotency_key: intent.idempotency_key.clone(),
            dedupe_key: intent.dedupe_key.clone(),
            checkpoint_ref: base.checkpoint_ref,
            payload: JournalRecordPayload::EffectIntent(intent),
        }
    }

    /// Journals an effect result: the effect is subject and related ref; source and
    /// destination come from the base; no keys.
    pub fn effect_result(base: JournalRecordBase, result: EffectResult) -> (res: Self)
        ensures
            res.on_base(base),
            res.record_kind == JournalRecordKind::EffectResult,
            entity_is(res.subject_ref, EntityKind::Effect, result.effect_id@),
            res.related_refs@ == seq![res.subject_ref],
            res.source == base.source,
            res.destination == base.destination,
            res.tags == base.tags,
            res.content_refs@ == result.content_refs@,
            res.idempotency_key is None,
            res.dedupe_key is None,
            res.checkpoint_ref == base.checkpoint_ref,
            res.event_index.indexes(base, "effect"@, "result"@),
            res.event_index.subject_ref == res.subject_ref,
            res.event_index.related_refs@ == res.related_refs@,
            res.payload == JournalRecordPayload::EffectResult(result),
    {
        let effect_ref = EntityRef::new(EntityKind::Effect, result.effect_id.as_str());
        let mut event_index = base.event_index("effect", "result");
        event_index.subject_ref = effect_ref.clone();
        let mut index_related: Vec<EntityRef> = Vec::new();
        index_related.push(effect_ref.clone());
        event_index.related_refs = index_related;
        let mut related_refs: Vec<EntityRef> = Vec::new();
        related_refs.push(effect_ref.clone());
        let content_refs = result.content_refs.clone();
        proof {
            assert(content_refs@ =~= result.content_refs@);
            assert(related_refs@ =~= seq![effect_ref]);
            assert(event_index.related_refs@ =~= related_refs@);
        }
        JournalRecord {
            journal_schema_version: JOURNAL_SCHEMA_VERSION,
            journal_seq: base.journal_seq,
            record_id: base.record_id,
            record_kind: JournalRecordKind::EffectResult,
            run_id: base.run_id,
            session_id: base.session_id,
            agent_id: base.agent_id,
            turn_id: base.turn_id,
            attempt_id: base.attempt_id,
            subject_ref: effect_ref,
            related_refs,
            causal_refs: base.causal_refs,
            source: base.source,
            destination: base.destination,
            correlation_keys: Vec::new(),
            tags: base.tags,
            delivery_semantics: "journal_backed".to_string(),
            event_index,
            timestamp_millis: base.timestamp_millis,
            runtime_package_fingerprint: base.runtime_package_fingerprint,
            privacy: base.privacy,
            content_refs,
            redaction_policy_id: base.redaction_policy_id,
            idempotency_key: None,
            dedupe_key: None,
            checkpoint_ref: base.checkpoint_ref,
            payload: JournalRecordPayload::EffectResult(result),
        }
    }

    /// Journals a checkpoint: the run is subject; the checkpoint id becomes the record's
    /// checkpoint ref and its content manifest the record's content refs.
    pub fn checkpoint(base: JournalRecordBase, checkpoint: RunCheckpoint) -> (res: Self)
        ensures
            res.on_base(base),
            res.record_kind == JournalRecordKind::Checkpoint,
            entity_is(res.subject_ref, EntityKind::Run, base.run_id@),
            res.related_refs@.len() == 0,
            res.source == base.source,
            res.destination == base.destination,
            res.tags == base.tags,
            res.content_refs@ == checkpoint.content_ref_manifest@,
            res.idempotency_key is None,
            res.dedupe_key is None,
            res.checkpoint_ref == Some(checkpoint.checkpoint_id),
            res.event_index.indexes(base, "checkpoint"@, "saved"@),
            entity_is(res.event_index.subject_ref, EntityKind::Run, base.run_id@),
            res.event_index.related_refs@.len() == 0,
            res.payload == JournalRecordPayload::Checkpoint(checkpoint),
    {
        let event_index = base.event_index("checkpoint", "saved");
        let content_refs = checkpoint.content_ref_manifest.clone();
        proof {
            assert(content_refs@ =~= checkpoint.content_ref_manifest@);
        }
        let subject_ref = EntityRef::run(&base.run_id);
        JournalRecord {
            journal_schema_version: JOURNAL_SCHEMA_VERSION,
            journal_seq: base.journal_seq,
            record_id: base.record_id,
            record_kind: JournalRecordKind::Checkpoint,
            run_id: base.run_id,
            session_id: base.session_id,
            agent_id: base.agent_id,
            turn_id: base.turn_id,
            attempt_id: base.attempt_id,
            subject_ref,
            related_refs: Vec::new(),
            causal_refs: base.causal_refs,
            source: base.source,
            destination: base.destination,
            correlation_keys: Vec::new(),
            tags: base.tags,
            delivery_semantics: "journal_backed".to_string(),
            event_index,
            timestamp_millis: base.timestamp_millis,
            runtime_package_fingerprint: base.runtime_package_fingerprint,
            privacy: base.privacy,
            content_refs,
            redaction_policy_id: base.redaction_policy_id,
            idempotency_key: None,
            dedupe_key: None,
            checkpoint_ref: Some(checkpoint.checkpoint_id.clone()),
            payload: JournalRecordPayload::Checkpoint(checkpoint),
        }
    }

    /// Journals a recovery marker: the run is subject; no content refs or keys.
    pub fn recovery(base: JournalRecordBase, recovery: RecoveryMarker) -> (res: Self)
        ensures
            res.on_base(base),
            res.record_kind == JournalRecordKind::Recovery,
            entity_is(res.subject_ref, EntityKind::Run, base.run_id@),
            res.related_refs@.len() == 0,
            res.source == base.source,
            res.destination == base.destination,
            res.tags == base.tags,
            res.content_refs@.len() == 0,
            res.idempotency_key is None,
            res.dedupe_key is None,
            res.checkpoint_ref == base.checkpoint_ref,
            res.event_index.indexes(base, "recovery"@, "marker"@),
            entity_is(res.event_index.subject_ref, EntityKind::Run, base.run_id@),
            res.event_index.related_refs@.len() == 0,
            res.payload == JournalRecordPayload::Recovery(recovery),
    {
        let event_index = base.event_index("recovery", "marker");
        let subject_ref = EntityRef::run(&base.run_id);
        JournalRecord {
            journal_schema_version: JOURNAL_SCHEMA_VERSION,
            journal_seq: base.journal_seq,
            record_id: base.record_id,
            record_kind: JournalRecordKind::Recovery,
            run_id: base.run_id,
            session_id: base.session_id,
            agent_id: base.agent_id,
            turn_id: base.turn_id,
            attempt_id: base.attempt_id,
            subject_ref,
            related_refs: Vec::new(),
            causal_refs: base.causal_refs,
            source: base.source,
            destination: base.destination,
            correlation_keys: Vec::new(),
            tags: base.tags,
            delivery_semantics: "journal_backed".to_string(),
            event_index,
            timestamp_millis: base.timestamp_millis,
            runtime_package_fingerprint: base.runtime_package_fingerprint,
            privacy: base.privacy,
            content_refs: Vec::new(),
            redaction_policy_id: base.redaction_policy_id,
            idempotency_key: None,
            dedupe_key: None,
            checkpoint_ref: base.checkpoint_ref,
            payload: JournalRecordPayload::Recovery(recovery),
        }
    }

    /// Journals a feature record of the given kind, family and event kind, with the given
    /// subject, related refs, content refs and payload.
    pub fn feature_record(
        base: JournalRecordBase,
        record_kind: JournalRecordKind,
        event_family: &str,
        event_kind: &str,
        subject_ref: EntityRef,
        related_refs: Vec<EntityRef>,
        content_refs: Vec<ContentRefId>,
        payload: JournalRecordPayload,
    ) -> (res: Self)
        ensures
            res.on_base(base),
            res.record_kind == record_kind,
            res.subject_ref == subject_ref,
            res.related_refs == related_refs,
            res.source == base.source,
            res.destination == base.destination,
            res.tags == base.tags,
            res.content_refs == content_refs,
            res.idempotency_key is None,
            res.dedupe_key is None,
            res.checkpoint_ref == base.checkpoint_ref,
            res.event_index.indexes(base, event_family@, event_kind@),
            res.event_index.subject_ref == subject_ref,
            res.event_index.related_refs@ == related_refs@,
            res.payload == payload,
    {
        let mut event_index = base.event_index(event_family, event_kind);
        event_index.subject_ref = subject_ref.clone();
        let index_related = related_refs.clone();
        proof {
            assert(index_related@ =~= related_refs@);
        }
        event_index.related_refs = index_related;
        JournalRecord {
            journal_schema_version: JOURNAL_SCHEMA_VERSION,
            journal_seq: base.journal_seq,
            record_id: base.record_id,
            record_kind,
            run_id: base.run_id,
            session_id: base.session_id,
            agent_id: base.agent_id,
            turn_id: base.turn_id,
            attempt_id: base.attempt_id,
            subject_ref,
            related_refs,
            causal_refs: base.causal_refs,
            source: base.source,
            destination: base.destination,
            correlation_keys: Vec::new(),
            tags: base.tags,
            delivery_semantics: "journal_backed".to_string(),
            event_index,
            timestamp_millis: base.timestamp_millis,
            runtime_package_fingerprint: base.runtime_package_fingerprint,
            privacy: base.privacy,
            content_refs,
            redaction_policy_id: base.redaction_policy_id,
            idempotency_key: None,
            dedupe_key: None,
            checkpoint_ref: base.checkpoint_ref,
            payload,
        }
    }
}

impl RunCheckpoint {
    /// A checkpoint may not cover journal records past the latest committed one.
    pub fn validate_against_latest_seq(&self, latest_journal_seq: u64) -> (res: Result<(), AgentError>)
        ensures
            res is Ok <==> self.covers_journal_seq <= latest_journal_seq,
            res is Err ==> res->Err_0.is_contract_violation(
                "checkpoint covers_journal_seq cannot point past latest committed journal record"@,
            ),
    {
        if self.covers_journal_seq > latest_journal_seq {
            return Err(AgentError::contract_violation(
                "checkpoint covers_journal_seq cannot point past latest committed journal record",
            ));
        }
        Ok(())
    }
}

impl EventIndexProjection {
    /// Whether this index has exactly the given lineage, family, kind, endpoints, privacy
    /// and tags, and no correlation keys.
    pub open spec fn describes(
        &self,
        run_id: RunId,
        session_id: Option<SessionId>,
        agent_id: AgentId,
        turn_id: Option<TurnId>,
        event_family: Seq<char>,
        event_kind: Seq<char>,
        source: SourceRef,
        destination: Option<DestinationRef>,
        privacy: PrivacyClass,
        tags: Seq<Seq<char>>,
    ) -> bool {
        &&& self.run_id == run_id
        &&& self.session_id == session_id
        &&& self.agent_id == agent_id
        &&& self.turn_id == turn_id
        &&& self.event_family@ == event_family
        &&& self.event_kind@ == event_kind
        &&& self.source == source
        &&& self.destination == destination
        &&& self.correlation_keys@.len() == 0
        &&& crate::text::string_views(self.tags@) == tags
        &&& self.privacy_class == privacy
        &&& self.delivery_semantics@ == "journal_backed"@
    }
}

impl JournalRecord {
    /// Whether this record has the given sequence number, id, run and agent, no session,
    /// turn, attempt, causal refs, correlation keys or checkpoint, timestamp zero, and the
    /// given fingerprint, privacy and redaction policy.
    pub open spec fn has_lineage(
        &self,
        journal_seq: int,
        record_id: Seq<char>,
        run_id: RunId,
        agent_id: AgentId,
        runtime_package_fingerprint: Seq<char>,
        privacy: PrivacyClass,
        redaction_policy_id: Seq<char>,
    ) -> bool {
        &&& self.journal_schema_version == JOURNAL_SCHEMA_VERSION
        &&& self.journal_seq == journal_seq
        &&& self.record_id@ == record_id
        &&& self.run_id == run_id
        &&& self.session_id is None
        &&& self.agent_id == agent_id
        &&& self.turn_id is None
        &&& self.attempt_id is None
        &&& self.causal_refs@.len() == 0
        &&& self.correlation_keys@.len() == 0
        &&& self.delivery_semantics@ == "journal_backed"@
        &&& self.timestamp_millis == 0
        &&& self.runtime_package_fingerprint@ == runtime_package_fingerprint
        &&& self.privacy == privacy
        &&& self.redaction_policy_id@ == redaction_policy_id
        &&& self.checkpoint_ref is None
    }
}

/// The kinds and identifier texts of a list of entity references.
pub open spec fn entity_views(refs: Seq<EntityRef>) -> Seq<(EntityKind, Seq<char>)> {
    refs.map_values(|r: EntityRef| (r.kind, r.id@))
}

/// Content entity views of a list of content references.
pub open spec fn content_entity_views(refs: Seq<ContentRefId>) -> Seq<(EntityKind, Seq<char>)> {
    refs.map_values(|c: ContentRefId| (EntityKind::Content, c@))
}

/// Appends a content entity reference for each of `refs` to `out`.
pub(crate) fn push_content_entities(out: &mut Vec<EntityRef>, refs: &Vec<ContentRefId>)
    ensures
        entity_views(final(out)@) == entity_views(old(out)@) + content_entity_views(refs@),
{
    let ghost start = entity_views(out@);
    let mut i: usize = 0;
    while i < refs.len()
        invariant
            0 <= i <= refs@.len(),
            entity_views(out@) == start + content_entity_views(refs@.take(i as int)),
        decreases refs@.len() - i,
    {
        let ghost prev = out@;
        let entity = EntityRef::new(EntityKind::Content, refs[i].as_str());
        out.push(entity);
        proof {
            assert(entity_views(out@) =~= entity_views(prev).push((EntityKind::Content, refs@[i as int]@)));
            assert(content_entity_views(refs@.take(i + 1)) =~= content_entity_views(refs@.take(i as int)).push(
                (EntityKind::Content, refs@[i as int]@),
            ));
            assert(entity_views(out@) =~= start + content_entity_views(refs@.take(i + 1)));
        }
        i = i + 1;
    }
    proof {
        assert(refs@.take(refs@.len() as int) =~= refs@);
    }
}

/// `a` followed by `b`, cloned.
pub(crate) fn concat_content_refs(a: &Vec<ContentRefId>, b: &Vec<ContentRefId>) -> (res: Vec<ContentRefId>)
    ensures
        res@ == a@ + b@,
{
    let mut out = a.clone();
    proof {
        assert(out@ =~= a@);
    }
    let mut i: usize = 0;
    while i < b.len()
        invariant
            0 <= i <= b@.len(),
            out@ == a@ + b@.take(i as int),
        decreases b@.len() - i,
    {
        out.push(b[i].clone());
        proof {
            assert(out@ =~= a@ + b@.take(i + 1));
        }
        i = i + 1;
    }
    proof {
        assert(b@.take(b@.len() as int) =~= b@);
    }
    out
}

} // verus!
