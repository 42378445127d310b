use vstd::prelude::*;
use crate::domain::{AgentError, AgentId, ArchiveCursorId, AttemptId, ContextItemId, CorrelationEntry, CorrelationKey, DestinationKind, DestinationRef, EntityKind, EntityRef, EventId, JournalCursor, MessageId, PolicyRef, PrivacyClass, RunId, SourceKind, SourceRef, SpanId, TraceId, TurnId, ValueEq};
use crate::hashing::{sha256_digest_spec, sha256_fingerprint, sha256_fingerprint_spec, sha256_hex};
use crate::text::{concat2, concat3, hex_lower};

verus! {

/// Family of an event.
#[derive(Clone, Copy, Debug, PartialEq, Eq, Structural)]
pub enum EventFamily {
    Run,
    Turn,
    Message,
    Model,
    Tool,
    Approval,
    Hook,
    Context,
    StreamRule,
    Realtime,
    Isolation,
    ChildLifecycle,
    AgentPool,
    Subagent,
    Extension,
    StructuredOutput,
    Output,
    OutputDelivery,
    Telemetry,
    Recovery,
}

impl crate::domain::ValueEq for EventFamily {
    open spec fn value_eq(&self, other: &Self) -> bool {
        *self == *other
    }

    fn equals(&self, other: &Self) -> (r: bool) {
        *self == *other
    }
}

impl EventFamily {
    /// The variant name, as the derived `Debug` output spells it.
    pub open spec fn debug_name_spec(self) -> Seq<char> {
        match self {
            EventFamily::Run => "Run"@,
            EventFamily::Turn => "Turn"@,
            EventFamily::Message => "Message"@,
            EventFamily::Model => "Model"@,
            EventFamily::Tool => "Tool"@,
            EventFamily::Approval => "Approval"@,
            EventFamily::Hook => "Hook"@,
            EventFamily::Context => "Context"@,
            EventFamily::StreamRule => "StreamRule"@,
            EventFamily::Realtime => "Realtime"@,
            EventFamily::Isolation => "Isolation"@,
            EventFamily::ChildLifecycle => "ChildLifecycle"@,
            EventFamily::AgentPool => "AgentPool"@,
            EventFamily::Subagent => "Subagent"@,
            EventFamily::Extension => "Extension"@,
            EventFamily::StructuredOutput => "StructuredOutput"@,
            EventFamily::Output => "Output"@,
            EventFamily::OutputDelivery => "OutputDelivery"@,
            EventFamily::Telemetry => "Telemetry"@,
            EventFamily::Recovery => "Recovery"@,
        }
    }

    /// Returns the variant name, as the derived `Debug` output spells it.
    pub fn debug_name(&self) -> (res: &'static str)
        ensures
            res@ == self.debug_name_spec(),
    {
        match self {
            EventFamily::Run => "Run",
            EventFamily::Turn => "Turn",
            EventFamily::Message => "Message",
            EventFamily::Model => "Model",
            EventFamily::Tool => "Tool",
            EventFamily::Approval => "Approval",
            EventFamily::Hook => "Hook",
            EventFamily::Context => "Context",
            EventFamily::StreamRule => "StreamRule",
            EventFamily::Realtime => "Realtime",
            EventFamily::Isolation => "Isolation",
            EventFamily::ChildLifecycle => "ChildLifecycle",
            EventFamily::AgentPool => "AgentPool",
            EventFamily::Subagent => "Subagent",
            EventFamily::Extension => "Extension",
            EventFamily::StructuredOutput => "StructuredOutput",
            EventFamily::Output => "Output",
            EventFamily::OutputDelivery => "OutputDelivery",
            EventFamily::Telemetry => "Telemetry",
            EventFamily::Recovery => "Recovery",
        }
    }
}

/// Kind of an event.
#[derive(Clone, Copy, Debug, PartialEq, Eq, Structural)]
pub enum EventKind {
    RunStarted,
    RunCompleted,
    RunFailed,
    RunCancelled,
    RunCheckpointed,
    RunCancelRequested,
    RunResumeRequested,
    RunResumeFailed,
    TurnStarted,
    TurnCompleted,
    TurnFailed,
    MessageAccepted,
    MessageCommitted,
    ProviderRequestProjected,
    ModelAttemptStarted,
    ModelStreamDelta,
    ModelMessageCompleted,
    ModelAttemptFailed,
    ToolRequested,
    ToolStarted,
    ToolCompleted,
    ToolFailed,
    ToolDenied,
    ToolRecoveryRequired,
    ApprovalRequested,
    ApprovalDispatched,
    ApprovalDispatchUnavailable,
    ApprovalResponded,
    ApprovalDenied,
    ApprovalTimedOut,
    ApprovalCancelled,
    HookRegistered,
    HookInvoked,
    HookCompleted,
    HookFailed,
    HookTimedOut,
    HookCancelled,
    HookResponseApplied,
    HookResponseRejected,
    ContextAssembled,
    StreamRuleRegistered,
    StreamRuleCompileFailed,
    StreamRuleMatched,
    StreamInterventionRequested,
    StreamInterventionApplied,
    StreamRuleRepeatStateRecorded,
    RealtimeConnectRequested,
    RealtimeConnected,
    RealtimeInputSendRequested,
    RealtimeInputSent,
    RealtimeOutputReceiveRequested,
    RealtimeOutputReceived,
    RealtimeInterrupted,
    RealtimeRestartRequested,
    RealtimeRestartStarted,
    RealtimeRestartCompleted,
    RealtimeRestartFailed,
    RealtimeCloseRequested,
    RealtimeClosed,
    RealtimeBackpressureApplied,
    IsolationRequested,
    IsolationAdapterHealthChecked,
    IsolationCapabilityMatched,
    IsolationDowngradeDenied,
    IsolationDowngradeApproved,
    IsolationEnvironmentPrepared,
    IsolationProcessStarted,
    IsolationProcessIoCaptured,
    IsolationProcessStatsRecorded,
    IsolationCleanupStarted,
    IsolationCleanupCompleted,
    IsolationCleanupFailed,
    IsolationFailed,
    ChildLifecycleRequested,
    ChildLifecycleCompleted,
    ChildLifecycleDetached,
    SubagentStarted,
    SubagentHandoff,
    SubagentEventWrapped,
    SubagentUsageRolledUp,
    SubagentCompleted,
    ExtensionActionSubmitted,
    ExtensionActionStarted,
    ExtensionActionCompleted,
    ExtensionActionFailed,
    ExtensionActionDenied,
    OutputDispatchRequested,
    OutputDispatchCompleted,
    OutputDispatchFailed,
    OutputDispatchDeduped,
    StructuredOutputRequested,
    StructuredOutputValidationStarted,
    StructuredOutputValidationFailed,
    StructuredOutputRepairRequested,
    StructuredOutputValidated,
    StructuredOutputFailed,
    TelemetrySinkFailed,
    TelemetrySinkRecovered,
    UsageRecorded,
    CostEstimated,
    CostCorrected,
    ReplayStarted,
    ReplayCompleted,
    ReplayFailed,
    AgentPoolCreated,
    AgentPoolRunJoined,
    AgentPoolRunLeft,
    RunMessageAccepted,
    RunMessageDelivered,
    RunMessageResponded,
    RunMessageFailed,
    RunMessageTimedOut,
    RunMessageExpired,
    RunMessageCancelled,
    WakeConditionRegistered,
    WakeConditionTriggered,
    WakeConditionTimedOut,
    WakeConditionCancelled,
    WakeConditionFailed,
}

impl crate::domain::ValueEq for EventKind {
    open spec fn value_eq(&self, other: &Self) -> bool {
        *self == *other
    }

    fn equals(&self, other: &Self) -> (r: bool) {
        *self == *other
    }
}

impl EventKind {
    /// The variant name, as the derived `Debug` output spells it.
    pub open spec fn debug_name_spec(self) -> Seq<char> {
        match self {
            EventKind::RunStarted => "RunStarted"@,
            EventKind::RunCompleted => "RunCompleted"@,
            EventKind::RunFailed => "RunFailed"@,
            EventKind::RunCancelled => "RunCancelled"@,
            EventKind::RunCheckpointed => "RunCheckpointed"@,
            EventKind::RunCancelRequested => "RunCancelRequested"@,
            EventKind::RunResumeRequested => "RunResumeRequested"@,
            EventKind::RunResumeFailed => "RunResumeFailed"@,
            EventKind::TurnStarted => "TurnStarted"@,
            EventKind::TurnCompleted => "TurnCompleted"@,
            EventKind::TurnFailed => "TurnFailed"@,
            EventKind::MessageAccepted => "MessageAccepted"@,
            EventKind::MessageCommitted => "MessageCommitted"@,
            EventKind::ProviderRequestProjected => "ProviderRequestProjected"@,
            EventKind::ModelAttemptStarted => "ModelAttemptStarted"@,
            EventKind::ModelStreamDelta => "ModelStreamDelta"@,
            EventKind::ModelMessageCompleted => "ModelMessageCompleted"@,
            EventKind::ModelAttemptFailed => "ModelAttemptFailed"@,
            EventKind::ToolRequested => "ToolRequested"@,
            EventKind::ToolStarted => "ToolStarted"@,
            EventKind::ToolCompleted => "ToolCompleted"@,
            EventKind::ToolFailed => "ToolFailed"@,
            EventKind::ToolDenied => "ToolDenied"@,
            EventKind::ToolRecoveryRequired => "ToolRecoveryRequired"@,
            EventKind::ApprovalRequested => "ApprovalRequested"@,
            EventKind::ApprovalDispatched => "ApprovalDispatched"@,
            EventKind::ApprovalDispatchUnavailable => "ApprovalDispatchUnavailable"@,
            EventKind::ApprovalResponded => "ApprovalResponded"@,
            EventKind::ApprovalDenied => "ApprovalDenied"@,
            EventKind::ApprovalTimedOut => "ApprovalTimedOut"@,
            EventKind::ApprovalCancelled => "ApprovalCancelled"@,
            EventKind::HookRegistered => "HookRegistered"@,
            EventKind::HookInvoked => "HookInvoked"@,
            EventKind::HookCompleted => "HookCompleted"@,
            EventKind::HookFailed => "HookFailed"@,
            EventKind::HookTimedOut => "HookTimedOut"@,
            EventKind::HookCancelled => "HookCancelled"@,
            EventKind::HookResponseApplied => "HookResponseApplied"@,
            EventKind::HookResponseRejected => "HookResponseRejected"@,
            EventKind::ContextAssembled => "ContextAssembled"@,
            EventKind::StreamRuleRegistered => "StreamRuleRegistered"@,
            EventKind::StreamRuleCompileFailed => "StreamRuleCompileFailed"@,
            EventKind::StreamRuleMatched => "StreamRuleMatched"@,
            EventKind::StreamInterventionRequested => "StreamInterventionRequested"@,
            EventKind::StreamInterventionApplied => "StreamInterventionApplied"@,
            EventKind::StreamRuleRepeatStateRecorded => "StreamRuleRepeatStateRecorded"@,
            EventKind::RealtimeConnectRequested => "RealtimeConnectRequested"@,
            EventKind::RealtimeConnected => "RealtimeConnected"@,
            EventKind::RealtimeInputSendRequested => "RealtimeInputSendRequested"@,
            EventKind::RealtimeInputSent => "RealtimeInputSent"@,
            EventKind::RealtimeOutputReceiveRequested => "RealtimeOutputReceiveRequested"@,
            EventKind::RealtimeOutputReceived => "RealtimeOutputReceived"@,
            EventKind::RealtimeInterrupted => "RealtimeInterrupted"@,
            EventKind::RealtimeRestartRequested => "RealtimeRestartRequested"@,
            EventKind::RealtimeRestartStarted => "RealtimeRestartStarted"@,
            EventKind::RealtimeRestartCompleted => "RealtimeRestartCompleted"@,
            EventKind::RealtimeRestartFailed => "RealtimeRestartFailed"@,
            EventKind::RealtimeCloseRequested => "RealtimeCloseRequested"@,
            EventKind::RealtimeClosed => "RealtimeClosed"@,
            EventKind::RealtimeBackpressureApplied => "RealtimeBackpressureApplied"@,
            EventKind::IsolationRequested => "IsolationRequested"@,
            EventKind::IsolationAdapterHealthChecked => "IsolationAdapterHealthChecked"@,
            EventKind::IsolationCapabilityMatched => "IsolationCapabilityMatched"@,
            EventKind::IsolationDowngradeDenied => "IsolationDowngradeDenied"@,
            EventKind::IsolationDowngradeApproved => "IsolationDowngradeApproved"@,
            EventKind::IsolationEnvironmentPrepared => "IsolationEnvironmentPrepared"@,
            EventKind::IsolationProcessStarted => "IsolationProcessStarted"@,
            EventKind::IsolationProcessIoCaptured => "IsolationProcessIoCaptured"@,
            EventKind::IsolationProcessStatsRecorded => "IsolationProcessStatsRecorded"@,
            EventKind::IsolationCleanupStarted => "IsolationCleanupStarted"@,
            EventKind::IsolationCleanupCompleted => "IsolationCleanupCompleted"@,
            EventKind::IsolationCleanupFailed => "IsolationCleanupFailed"@,
            EventKind::IsolationFailed => "IsolationFailed"@,
            EventKind::ChildLifecycleRequested => "ChildLifecycleRequested"@,
            EventKind::ChildLifecycleCompleted => "ChildLifecycleCompleted"@,
            EventKind::ChildLifecycleDetached => "ChildLifecycleDetached"@,
            EventKind::SubagentStarted => "SubagentStarted"@,
            EventKind::SubagentHandoff => "SubagentHandoff"@,
            EventKind::SubagentEventWrapped => "SubagentEventWrapped"@,
            EventKind::SubagentUsageRolledUp => "SubagentUsageRolledUp"@,
            EventKind::SubagentCompleted => "SubagentCompleted"@,
            EventKind::ExtensionActionSubmitted => "ExtensionActionSubmitted"@,
            EventKind::ExtensionActionStarted => "ExtensionActionStarted"@,
            EventKind::ExtensionActionCompleted => "ExtensionActionCompleted"@,
            EventKind::ExtensionActionFailed => "ExtensionActionFailed"@,
            EventKind::ExtensionActionDenied => "ExtensionActionDenied"@,
            EventKind::OutputDispatchRequested => "OutputDispatchRequested"@,
            EventKind::OutputDispatchCompleted => "OutputDispatchCompleted"@,
            EventKind::OutputDispatchFailed => "OutputDispatchFailed"@,
            EventKind::OutputDispatchDeduped => "OutputDispatchDeduped"@,
            EventKind::StructuredOutputRequested => "StructuredOutputRequested"@,
            EventKind::StructuredOutputValidationStarted => "StructuredOutputValidationStarted"@,
            EventKind::StructuredOutputValidationFailed => "StructuredOutputValidationFailed"@,
            EventKind::StructuredOutputRepairRequested => "StructuredOutputRepairRequested"@,
            EventKind::StructuredOutputValidated => "StructuredOutputValidated"@,
            EventKind::StructuredOutputFailed => "StructuredOutputFailed"@,
            EventKind::TelemetrySinkFailed => "TelemetrySinkFailed"@,
            EventKind::TelemetrySinkRecovered => "TelemetrySinkRecovered"@,
            EventKind::UsageRecorded => "UsageRecorded"@,
            EventKind::CostEstimated => "CostEstimated"@,
            EventKind::CostCorrected => "CostCorrected"@,
            EventKind::ReplayStarted => "ReplayStarted"@,
            EventKind::ReplayCompleted => "ReplayCompleted"@,
            EventKind::ReplayFailed => "ReplayFailed"@,
            EventKind::AgentPoolCreated => "AgentPoolCreated"@,
            EventKind::AgentPoolRunJoined => "AgentPoolRunJoined"@,
            EventKind::AgentPoolRunLeft => "AgentPoolRunLeft"@,
            EventKind::RunMessageAccepted => "RunMessageAccepted"@,
            EventKind::RunMessageDelivered => "RunMessageDelivered"@,
            EventKind::RunMessageResponded => "RunMessageResponded"@,
            EventKind::RunMessageFailed => "RunMessageFailed"@,
            EventKind::RunMessageTimedOut => "RunMessageTimedOut"@,
            EventKind::RunMessageExpired => "RunMessageExpired"@,
            EventKind::RunMessageCancelled => "RunMessageCancelled"@,
            EventKind::WakeConditionRegistered => "WakeConditionRegistered"@,
            EventKind::WakeConditionTriggered => "WakeConditionTriggered"@,
            EventKind::WakeConditionTimedOut => "WakeConditionTimedOut"@,
            EventKind::WakeConditionCancelled => "WakeConditionCancelled"@,
            EventKind::WakeConditionFailed => "WakeConditionFailed"@,
        }
    }

    /// Returns the variant name, as the derived `Debug` output spells it.
    pub fn debug_name(&self) -> (res: &'static str)
        ensures
            res@ == self.debug_name_spec(),
    {
        match self {
            EventKind::RunStarted => "RunStarted",
            EventKind::RunCompleted => "RunCompleted",
            EventKind::RunFailed => "RunFailed",
            EventKind::RunCancelled => "RunCancelled",
            EventKind::RunCheckpointed => "RunCheckpointed",
            EventKind::RunCancelRequested => "RunCancelRequested",
            EventKind::RunResumeRequested => "RunResumeRequested",
            EventKind::RunResumeFailed => "RunResumeFailed",
            EventKind::TurnStarted => "TurnStarted",
            EventKind::TurnCompleted => "TurnCompleted",
            EventKind::TurnFailed => "TurnFailed",
            EventKind::MessageAccepted => "MessageAccepted",
            EventKind::MessageCommitted => "MessageCommitted",
            EventKind::ProviderRequestProjected => "ProviderRequestProjected",
            EventKind::ModelAttemptStarted => "ModelAttemptStarted",
            EventKind::ModelStreamDelta => "ModelStreamDelta",
            EventKind::ModelMessageCompleted => "ModelMessageCompleted",
            EventKind::ModelAttemptFailed => "ModelAttemptFailed",
            EventKind::ToolRequested => "ToolRequested",
            EventKind::ToolStarted => "ToolStarted",
            EventKind::ToolCompleted => "ToolCompleted",
            EventKind::ToolFailed => "ToolFailed",
            EventKind::ToolDenied => "ToolDenied",
            EventKind::ToolRecoveryRequired => "ToolRecoveryRequired",
            EventKind::ApprovalRequested => "ApprovalRequested",
            EventKind::ApprovalDispatched => "ApprovalDispatched",
            EventKind::ApprovalDispatchUnavailable => "ApprovalDispatchUnavailable",
            EventKind::ApprovalResponded => "ApprovalResponded",
            EventKind::ApprovalDenied => "ApprovalDenied",
            EventKind::ApprovalTimedOut => "ApprovalTimedOut",
            EventKind::ApprovalCancelled => "ApprovalCancelled",
            EventKind::HookRegistered => "HookRegistered",
            EventKind::HookInvoked => "HookInvoked",
            EventKind::HookCompleted => "HookCompleted",
            EventKind::HookFailed => "HookFailed",
            EventKind::HookTimedOut => "HookTimedOut",
            EventKind::HookCancelled => "HookCancelled",
            EventKind::HookResponseApplied => "HookResponseApplied",
            EventKind::HookResponseRejected => "HookResponseRejected",
            EventKind::ContextAssembled => "ContextAssembled",
            EventKind::StreamRuleRegistered => "StreamRuleRegistered",
            EventKind::StreamRuleCompileFailed => "StreamRuleCompileFailed",
            EventKind::StreamRuleMatched => "StreamRuleMatched",
            EventKind::StreamInterventionRequested => "StreamInterventionRequested",
            EventKind::StreamInterventionApplied => "StreamInterventionApplied",
            EventKind::StreamRuleRepeatStateRecorded => "StreamRuleRepeatStateRecorded",
            EventKind::RealtimeConnectRequested => "RealtimeConnectRequested",
            EventKind::RealtimeConnected => "RealtimeConnected",
            EventKind::RealtimeInputSendRequested => "RealtimeInputSendRequested",
            EventKind::RealtimeInputSent => "RealtimeInputSent",
            EventKind::RealtimeOutputReceiveRequested => "RealtimeOutputReceiveRequested",
            EventKind::RealtimeOutputReceived => "RealtimeOutputReceived",
            EventKind::RealtimeInterrupted => "RealtimeInterrupted",
            EventKind::RealtimeRestartRequested => "RealtimeRestartRequested",
            EventKind::RealtimeRestartStarted => "RealtimeRestartStarted",
            EventKind::RealtimeRestartCompleted => "RealtimeRestartCompleted",
            EventKind::RealtimeRestartFailed => "RealtimeRestartFailed",
            EventKind::RealtimeCloseRequested => "RealtimeCloseRequested",
            EventKind::RealtimeClosed => "RealtimeClosed",
            EventKind::RealtimeBackpressureApplied => "RealtimeBackpressureApplied",
            EventKind::IsolationRequested => "IsolationRequested",
            EventKind::IsolationAdapterHealthChecked => "IsolationAdapterHealthChecked",
            EventKind::IsolationCapabilityMatched => "IsolationCapabilityMatched",
            EventKind::IsolationDowngradeDenied => "IsolationDowngradeDenied",
            EventKind::IsolationDowngradeApproved => "IsolationDowngradeApproved",
            EventKind::IsolationEnvironmentPrepared => "IsolationEnvironmentPrepared",
            EventKind::IsolationProcessStarted => "IsolationProcessStarted",
            EventKind::IsolationProcessIoCaptured => "IsolationProcessIoCaptured",
            EventKind::IsolationProcessStatsRecorded => "IsolationProcessStatsRecorded",
            EventKind::IsolationCleanupStarted => "IsolationCleanupStarted",
            EventKind::IsolationCleanupCompleted => "IsolationCleanupCompleted",
            EventKind::IsolationCleanupFailed => "IsolationCleanupFailed",
            EventKind::IsolationFailed => "IsolationFailed",
            EventKind::ChildLifecycleRequested => "ChildLifecycleRequested",
            EventKind::ChildLifecycleCompleted => "ChildLifecycleCompleted",
            EventKind::ChildLifecycleDetached => "ChildLifecycleDetached",
            EventKind::SubagentStarted => "SubagentStarted",
            EventKind::SubagentHandoff => "SubagentHandoff",
            EventKind::SubagentEventWrapped => "SubagentEventWrapped",
            EventKind::SubagentUsageRolledUp => "SubagentUsageRolledUp",
            EventKind::SubagentCompleted => "SubagentCompleted",
            EventKind::ExtensionActionSubmitted => "ExtensionActionSubmitted",
            EventKind::ExtensionActionStarted => "ExtensionActionStarted",
            EventKind::ExtensionActionCompleted => "ExtensionActionCompleted",
            EventKind::ExtensionActionFailed => "ExtensionActionFailed",
            EventKind::ExtensionActionDenied => "ExtensionActionDenied",
            EventKind::OutputDispatchRequested => "OutputDispatchRequested",
            EventKind::OutputDispatchCompleted => "OutputDispatchCompleted",
            EventKind::OutputDispatchFailed => "OutputDispatchFailed",
            EventKind::OutputDispatchDeduped => "OutputDispatchDeduped",
            EventKind::StructuredOutputRequested => "StructuredOutputRequested",
            EventKind::StructuredOutputValidationStarted => "StructuredOutputValidationStarted",
            EventKind::StructuredOutputValidationFailed => "StructuredOutputValidationFailed",
            EventKind::StructuredOutputRepairRequested => "StructuredOutputRepairRequested",
            EventKind::StructuredOutputValidated => "StructuredOutputValidated",
            EventKind::StructuredOutputFailed => "StructuredOutputFailed",
            EventKind::TelemetrySinkFailed => "TelemetrySinkFailed",
            EventKind::TelemetrySinkRecovered => "TelemetrySinkRecovered",
            EventKind::UsageRecorded => "UsageRecorded",
            EventKind::CostEstimated => "CostEstimated",
            EventKind::CostCorrected => "CostCorrected",
            EventKind::ReplayStarted => "ReplayStarted",
            EventKind::ReplayCompleted => "ReplayCompleted",
            EventKind::ReplayFailed => "ReplayFailed",
            EventKind::AgentPoolCreated => "AgentPoolCreated",
            EventKind::AgentPoolRunJoined => "AgentPoolRunJoined",
            EventKind::AgentPoolRunLeft => "AgentPoolRunLeft",
            EventKind::RunMessageAccepted => "RunMessageAccepted",
            EventKind::RunMessageDelivered => "RunMessageDelivered",
            EventKind::RunMessageResponded => "RunMessageResponded",
            EventKind::RunMessageFailed => "RunMessageFailed",
            EventKind::RunMessageTimedOut => "RunMessageTimedOut",
            EventKind::RunMessageExpired => "RunMessageExpired",
            EventKind::RunMessageCancelled => "RunMessageCancelled",
            EventKind::WakeConditionRegistered => "WakeConditionRegistered",
            EventKind::WakeConditionTriggered => "WakeConditionTriggered",
            EventKind::WakeConditionTimedOut => "WakeConditionTimedOut",
            EventKind::WakeConditionCancelled => "WakeConditionCancelled",
            EventKind::WakeConditionFailed => "WakeConditionFailed",
        }
    }
}

/// An event: envelope and payload.
#[derive(Debug)]
pub struct AgentEvent {
    pub envelope: EventEnvelope,
    pub payload: EventPayload,
}

impl AgentEvent {
    /// Field-wise equality, with vectors compared by their contents.
    pub open spec fn same_as(&self, other: &Self) -> bool {
        &&& self.envelope.same_as(&other.envelope)
        &&& self.payload.same_as(&other.payload)
    }
}

impl Clone for AgentEvent {
    fn clone(&self) -> (res: Self)
        ensures
            res.same_as(self),
    {
        AgentEvent {
            envelope: self.envelope.clone(),
            payload: self.payload.clone(),
        }
    }
}

/// Envelope of an event with all lineage and index fields.
#[derive(Debug)]
pub struct EventEnvelope {
    pub schema_version: u16,
    pub event_id: EventId,
    pub event_seq: u64,
    pub event_family: EventFamily,
    pub event_kind: EventKind,
    pub payload_schema_version: u16,
    pub timestamp: String,
    pub recorded_at: String,
    pub run_id: RunId,
    pub agent_id: AgentId,
    pub turn_id: Option<TurnId>,
    pub attempt_id: Option<AttemptId>,
    pub message_id: Option<MessageId>,
    pub context_item_id: Option<ContextItemId>,
    pub trace_id: TraceId,
    pub span_id: SpanId,
    pub parent_event_id: Option<EventId>,
    pub caused_by: Option<CausalRef>,
    pub subject_ref: EntityRef,
    pub related_refs: Vec<EntityRef>,
    pub causal_refs: Vec<CausalRef>,
    pub correlation: EventCorrelation,
    pub tags: Vec<EventTag>,
    pub source: SourceRef,
    pub destination: Option<DestinationRef>,
    pub policy_refs: Vec<PolicyRef>,
    pub journal_cursor: Option<JournalCursor>,
    pub state_before: Option<String>,
    pub state_after: Option<String>,
    pub delivery_semantics: EventDeliverySemantics,
    pub privacy: PrivacyClass,
    pub content_capture: ContentCaptureMode,
    pub redaction_policy_id: String,
    pub runtime_package_fingerprint: String,
}

impl EventEnvelope {
    /// Field-wise equality, with vectors compared by their contents.
    pub open spec fn same_as(&self, other: &Self) -> bool {
        &&& self.schema_version == other.schema_version
        &&& self.event_id == other.event_id
        &&& self.event_seq == other.event_seq
        &&& self.event_family == other.event_family
        &&& self.event_kind == other.event_kind
        &&& self.payload_schema_version == other.payload_schema_version
        &&& self.timestamp == other.timestamp
        &&& self.recorded_at == other.recorded_at
        &&& self.run_id == other.run_id
        &&& self.agent_id == other.agent_id
        &&& self.turn_id == other.turn_id
        &&& self.attempt_id == other.attempt_id
        &&& self.message_id == other.message_id
        &&& self.context_item_id == other.context_item_id
        &&& self.trace_id == other.trace_id
        &&& self.span_id == other.span_id
        &&& self.parent_event_id == other.parent_event_id
        &&& self.caused_by == other.caused_by
        &&& self.subject_ref == other.subject_ref
        &&& self.related_refs@ == other.related_refs@
        &&& self.causal_refs@ == other.causal_refs@
        &&& self.correlation.same_as(&other.correlation)
        &&& self.tags@ == other.tags@
        &&& self.source == other.source
        &&& self.destination == other.destination
        &&& self.policy_refs@ == other.policy_refs@
        &&& self.journal_cursor == other.journal_cursor
        &&& self.state_before == other.state_before
        &&& self.state_after == other.state_after
        &&& self.delivery_semantics == other.delivery_semantics
        &&& self.privacy == other.privacy
        &&& self.content_capture == other.content_capture
        &&& self.redaction_policy_id == other.redaction_policy_id
        &&& self.runtime_package_fingerprint == other.runtime_package_fingerprint
    }
}

impl Clone for EventEnvelope {
    fn clone(&self) -> (res: Self)
        ensures
            res.same_as(self),
    {
        let related_refs_copy = self.related_refs.clone();
        proof { assert(related_refs_copy@ =~= self.related_refs@); }
        let causal_refs_copy = self.causal_refs.clone();
        proof { assert(causal_refs_copy@ =~= self.causal_refs@); }
        let tags_copy = self.tags.clone();
        proof { assert(tags_copy@ =~= self.tags@); }
        let policy_refs_copy = self.policy_refs.clone();
        proof { assert(policy_refs_copy@ =~= self.policy_refs@); }
        EventEnvelope {
            schema_version: self.schema_version,
            event_id: self.event_id.clone(),
            event_seq: self.event_seq,
            event_family: self.event_family,
            event_kind: self.event_kind,
            payload_schema_version: self.payload_schema_version,
            timestamp: self.timestamp.clone(),
            recorded_at: self.recorded_at.clone(),
            run_id: self.run_id.clone(),
            agent_id: self.agent_id.clone(),
            turn_id: self.turn_id.clone(),
            attempt_id: self.attempt_id.clone(),
            message_id: self.message_id.clone(),
            context_item_id: self.context_item_id.clone(),
            trace_id: self.trace_id.clone(),
            span_id: self.span_id.clone(),
            parent_event_id: self.parent_event_id.clone(),
            caused_by: self.caused_by.clone(),
            subject_ref: self.subject_ref.clone(),
            related_refs: related_refs_copy,
            causal_refs: causal_refs_copy,
            correlation: self.correlation.clone(),
            tags: tags_copy,
            source: self.source.clone(),
            destination: self.destination.clone(),
            policy_refs: policy_refs_copy,
            journal_cursor: self.journal_cursor.clone(),
            state_before: self.state_before.clone(),
            state_after: self.state_after.clone(),
            delivery_semantics: self.delivery_semantics,
            privacy: self.privacy,
            content_capture: self.content_capture,
            redaction_policy_id: self.redaction_policy_id.clone(),
            runtime_package_fingerprint: self.runtime_package_fingerprint.clone(),
        }
    }
}

/// Payload of an event.
#[derive(Debug)]
pub enum EventPayload {
    EnvelopeOnly,
    RedactedSummary { redacted_summary: String, payload_refs: Vec<EntityRef> },
}

impl EventPayload {
    /// Variant-wise equality, with vectors compared by their contents.
    pub open spec fn same_as(&self, other: &Self) -> bool {
        match (*self, *other) {
            (EventPayload::EnvelopeOnly, EventPayload::EnvelopeOnly) => (true),
            (EventPayload::RedactedSummary{ redacted_summary: a_redacted_summary, payload_refs: a_payload_refs }, EventPayload::RedactedSummary{ redacted_summary: b_redacted_summary, payload_refs: b_payload_refs }) => (a_redacted_summary == b_redacted_summary) && (a_payload_refs@ == b_payload_refs@),
            _ => false,
        }
    }
}

impl Clone for EventPayload {
    fn clone(&self) -> (res: Self)
        ensures
            res.same_as(self),
    {
        match self {
            EventPayload::EnvelopeOnly => EventPayload::EnvelopeOnly,
            EventPayload::RedactedSummary { redacted_summary, payload_refs } => { let payload_refs_copy = payload_refs.clone(); proof { assert(payload_refs_copy@ =~= payload_refs@); } EventPayload::RedactedSummary { redacted_summary: redacted_summary.clone(), payload_refs: payload_refs_copy } }
        }
    }
}

/// A causal link to an earlier event or entity.
#[derive(Debug)]
pub struct CausalRef {
    pub event_id: Option<EventId>,
    pub subject_ref: EntityRef,
    pub reason: Option<String>,
}

impl Clone for CausalRef {
    fn clone(&self) -> (res: Self)
        ensures
            res == *self,
    {
        CausalRef {
            event_id: self.event_id.clone(),
            subject_ref: self.subject_ref.clone(),
            reason: self.reason.clone(),
        }
    }
}

/// Correlation entries of an event.
#[derive(Debug)]
pub struct EventCorrelation {
    pub entries: Vec<CorrelationEntry>,
}

impl EventCorrelation {
    /// Field-wise equality, with vectors compared by their contents.
    pub open spec fn same_as(&self, other: &Self) -> bool {
        &&& self.entries@ == other.entries@
    }
}

impl Clone for EventCorrelation {
    fn clone(&self) -> (res: Self)
        ensures
            res.same_as(self),
    {
        let entries_copy = self.entries.clone();
        proof { assert(entries_copy@ =~= self.entries@); }
        EventCorrelation {
            entries: entries_copy,
        }
    }
}

/// A tag on an event.
#[derive(Debug)]
pub struct EventTag(String);

impl View for EventTag {
    type V = Seq<char>;

    closed spec fn view(&self) -> Seq<char> {
        self.0@
    }
}

impl Clone for EventTag {
    fn clone(&self) -> (res: Self)
        ensures
            res == *self,
    {
        EventTag(self.0.clone())
    }
}

impl crate::domain::ValueEq for EventTag {
    open spec fn value_eq(&self, other: &Self) -> bool {
        self@ == other@
    }

    fn equals(&self, other: &Self) -> (r: bool) {
        let r = self.0 == other.0;
        proof {
            assert(self@ == self.0@ && other@ == other.0@);
            assert(r == (self@ == other@));
            assert(r == self.value_eq(other));
        }
        r
    }
}

impl EventTag {
    /// Builds the identifier from its string value.
    pub fn new(value: String) -> (res: Self)
        ensures
            res@ == value@,
    {
        EventTag(value)
    }

    /// Returns the identifier text.
    pub fn as_str(&self) -> (res: &str)
        ensures
            res@ == self@,
    {
        self.0.as_str()
    }
}

/// One event as delivered to a subscriber.
#[derive(Debug)]
pub struct EventFrame {
    pub event: AgentEvent,
    pub cursor: EventCursor,
    pub archive_cursor: Option<ArchiveCursor>,
    pub overflow: Option<EventOverflowNotice>,
}

impl EventFrame {
    /// Field-wise equality, with vectors compared by their contents.
    pub open spec fn same_as(&self, other: &Self) -> bool {
        &&& self.event.same_as(&other.event)
        &&& self.cursor == other.cursor
        &&& self.archive_cursor == other.archive_cursor
        &&& self.overflow == other.overflow
    }
}

impl Clone for EventFrame {
    fn clone(&self) -> (res: Self)
        ensures
            res.same_as(self),
    {
        EventFrame {
            event: self.event.clone(),
            cursor: self.cursor.clone(),
            archive_cursor: self.archive_cursor.clone(),
            overflow: self.overflow.clone(),
        }
    }
}

/// Position of an event in a stream scope.
#[derive(Debug)]
pub struct EventCursor {
    pub scope: EventStreamScope,
    pub event_seq: u64,
    pub event_id: EventId,
    pub journal_cursor: Option<JournalCursor>,
}

impl Clone for EventCursor {
    fn clone(&self) -> (res: Self)
        ensures
            res == *self,
    {
        EventCursor {
            scope: self.scope.clone(),
            event_seq: self.event_seq,
            event_id: self.event_id.clone(),
            journal_cursor: self.journal_cursor.clone(),
        }
    }
}

/// Scope of an event stream.
#[derive(Debug)]
pub enum EventStreamScope {
    All,
    Run(RunId),
    Agent(AgentId),
    Filter { filter_id: EventFilterId, filter_fingerprint: EventFilterFingerprint },
}

impl Clone for EventStreamScope {
    fn clone(&self) -> (res: Self)
        ensures
            res == *self,
    {
        match self {
            EventStreamScope::All => EventStreamScope::All,
            EventStreamScope::Run(v0) => { EventStreamScope::Run(v0.clone()) }
            EventStreamScope::Agent(v0) => { EventStreamScope::Agent(v0.clone()) }
            EventStreamScope::Filter { filter_id, filter_fingerprint } => { EventStreamScope::Filter { filter_id: filter_id.clone(), filter_fingerprint: filter_fingerprint.clone() } }
        }
    }
}

/// Position in an event archive.
#[derive(Debug)]
pub struct ArchiveCursor {
    pub archive_id: ArchiveCursorId,
    pub position: String,
    pub event_id: Option<EventId>,
    pub watermark: Option<String>,
}

impl Clone for ArchiveCursor {
    fn clone(&self) -> (res: Self)
        ensures
            res == *self,
    {
        ArchiveCursor {
            archive_id: self.archive_id.clone(),
            position: self.position.clone(),
            event_id: self.event_id.clone(),
            watermark: self.watermark.clone(),
        }
    }
}

/// Notice that a subscriber missed events.
#[derive(Debug)]
pub struct EventOverflowNotice {
    pub policy: SubscriberOverflowPolicy,
    pub dropped_count: u64,
    pub gap_start: Option<EventCursor>,
    pub gap_end: EventCursor,
    pub repair_from: Option<JournalCursor>,
    pub terminal_preserved: bool,
    pub reason: EventOverflowReason,
}

impl Clone for EventOverflowNotice {
    fn clone(&self) -> (res: Self)
        ensures
            res == *self,
    {
        EventOverflowNotice {
            policy: self.policy,
            dropped_count: self.dropped_count,
            gap_start: self.gap_start.clone(),
            gap_end: self.gap_end.clone(),
            repair_from: self.repair_from.clone(),
            terminal_preserved: self.terminal_preserved,
            reason: self.reason,
        }
    }
}

/// Why events were dropped.
#[derive(Clone, Copy, Debug, PartialEq, Eq, Structural)]
pub enum EventOverflowReason {
    SubscriberQueueFull,
    SubscriberLagged,
    LiveBufferExpired,
    PolicyDroppedProgress,
    PolicyDroppedNonTerminal,
}

impl crate::domain::ValueEq for EventOverflowReason {
    open spec fn value_eq(&self, other: &Self) -> bool {
        *self == *other
    }

    fn equals(&self, other: &Self) -> (r: bool) {
        *self == *other
    }
}

/// Delivery guarantee of an event.
#[derive(Clone, Copy, Debug, PartialEq, Eq, Structural)]
pub enum EventDeliverySemantics {
    BestEffortLive,
    JournalBacked,
    DerivedReplay,
    DiagnosticOnly,
}

impl crate::domain::ValueEq for EventDeliverySemantics {
    open spec fn value_eq(&self, other: &Self) -> bool {
        *self == *other
    }

    fn equals(&self, other: &Self) -> (r: bool) {
        *self == *other
    }
}

/// How much content an event captures.
#[derive(Clone, Copy, Debug, PartialEq, Eq, Structural)]
pub enum ContentCaptureMode {
    Off,
    MetadataOnly,
    RedactedSummary,
    PayloadRefs,
    RawContent,
}

impl crate::domain::ValueEq for ContentCaptureMode {
    open spec fn value_eq(&self, other: &Self) -> bool {
        *self == *other
    }

    fn equals(&self, other: &Self) -> (r: bool) {
        *self == *other
    }
}

/// How much payload a subscriber may read.
#[derive(Clone, Copy, Debug, PartialEq, Eq, Structural)]
pub enum PayloadAccessMode {
    EnvelopeOnly,
    RedactedSummary,
    PayloadRefs,
    FullPayloadIfPolicyAllows,
}

impl crate::domain::ValueEq for PayloadAccessMode {
    open spec fn value_eq(&self, other: &Self) -> bool {
        *self == *other
    }

    fn equals(&self, other: &Self) -> (r: bool) {
        *self == *other
    }
}

/// What a full subscriber queue does.
#[derive(Clone, Copy, Debug, PartialEq, Eq, Structural)]
pub enum SubscriberOverflowPolicy {
    DropNonTerminal,
    DropProgress,
    SummarizeAndContinue,
    BackpressureCaller,
    FailSubscriber,
}

impl crate::domain::ValueEq for SubscriberOverflowPolicy {
    open spec fn value_eq(&self, other: &Self) -> bool {
        *self == *other
    }

    fn equals(&self, other: &Self) -> (r: bool) {
        *self == *other
    }
}

/// Queue configuration of a subscriber; capacity and terminal reserve are positive.
#[derive(Clone, Copy, Debug, PartialEq, Eq, Structural)]
pub struct SubscriberQueueConfig {
    pub capacity: usize,
    pub terminal_reserve: usize,
    pub overflow: SubscriberOverflowPolicy,
}

/// Criteria of an event subscription.
#[derive(Clone, Debug)]
pub struct EventFilter {
    pub run_ids: EventFilterSet<RunId>,
    pub agent_ids: EventFilterSet<AgentId>,
    pub turn_ids: EventFilterSet<TurnId>,
    pub families: EventFilterSet<EventFamily>,
    pub kinds: EventFilterSet<EventKind>,
    pub source_kinds: EventFilterSet<SourceKind>,
    pub destination_kinds: EventFilterSet<DestinationKind>,
    pub subject_kinds: EventFilterSet<EntityKind>,
    pub related_entity_kinds: EventFilterSet<EntityKind>,
    pub correlation_keys: EventFilterSet<CorrelationKey>,
    pub tags: EventFilterSet<EventTag>,
    pub privacy_classes: EventFilterSet<PrivacyClass>,
    pub delivery_semantics: EventFilterSet<EventDeliverySemantics>,
    pub terminal_only: bool,
    pub payload_access: PayloadAccessMode,
    pub queue: SubscriberQueueConfig,
}

/// A filter with its identity, fingerprint, and indexed fields.
#[derive(Clone, Debug)]
pub struct CompiledEventFilter {
    pub filter_id: EventFilterId,
    pub filter_fingerprint: EventFilterFingerprint,
    pub indexed_fields: Vec<EventIndexField>,
    pub payload_access: PayloadAccessMode,
    pub queue: SubscriberQueueConfig,
    pub criteria: EventFilter,
}

/// An index field a filter constrains.
#[derive(Clone, Copy, Debug, PartialEq, Eq, Structural)]
pub enum EventIndexField {
    RunId,
    AgentId,
    TurnId,
    EventFamily,
    EventKind,
    Source,
    Destination,
    SubjectKind,
    RelatedEntityKind,
    CorrelationKey,
    Tag,
    Privacy,
    DeliverySemantics,
}

impl crate::domain::ValueEq for EventIndexField {
    open spec fn value_eq(&self, other: &Self) -> bool {
        *self == *other
    }

    fn equals(&self, other: &Self) -> (r: bool) {
        *self == *other
    }
}

/// Identifier of a compiled event filter.
#[derive(Debug)]
pub struct EventFilterId(String);

impl View for EventFilterId {
    type V = Seq<char>;

    closed spec fn view(&self) -> Seq<char> {
        self.0@
    }
}

impl Clone for EventFilterId {
    fn clone(&self) -> (res: Self)
        ensures
            res == *self,
    {
        EventFilterId(self.0.clone())
    }
}

impl crate::domain::ValueEq for EventFilterId {
    open spec fn value_eq(&self, other: &Self) -> bool {
        self@ == other@
    }

    fn equals(&self, other: &Self) -> (r: bool) {
        let r = self.0 == other.0;
        proof {
            assert(self@ == self.0@ && other@ == other.0@);
            assert(r == (self@ == other@));
            assert(r == self.value_eq(other));
        }
        r
    }
}

impl EventFilterId {
    /// Builds the identifier from its string value.
    pub fn new(value: String) -> (res: Self)
        ensures
            res@ == value@,
    {
        EventFilterId(value)
    }

    /// Returns the identifier text.
    pub fn as_str(&self) -> (res: &str)
        ensures
            res@ == self@,
    {
        self.0.as_str()
    }
}

/// Fingerprint of an event filter's criteria.
#[derive(Debug)]
pub struct EventFilterFingerprint(String);

impl View for EventFilterFingerprint {
    type V = Seq<char>;

    closed spec fn view(&self) -> Seq<char> {
        self.0@
    }
}

impl Clone for EventFilterFingerprint {
    fn clone(&self) -> (res: Self)
        ensures
            res == *self,
    {
        EventFilterFingerprint(self.0.clone())
    }
}

impl crate::domain::ValueEq for EventFilterFingerprint {
    open spec fn value_eq(&self, other: &Self) -> bool {
        self@ == other@
    }

    fn equals(&self, other: &Self) -> (r: bool) {
        let r = self.0 == other.0;
        proof {
            assert(self@ == self.0@ && other@ == other.0@);
            assert(r == (self@ == other@));
            assert(r == self.value_eq(other));
        }
        r
    }
}

impl EventFilterFingerprint {
    /// Builds the identifier from its string value.
    pub fn new(value: String) -> (res: Self)
        ensures
            res@ == value@,
    {
        EventFilterFingerprint(value)
    }

    /// Returns the identifier text.
    pub fn as_str(&self) -> (res: &str)
        ensures
            res@ == self@,
    {
        self.0.as_str()
    }
}

/// Options of a subscription.
#[derive(Clone, Copy, Debug, PartialEq, Eq, Structural)]
pub struct SubscriptionOptions {
    pub queue: SubscriberQueueConfig,
    pub payload_access: PayloadAccessMode,
}

/// Either any value, or one of the listed values.
#[derive(Clone, Debug)]
pub enum EventFilterSet<T> {
    Any,
    Include(Vec<T>),
}

impl<T> Default for EventFilterSet<T> {
    /// Any value.
    fn default() -> (res: Self)
        ensures
            res is Any,
    {
        EventFilterSet::Any
    }
}

impl<T: ValueEq> EventFilterSet<T> {
    /// Whether `candidate` passes: any value does, or one equal to a listed value.
    pub open spec fn matches_spec(&self, candidate: T) -> bool {
        match self {
            EventFilterSet::Any => true,
            EventFilterSet::Include(values) => exists|i: int| 0 <= i < values@.len() && (#[trigger] values@[i]).value_eq(&candidate),
        }
    }

    /// Whether the set accepts any value.
    pub open spec fn is_any_spec(&self) -> bool {
        self is Any
    }

    /// Whether `candidate` passes the set.
    pub fn matches(&self, candidate: &T) -> (r: bool)
        ensures
            r == self.matches_spec(*candidate),
    {
        match self {
            EventFilterSet::Any => true,
            EventFilterSet::Include(values) => contains_value(values, candidate),
        }
    }

    /// Whether the set accepts any value.
    pub fn is_any(&self) -> (r: bool)
        ensures
            r == self.is_any_spec(),
    {
        match self {
            EventFilterSet::Any => true,
            EventFilterSet::Include(_) => false,
        }
    }
}

fn contains_value<T: ValueEq>(values: &Vec<T>, candidate: &T) -> (r: bool)
    ensures
        r == exists|i: int| 0 <= i < values@.len() && (#[trigger] values@[i]).value_eq(candidate),
{
    let mut i: usize = 0;
    while i < values.len()
        invariant
            0 <= i <= values@.len(),
            forall|k: int| 0 <= k < i ==> !(#[trigger] values@[k]).value_eq(candidate),
        decreases values@.len() - i,
    {
        if values[i].equals(candidate) {
            return true;
        }
        i = i + 1;
    }
    false
}

/// An optional candidate passes a set that accepts anything, or is present and passes.
pub open spec fn option_matches_spec<T: ValueEq>(filter: EventFilterSet<T>, candidate: Option<T>) -> bool {
    match filter {
        EventFilterSet::Any => true,
        EventFilterSet::Include(_) => candidate is Some && filter.matches_spec(candidate.unwrap()),
    }
}

/// A list of candidates passes a set that accepts anything, or has one that passes.
pub open spec fn any_matches_spec<T: ValueEq>(filter: EventFilterSet<T>, candidates: Seq<T>) -> bool {
    match filter {
        EventFilterSet::Any => true,
        EventFilterSet::Include(_) => exists|j: int| 0 <= j < candidates.len() && filter.matches_spec(#[trigger] candidates[j]),
    }
}

impl EventKind {
    /// Whether the event ends the life of its subject.
    pub open spec fn is_terminal_spec(self) -> bool {
        match self {
            EventKind::RunCompleted
            | EventKind::RunFailed
            | EventKind::RunCancelled
            | EventKind::TurnCompleted
            | EventKind::TurnFailed
            | EventKind::ModelMessageCompleted
            | EventKind::ModelAttemptFailed
            | EventKind::ToolCompleted
            | EventKind::ToolFailed
            | EventKind::ToolDenied
            | EventKind::ToolRecoveryRequired
            | EventKind::ApprovalResponded
            | EventKind::OutputDispatchCompleted
            | EventKind::OutputDispatchFailed
            | EventKind::OutputDispatchDeduped
            | EventKind::ApprovalDenied
            | EventKind::ApprovalTimedOut
            | EventKind::ApprovalCancelled
            | EventKind::ApprovalDispatchUnavailable
            | EventKind::HookCompleted
            | EventKind::HookFailed
            | EventKind::HookTimedOut
            | EventKind::HookCancelled
            | EventKind::HookResponseApplied
            | EventKind::HookResponseRejected
            | EventKind::RealtimeRestartFailed
            | EventKind::RealtimeClosed
            | EventKind::IsolationCleanupCompleted
            | EventKind::IsolationCleanupFailed
            | EventKind::IsolationFailed
            | EventKind::ChildLifecycleCompleted
            | EventKind::ChildLifecycleDetached
            | EventKind::SubagentCompleted
            | EventKind::ExtensionActionCompleted
            | EventKind::ExtensionActionFailed
            | EventKind::ExtensionActionDenied
            | EventKind::StructuredOutputValidated
            | EventKind::StructuredOutputFailed
            | EventKind::ReplayCompleted
            | EventKind::ReplayFailed
            | EventKind::RunMessageResponded
            | EventKind::RunMessageFailed
            | EventKind::RunMessageTimedOut
            | EventKind::RunMessageExpired
            | EventKind::RunMessageCancelled
            | EventKind::WakeConditionTriggered
            | EventKind::WakeConditionTimedOut
            | EventKind::WakeConditionCancelled
            | EventKind::WakeConditionFailed => true,
            _ => false,
        }
    }

    /// Whether the event ends the life of its subject (run, turn, attempt, call, request,
    /// dispatch, hook, session, environment, child, action, validation, replay, message or
    /// wake condition).
    pub fn is_terminal(&self) -> (r: bool)
        ensures
            r == self.is_terminal_spec(),
    {
        match self {
            EventKind::RunCompleted
            | EventKind::RunFailed
            | EventKind::RunCancelled
            | EventKind::TurnCompleted
            | EventKind::TurnFailed
            | EventKind::ModelMessageCompleted
            | EventKind::ModelAttemptFailed
            | EventKind::ToolCompleted
            | EventKind::ToolFailed
            | EventKind::ToolDenied
            | EventKind::ToolRecoveryRequired
            | EventKind::ApprovalResponded
            | EventKind::OutputDispatchCompleted
            | EventKind::OutputDispatchFailed
            | EventKind::OutputDispatchDeduped
            | EventKind::ApprovalDenied
            | EventKind::ApprovalTimedOut
            | EventKind::ApprovalCancelled
            | EventKind::ApprovalDispatchUnavailable
            | EventKind::HookCompleted
            | EventKind::HookFailed
            | EventKind::HookTimedOut
            | EventKind::HookCancelled
            | EventKind::HookResponseApplied
            | EventKind::HookResponseRejected
            | EventKind::RealtimeRestartFailed
            | EventKind::RealtimeClosed
            | EventKind::IsolationCleanupCompleted
            | EventKind::IsolationCleanupFailed
            | EventKind::IsolationFailed
            | EventKind::ChildLifecycleCompleted
            | EventKind::ChildLifecycleDetached
            | EventKind::SubagentCompleted
            | EventKind::ExtensionActionCompleted
            | EventKind::ExtensionActionFailed
            | EventKind::ExtensionActionDenied
            | EventKind::StructuredOutputValidated
            | EventKind::StructuredOutputFailed
            | EventKind::ReplayCompleted
            | EventKind::ReplayFailed
            | EventKind::RunMessageResponded
            | EventKind::RunMessageFailed
            | EventKind::RunMessageTimedOut
            | EventKind::RunMessageExpired
            | EventKind::RunMessageCancelled
            | EventKind::WakeConditionTriggered
            | EventKind::WakeConditionTimedOut
            | EventKind::WakeConditionCancelled
            | EventKind::WakeConditionFailed => true,
            _ => false,
        }
    }
}

impl AgentEvent {
    /// An event without payload.
    pub fn envelope_only(envelope: EventEnvelope) -> (res: Self)
        ensures
            res.envelope == envelope,
            res.payload is EnvelopeOnly,
    {
        AgentEvent { envelope, payload: EventPayload::EnvelopeOnly }
    }

    /// An event whose payload is a redacted summary with no payload refs.
    pub fn with_redacted_summary(envelope: EventEnvelope, redacted_summary: String) -> (res: Self)
        ensures
            res.envelope == envelope,
            res.payload matches EventPayload::RedactedSummary { redacted_summary: s, payload_refs: r }
                && s == redacted_summary && r@.len() == 0,
    {
        AgentEvent { envelope, payload: EventPayload::RedactedSummary { redacted_summary, payload_refs: Vec::new() } }
    }

    /// The payload's redacted summary, if it has one.
    pub fn redacted_summary(&self) -> (res: Option<&str>)
        ensures
            match self.payload {
                EventPayload::EnvelopeOnly => res is None,
                EventPayload::RedactedSummary { redacted_summary, .. } => res is Some && res.unwrap()@ == redacted_summary@,
            },
    {
        match &self.payload {
            EventPayload::EnvelopeOnly => None,
            EventPayload::RedactedSummary { redacted_summary, .. } => Some(redacted_summary.as_str()),
        }
    }
}

impl EventEnvelope {
    /// The cursor of this event in `scope`.
    pub fn cursor(&self, scope: EventStreamScope) -> (res: EventCursor)
        ensures
            res.scope == scope,
            res.event_seq == self.event_seq,
            res.event_id == self.event_id,
            res.journal_cursor == self.journal_cursor,
    {
        EventCursor {
            scope,
            event_seq: self.event_seq,
            event_id: self.event_id.clone(),
            journal_cursor: self.journal_cursor.clone(),
        }
    }

    /// `<family>/<kind>`, by variant names.
    pub fn redacted_summary(&self) -> (res: String)
        ensures
            res@ == self.event_family.debug_name_spec() + "/"@ + self.event_kind.debug_name_spec(),
    {
        concat3(self.event_family.debug_name(), "/", self.event_kind.debug_name())
    }
}

impl Default for EventCorrelation {
    /// No entries.
    fn default() -> (res: Self)
        ensures
            res.entries@.len() == 0,
    {
        EventCorrelation { entries: Vec::new() }
    }
}

impl SubscriberQueueConfig {
    /// Capacity and terminal reserve are positive.
    pub open spec fn wf(&self) -> bool {
        self.capacity > 0 && self.terminal_reserve > 0
    }
}

impl Default for SubscriberQueueConfig {
    /// Capacity 64, one slot reserved for terminal events, dropping non-terminal events.
    fn default() -> (res: Self)
        ensures
            res.capacity == 64,
            res.terminal_reserve == 1,
            res.overflow == SubscriberOverflowPolicy::DropNonTerminal,
            res.wf(),
    {
        SubscriberQueueConfig { capacity: 64, terminal_reserve: 1, overflow: SubscriberOverflowPolicy::DropNonTerminal }
    }
}

impl Default for SubscriptionOptions {
    /// The default queue, envelope-only access.
    fn default() -> (res: Self)
        ensures
            res.queue.capacity == 64,
            res.queue.terminal_reserve == 1,
            res.queue.overflow == SubscriberOverflowPolicy::DropNonTerminal,
            res.payload_access == PayloadAccessMode::EnvelopeOnly,
    {
        SubscriptionOptions { queue: SubscriberQueueConfig::default(), payload_access: PayloadAccessMode::EnvelopeOnly }
    }
}

/// `seq![field]` when `cond` holds, empty otherwise.
pub open spec fn field_if(cond: bool, field: EventIndexField) -> Seq<EventIndexField> {
    if cond {
        seq![field]
    } else {
        Seq::empty()
    }
}

fn push_field_if(fields: &mut Vec<EventIndexField>, cond: bool, field: EventIndexField)
    ensures
        final(fields)@ == old(fields)@ + field_if(cond, field),
{
    if cond {
        fields.push(field);
        proof {
            assert(fields@ =~= old(fields)@ + field_if(cond, field));
        }
    } else {
        proof {
            assert(fields@ =~= old(fields)@ + field_if(cond, field));
        }
    }
}

impl Default for EventFilter {
    /// Every event passes; envelope-only access; the default queue.
    fn default() -> (res: Self)
        ensures
            res.run_ids is Any,
            res.agent_ids is Any,
            res.turn_ids is Any,
            res.families is Any,
            res.kinds is Any,
            res.source_kinds is Any,
            res.destination_kinds is Any,
            res.subject_kinds is Any,
            res.related_entity_kinds is Any,
            res.correlation_keys is Any,
            res.tags is Any,
            res.privacy_classes is Any,
            res.delivery_semantics is Any,
            !res.terminal_only,
            res.payload_access == PayloadAccessMode::EnvelopeOnly,
            res.queue.capacity == 64,
            res.queue.terminal_reserve == 1,
            res.queue.overflow == SubscriberOverflowPolicy::DropNonTerminal,
    {
        EventFilter {
            run_ids: EventFilterSet::Any,
            agent_ids: EventFilterSet::Any,
            turn_ids: EventFilterSet::Any,
            families: EventFilterSet::Any,
            kinds: EventFilterSet::Any,
            source_kinds: EventFilterSet::Any,
            destination_kinds: EventFilterSet::Any,
            subject_kinds: EventFilterSet::Any,
            related_entity_kinds: EventFilterSet::Any,
            correlation_keys: EventFilterSet::Any,
            tags: EventFilterSet::Any,
            privacy_classes: EventFilterSet::Any,
            delivery_semantics: EventFilterSet::Any,
            terminal_only: false,
            payload_access: PayloadAccessMode::EnvelopeOnly,
            queue: SubscriberQueueConfig::default(),
        }
    }
}

impl EventFilter {
    /// Terminal events of the run family only.
    pub fn terminal_run_events() -> (res: Self)
        ensures
            res.run_ids is Any,
            res.agent_ids is Any,
            res.turn_ids is Any,
            res.kinds is Any,
            res.source_kinds is Any,
            res.destination_kinds is Any,
            res.subject_kinds is Any,
            res.related_entity_kinds is Any,
            res.correlation_keys is Any,
            res.tags is Any,
            res.privacy_classes is Any,
            res.delivery_semantics is Any,
            res.families matches EventFilterSet::Include(v) && v@ == seq![EventFamily::Run],
            res.terminal_only,
            res.payload_access == PayloadAccessMode::EnvelopeOnly,
            res.queue.capacity == 64,
            res.queue.terminal_reserve == 1,
            res.queue.overflow == SubscriberOverflowPolicy::DropNonTerminal,
    {
        let mut families: Vec<EventFamily> = Vec::new();
        families.push(EventFamily::Run);
        proof {
            assert(families@ =~= seq![EventFamily::Run]);
        }
        let mut filter = EventFilter::default();
        filter.families = EventFilterSet::Include(families);
        filter.terminal_only = true;
        filter
    }

    /// Events of one run.
    pub fn run(run_id: RunId) -> (res: Self)
        ensures
            res.agent_ids is Any,
            res.turn_ids is Any,
            res.families is Any,
            res.kinds is Any,
            res.source_kinds is Any,
            res.destination_kinds is Any,
            res.subject_kinds is Any,
            res.related_entity_kinds is Any,
            res.correlation_keys is Any,
            res.tags is Any,
            res.privacy_classes is Any,
            res.delivery_semantics is Any,
            res.run_ids matches EventFilterSet::Include(v) && v@ == seq![run_id],
            !res.terminal_only,
            res.payload_access == PayloadAccessMode::EnvelopeOnly,
            res.queue.capacity == 64,
            res.queue.terminal_reserve == 1,
            res.queue.overflow == SubscriberOverflowPolicy::DropNonTerminal,
    {
        let mut run_ids: Vec<RunId> = Vec::new();
        run_ids.push(run_id);
        proof {
            assert(run_ids@ =~= seq![run_id]);
        }
        let mut filter = EventFilter::default();
        filter.run_ids = EventFilterSet::Include(run_ids);
        filter
    }

    /// Events of one agent.
    pub fn agent(agent_id: AgentId) -> (res: Self)
        ensures
            res.run_ids is Any,
            res.turn_ids is Any,
            res.families is Any,
            res.kinds is Any,
            res.source_kinds is Any,
            res.destination_kinds is Any,
            res.subject_kinds is Any,
            res.related_entity_kinds is Any,
            res.correlation_keys is Any,
            res.tags is Any,
            res.privacy_classes is Any,
            res.delivery_semantics is Any,
            res.agent_ids matches EventFilterSet::Include(v) && v@ == seq![agent_id],
            !res.terminal_only,
            res.payload_access == PayloadAccessMode::EnvelopeOnly,
            res.queue.capacity == 64,
            res.queue.terminal_reserve == 1,
            res.queue.overflow == SubscriberOverflowPolicy::DropNonTerminal,
    {
        let mut agent_ids: Vec<AgentId> = Vec::new();
        agent_ids.push(agent_id);
        proof {
            assert(agent_ids@ =~= seq![agent_id]);
        }
        let mut filter = EventFilter::default();
        filter.agent_ids = EventFilterSet::Include(agent_ids);
        filter
    }

    /// Compiles the filter, given the JSON encoding of its criteria.
    pub fn compile(self, encoded: &[u8]) -> (res: CompiledEventFilter)
        ensures
            res.compiles(self, encoded@),
    {
        CompiledEventFilter::new(self, encoded)
    }

    /// The index fields the filter constrains, in declaration order.
    pub open spec fn indexed_fields_spec(&self) -> Seq<EventIndexField> {
        Seq::<EventIndexField>::empty()
            + field_if(!self.run_ids.is_any_spec(), EventIndexField::RunId)
            + field_if(!self.agent_ids.is_any_spec(), EventIndexField::AgentId)
            + field_if(!self.turn_ids.is_any_spec(), EventIndexField::TurnId)
            + field_if(!self.families.is_any_spec(), EventIndexField::EventFamily)
            + field_if(!self.kinds.is_any_spec(), EventIndexField::EventKind)
            + field_if(!self.source_kinds.is_any_spec(), EventIndexField::Source)
            + field_if(!self.destination_kinds.is_any_spec(), EventIndexField::Destination)
            + field_if(!self.subject_kinds.is_any_spec(), EventIndexField::SubjectKind)
            + field_if(!self.related_entity_kinds.is_any_spec(), EventIndexField::RelatedEntityKind)
            + field_if(!self.correlation_keys.is_any_spec(), EventIndexField::CorrelationKey)
            + field_if(!self.tags.is_any_spec(), EventIndexField::Tag)
            + field_if(!self.privacy_classes.is_any_spec(), EventIndexField::Privacy)
            + field_if(!self.delivery_semantics.is_any_spec(), EventIndexField::DeliverySemantics)
    }

    /// The index fields the filter constrains, in declaration order.
    pub(crate) fn indexed_fields(&self) -> (res: Vec<EventIndexField>)
        ensures
            res@ == self.indexed_fields_spec(),
    {
        let mut fields: Vec<EventIndexField> = Vec::new();
        push_field_if(&mut fields, !self.run_ids.is_any(), EventIndexField::RunId);
        push_field_if(&mut fields, !self.agent_ids.is_any(), EventIndexField::AgentId);
        push_field_if(&mut fields, !self.turn_ids.is_any(), EventIndexField::TurnId);
        push_field_if(&mut fields, !self.families.is_any(), EventIndexField::EventFamily);
        push_field_if(&mut fields, !self.kinds.is_any(), EventIndexField::EventKind);
        push_field_if(&mut fields, !self.source_kinds.is_any(), EventIndexField::Source);
        push_field_if(&mut fields, !self.destination_kinds.is_any(), EventIndexField::Destination);
        push_field_if(&mut fields, !self.subject_kinds.is_any(), EventIndexField::SubjectKind);
        push_field_if(&mut fields, !self.related_entity_kinds.is_any(), EventIndexField::RelatedEntityKind);
        push_field_if(&mut fields, !self.correlation_keys.is_any(), EventIndexField::CorrelationKey);
        push_field_if(&mut fields, !self.tags.is_any(), EventIndexField::Tag);
        push_field_if(&mut fields, !self.privacy_classes.is_any(), EventIndexField::Privacy);
        push_field_if(&mut fields, !self.delivery_semantics.is_any(), EventIndexField::DeliverySemantics);
        fields
    }

    /// Whether an envelope passes every criterion of the filter.
    pub open spec fn matches_envelope_spec(&self, envelope: EventEnvelope) -> bool {
        &&& self.run_ids.matches_spec(envelope.run_id)
        &&& self.agent_ids.matches_spec(envelope.agent_id)
        &&& option_matches_spec(self.turn_ids, envelope.turn_id)
        &&& self.families.matches_spec(envelope.event_family)
        &&& self.kinds.matches_spec(envelope.event_kind)
        &&& self.source_kinds.matches_spec(envelope.source.kind)
        &&& option_matches_spec(
            self.destination_kinds,
            match envelope.destination {
                Some(d) => Some(d.kind),
                None => None,
            },
        )
        &&& self.subject_kinds.matches_spec(envelope.subject_ref.kind)
        &&& any_matches_spec(self.related_entity_kinds, envelope.related_refs@.map_values(|r: EntityRef| r.kind))
        &&& any_matches_spec(
            self.correlation_keys,
            envelope.correlation.entries@.map_values(|c: CorrelationEntry| c.key),
        )
        &&& any_matches_spec(self.tags, envelope.tags@)
        &&& self.privacy_classes.matches_spec(envelope.privacy)
        &&& self.delivery_semantics.matches_spec(envelope.delivery_semantics)
        &&& (!self.terminal_only || envelope.event_kind.is_terminal_spec())
    }

    /// Whether an envelope passes every criterion of the filter.
    pub(crate) fn matches_envelope(&self, envelope: &EventEnvelope) -> (r: bool)
        ensures
            r == self.matches_envelope_spec(*envelope),
    {
        self.run_ids.matches(&envelope.run_id) && self.agent_ids.matches(&envelope.agent_id) && option_matches(
            &self.turn_ids,
            &envelope.turn_id,
        ) && self.families.matches(&envelope.event_family) && self.kinds.matches(&envelope.event_kind)
            && self.source_kinds.matches(&envelope.source.kind) && destination_kind_matches(
            &self.destination_kinds,
            &envelope.destination,
        ) && self.subject_kinds.matches(&envelope.subject_ref.kind) && related_kinds_match(
            &self.related_entity_kinds,
            &envelope.related_refs,
        ) && correlation_keys_match(&self.correlation_keys, &envelope.correlation.entries) && tags_match(
            &self.tags,
            &envelope.tags,
        ) && self.privacy_classes.matches(&envelope.privacy) && self.delivery_semantics.matches(
            &envelope.delivery_semantics,
        ) && (!self.terminal_only || envelope.event_kind.is_terminal())
    }
}

fn option_matches<T: ValueEq>(filter: &EventFilterSet<T>, candidate: &Option<T>) -> (r: bool)
    ensures
        r == option_matches_spec(*filter, *candidate),
{
    match filter {
        EventFilterSet::Any => true,
        EventFilterSet::Include(_) => match candidate {
            Some(c) => filter.matches(c),
            None => false,
        },
    }
}

fn destination_kind_matches(filter: &EventFilterSet<DestinationKind>, destination: &Option<DestinationRef>) -> (r: bool)
    ensures
        r == option_matches_spec(
            *filter,
            match *destination {
                Some(d) => Some(d.kind),
                None => None,
            },
        ),
{
    match filter {
        EventFilterSet::Any => true,
        EventFilterSet::Include(_) => match destination {
            Some(d) => filter.matches(&d.kind),
            None => false,
        },
    }
}

fn related_kinds_match(filter: &EventFilterSet<EntityKind>, refs: &Vec<EntityRef>) -> (r: bool)
    ensures
        r == any_matches_spec(*filter, refs@.map_values(|e: EntityRef| e.kind)),
{
    let ghost kinds = refs@.map_values(|e: EntityRef| e.kind);
    match filter {
        EventFilterSet::Any => true,
        EventFilterSet::Include(_) => {
            let mut i: usize = 0;
            while i < refs.len()
                invariant
                    0 <= i <= refs@.len(),
                    kinds == refs@.map_values(|e: EntityRef| e.kind),
                    forall|k: int| 0 <= k < i ==> !filter.matches_spec(#[trigger] kinds[k]),
                decreases refs@.len() - i,
            {
                if filter.matches(&refs[i].kind) {
                    proof {
                        assert(kinds[i as int] == refs@[i as int].kind);
                    }
                    return true;
                }
                i = i + 1;
            }
            false
        },
    }
}

fn correlation_keys_match(filter: &EventFilterSet<CorrelationKey>, entries: &Vec<CorrelationEntry>) -> (r: bool)
    ensures
        r == any_matches_spec(*filter, entries@.map_values(|c: CorrelationEntry| c.key)),
{
    let ghost keys = entries@.map_values(|c: CorrelationEntry| c.key);
    match filter {
        EventFilterSet::Any => true,
        EventFilterSet::Include(_) => {
            let mut i: usize = 0;
            while i < entries.len()
                invariant
                    0 <= i <= entries@.len(),
                    keys == entries@.map_values(|c: CorrelationEntry| c.key),
                    forall|k: int| 0 <= k < i ==> !filter.matches_spec(#[trigger] keys[k]),
                decreases entries@.len() - i,
            {
                if filter.matches(&entries[i].key) {
                    proof {
                        assert(keys[i as int] == entries@[i as int].key);
                    }
                    return true;
                }
                i = i + 1;
            }
            false
        },
    }
}

fn tags_match(filter: &EventFilterSet<EventTag>, tags: &Vec<EventTag>) -> (r: bool)
    ensures
        r == any_matches_spec(*filter, tags@),
{
    match filter {
        EventFilterSet::Any => true,
        EventFilterSet::Include(_) => {
            let mut i: usize = 0;
            while i < tags.len()
                invariant
                    0 <= i <= tags@.len(),
                    forall|k: int| 0 <= k < i ==> !filter.matches_spec(#[trigger] tags@[k]),
                decreases tags@.len() - i,
            {
                if filter.matches(&tags[i]) {
                    return true;
                }
                i = i + 1;
            }
            false
        },
    }
}

impl CompiledEventFilter {
    /// Whether this is the compilation of `criteria`, whose JSON encoding is `encoded`: the
    /// fingerprint is `sha256:` and the hex digest of the encoding, the id `filter.` and the
    /// hex digest of the fingerprint's UTF-8 bytes.
    pub open spec fn compiles(&self, criteria: EventFilter, encoded: Seq<u8>) -> bool {
        &&& self.filter_fingerprint@ == sha256_fingerprint_spec(encoded)
        &&& self.filter_id@ == "filter."@ + hex_lower(
            sha256_digest_spec(vstd::utf8::encode_utf8(sha256_fingerprint_spec(encoded))),
        )
        &&& self.indexed_fields@ == criteria.indexed_fields_spec()
        &&& self.payload_access == criteria.payload_access
        &&& self.queue == criteria.queue
        &&& self.criteria == criteria
    }

    /// Compiles `criteria`, given its JSON encoding.
    pub fn new(criteria: EventFilter, encoded: &[u8]) -> (res: Self)
        ensures
            res.compiles(criteria, encoded@),
    {
        let fingerprint = sha256_fingerprint(encoded);
        let id_digest = sha256_hex(fingerprint.as_str().as_bytes());
        let filter_id = EventFilterId::new(concat2("filter.", id_digest.as_str()));
        let indexed_fields = criteria.indexed_fields();
        CompiledEventFilter {
            filter_id,
            filter_fingerprint: EventFilterFingerprint::new(fingerprint),
            indexed_fields,
            payload_access: criteria.payload_access,
            queue: criteria.queue,
            criteria,
        }
    }

    /// Whether an envelope passes the filter's criteria.
    pub fn matches_envelope(&self, envelope: &EventEnvelope) -> (r: bool)
        ensures
            r == self.criteria.matches_envelope_spec(*envelope),
    {
        self.criteria.matches_envelope(envelope)
    }

    /// The stream scope of this filter.
    pub fn cursor_scope(&self) -> (res: EventStreamScope)
        ensures
            res == (EventStreamScope::Filter { filter_id: self.filter_id, filter_fingerprint: self.filter_fingerprint }),
    {
        EventStreamScope::Filter { filter_id: self.filter_id.clone(), filter_fingerprint: self.filter_fingerprint.clone() }
    }

    /// The criteria the filter was compiled from.
    pub fn criteria(&self) -> (res: &EventFilter)
        ensures
            *res == self.criteria,
    {
        &self.criteria
    }
}

/// Whether a cursor taken in scope `cursor_scope` may resume a stream in `requested`: the
/// same run, the same agent, the same filter fingerprint, or both unscoped.
pub open spec fn scopes_compatible(requested: EventStreamScope, cursor_scope: EventStreamScope) -> bool {
    match (requested, cursor_scope) {
        (EventStreamScope::All, EventStreamScope::All) => true,
        (EventStreamScope::Run(a), EventStreamScope::Run(b)) => a@ == b@,
        (EventStreamScope::Agent(a), EventStreamScope::Agent(b)) => a@ == b@,
        (EventStreamScope::Filter { filter_fingerprint: a, .. }, EventStreamScope::Filter { filter_fingerprint: b, .. }) => a@ == b@,
        _ => false,
    }
}

/// Message of a cursor scope mismatch.
pub open spec fn cursor_mismatch_message() -> Seq<char> {
    "cursor scope mismatch for requested event stream"@
}

/// Checks that `cursor`, if any, may resume a stream in `requested_scope`.
pub fn cursor_compatible(requested_scope: &EventStreamScope, cursor: Option<&EventCursor>) -> (res: Result<(), AgentError>)
    ensures
        res is Ok <==> (cursor is None || scopes_compatible(*requested_scope, cursor.unwrap().scope)),
        res is Err ==> res->Err_0.is_contract_violation(cursor_mismatch_message()),
{
    let cursor = match cursor {
        None => {
            return Ok(());
        },
        Some(c) => c,
    };
    let compatible = match (requested_scope, &cursor.scope) {
        (EventStreamScope::All, EventStreamScope::All) => true,
        (EventStreamScope::Run(requested), EventStreamScope::Run(cursor_run)) => requested.equals(cursor_run),
        (EventStreamScope::Agent(requested), EventStreamScope::Agent(cursor_agent)) => requested.equals(cursor_agent),
        (
            EventStreamScope::Filter { filter_fingerprint: requested, .. },
            EventStreamScope::Filter { filter_fingerprint: cursor_fingerprint, .. },
        ) => requested.equals(cursor_fingerprint),
        _ => false,
    };
    if compatible {
        Ok(())
    } else {
        Err(AgentError::contract_violation("cursor scope mismatch for requested event stream"))
    }
}

/// Every scope accepts its own cursors: a cursor that `EventEnvelope::cursor` takes in a
/// scope resumes a stream in that same scope.
pub proof fn lemma_cursor_resumes_own_scope(scope: EventStreamScope)
    ensures
        scopes_compatible(scope, scope),
{
}

/// A filter passes an envelope exactly when every criterion passes: each listed set
/// (run, agent, family, kind, source kind, subject kind, privacy, delivery semantics) is
/// unrestricted or lists the envelope's value; the turn and destination sets are
/// unrestricted or list the envelope's turn or destination kind, which must then be
/// present; the related entity kinds, correlation keys and tags are unrestricted or list
/// one of the envelope's; and a terminal-only filter passes terminal events only.
pub proof fn lemma_envelope_match_criteria(filter: EventFilter, envelope: EventEnvelope)
    ensures
        filter.matches_envelope_spec(envelope) <==> {
            &&& (filter.run_ids is Any || exists|i: int|
                0 <= i < filter.run_ids->Include_0@.len() && (#[trigger] filter.run_ids->Include_0@[i])@ == envelope.run_id@)
            &&& (filter.agent_ids is Any || exists|i: int|
                0 <= i < filter.agent_ids->Include_0@.len() && (#[trigger] filter.agent_ids->Include_0@[i])@
                    == envelope.agent_id@)
            &&& (filter.turn_ids is Any || (envelope.turn_id is Some && exists|i: int|
                0 <= i < filter.turn_ids->Include_0@.len() && (#[trigger] filter.turn_ids->Include_0@[i])@
                    == envelope.turn_id.unwrap()@))
            &&& (filter.families is Any || filter.families->Include_0@.contains(envelope.event_family))
            &&& (filter.kinds is Any || filter.kinds->Include_0@.contains(envelope.event_kind))
            &&& (filter.source_kinds is Any || filter.source_kinds->Include_0@.contains(envelope.source.kind))
            &&& (filter.destination_kinds is Any || (envelope.destination is Some
                && filter.destination_kinds->Include_0@.contains(envelope.destination.unwrap().kind)))
            &&& (filter.subject_kinds is Any || filter.subject_kinds->Include_0@.contains(envelope.subject_ref.kind))
            &&& (filter.related_entity_kinds is Any || exists|j: int|
                0 <= j < envelope.related_refs@.len() && filter.related_entity_kinds->Include_0@.contains(
                    (#[trigger] envelope.related_refs@[j]).kind,
                ))
            &&& (filter.correlation_keys is Any || exists|j: int, i: int|
                0 <= j < envelope.correlation.entries@.len() && 0 <= i < filter.correlation_keys->Include_0@.len()
                    && (#[trigger] filter.correlation_keys->Include_0@[i])@
                    == (#[trigger] envelope.correlation.entries@[j]).key@)
            &&& (filter.tags is Any || exists|j: int, i: int|
                0 <= j < envelope.tags@.len() && 0 <= i < filter.tags->Include_0@.len()
                    && (#[trigger] filter.tags->Include_0@[i])@ == (#[trigger] envelope.tags@[j])@)
            &&& (filter.privacy_classes is Any || filter.privacy_classes->Include_0@.contains(envelope.privacy))
            &&& (filter.delivery_semantics is Any || filter.delivery_semantics->Include_0@.contains(
                envelope.delivery_semantics,
            ))
            &&& (!filter.terminal_only || envelope.event_kind.is_terminal_spec())
        },
{
    let rel = envelope.related_refs@.map_values(|r: EntityRef| r.kind);
    let keys = envelope.correlation.entries@.map_values(|c: CorrelationEntry| c.key);
    if let EventFilterSet::Include(v) = filter.related_entity_kinds {
        if any_matches_spec(filter.related_entity_kinds, rel) {
            let j = choose|j: int| 0 <= j < rel.len() && filter.related_entity_kinds.matches_spec(#[trigger] rel[j]);
            let i = choose|i: int| 0 <= i < v@.len() && (#[trigger] v@[i]).value_eq(&rel[j]);
            assert(v@[i] == envelope.related_refs@[j].kind);
        }
        if exists|j: int| 0 <= j < envelope.related_refs@.len() && v@.contains((#[trigger] envelope.related_refs@[j]).kind) {
            let j = choose|j: int| 0 <= j < envelope.related_refs@.len() && v@.contains((#[trigger] envelope.related_refs@[j]).kind);
            let i = choose|i: int| 0 <= i < v@.len() && v@[i] == envelope.related_refs@[j].kind;
            assert(v@[i].value_eq(&rel[j]));
            assert(filter.related_entity_kinds.matches_spec(rel[j]));
        }
    }
    if let EventFilterSet::Include(v) = filter.correlation_keys {
        if any_matches_spec(filter.correlation_keys, keys) {
            let j = choose|j: int| 0 <= j < keys.len() && filter.correlation_keys.matches_spec(#[trigger] keys[j]);
            let i = choose|i: int| 0 <= i < v@.len() && (#[trigger] v@[i]).value_eq(&keys[j]);
            assert(v@[i]@ == envelope.correlation.entries@[j].key@);
        }
        if exists|j: int, i: int|
            0 <= j < envelope.correlation.entries@.len() && 0 <= i < v@.len() && (#[trigger] v@[i])@
                == (#[trigger] envelope.correlation.entries@[j]).key@ {
            let (j, i) = choose|j: int, i: int|
                0 <= j < envelope.correlation.entries@.len() && 0 <= i < v@.len() && (#[trigger] v@[i])@
                    == (#[trigger] envelope.correlation.entries@[j]).key@;
            assert(v@[i].value_eq(&keys[j]));
            assert(filter.correlation_keys.matches_spec(keys[j]));
        }
    }
    if let EventFilterSet::Include(v) = filter.tags {
        if any_matches_spec(filter.tags, envelope.tags@) {
            let j = choose|j: int| 0 <= j < envelope.tags@.len() && filter.tags.matches_spec(#[trigger] envelope.tags@[j]);
            let i = choose|i: int| 0 <= i < v@.len() && (#[trigger] v@[i]).value_eq(&envelope.tags@[j]);
            assert(v@[i]@ == envelope.tags@[j]@);
        }
        if exists|j: int, i: int| 0 <= j < envelope.tags@.len() && 0 <= i < v@.len() && (#[trigger] v@[i])@ == (#[trigger] envelope.tags@[j])@ {
            let (j, i) = choose|j: int, i: int| 0 <= j < envelope.tags@.len() && 0 <= i < v@.len() && (#[trigger] v@[i])@ == (#[trigger] envelope.tags@[j])@;
            assert(v@[i].value_eq(&envelope.tags@[j]));
            assert(filter.tags.matches_spec(envelope.tags@[j]));
        }
    }
    // Enum sets: `value_eq` is equality, so a match is membership.
    if let EventFilterSet::Include(v) = filter.families {
        if filter.families.matches_spec(envelope.event_family) {
            let i = choose|i: int| 0 <= i < v@.len() && (#[trigger] v@[i]).value_eq(&envelope.event_family);
            assert(v@[i] == envelope.event_family);
        }
        if v@.contains(envelope.event_family) {
            let i = choose|i: int| 0 <= i < v@.len() && v@[i] == envelope.event_family;
            assert(v@[i].value_eq(&envelope.event_family));
        }
    }
    if let EventFilterSet::Include(v) = filter.kinds {
        if filter.kinds.matches_spec(envelope.event_kind) {
            let i = choose|i: int| 0 <= i < v@.len() && (#[trigger] v@[i]).value_eq(&envelope.event_kind);
            assert(v@[i] == envelope.event_kind);
        }
        if v@.contains(envelope.event_kind) {
            let i = choose|i: int| 0 <= i < v@.len() && v@[i] == envelope.event_kind;
            assert(v@[i].value_eq(&envelope.event_kind));
        }
    }
    if let EventFilterSet::Include(v) = filter.source_kinds {
        if filter.source_kinds.matches_spec(envelope.source.kind) {
            let i = choose|i: int| 0 <= i < v@.len() && (#[trigger] v@[i]).value_eq(&envelope.source.kind);
            assert(v@[i] == envelope.source.kind);
        }
        if v@.contains(envelope.source.kind) {
            let i = choose|i: int| 0 <= i < v@.len() && v@[i] == envelope.source.kind;
            assert(v@[i].value_eq(&envelope.source.kind));
        }
    }
    if let EventFilterSet::Include(v) = filter.destination_kinds {
        if let Some(d) = envelope.destination {
            if filter.destination_kinds.matches_spec(d.kind) {
                let i = choose|i: int| 0 <= i < v@.len() && (#[trigger] v@[i]).value_eq(&d.kind);
                assert(v@[i] == d.kind);
            }
            if v@.contains(d.kind) {
                let i = choose|i: int| 0 <= i < v@.len() && v@[i] == d.kind;
                assert(v@[i].value_eq(&d.kind));
            }
        }
    }
    if let EventFilterSet::Include(v) = filter.subject_kinds {
        if filter.subject_kinds.matches_spec(envelope.subject_ref.kind) {
            let i = choose|i: int| 0 <= i < v@.len() && (#[trigger] v@[i]).value_eq(&envelope.subject_ref.kind);
            assert(v@[i] == envelope.subject_ref.kind);
        }
        if v@.contains(envelope.subject_ref.kind) {
            let i = choose|i: int| 0 <= i < v@.len() && v@[i] == envelope.subject_ref.kind;
            assert(v@[i].value_eq(&envelope.subject_ref.kind));
        }
    }
    if let EventFilterSet::Include(v) = filter.privacy_classes {
        if filter.privacy_classes.matches_spec(envelope.privacy) {
            let i = choose|i: int| 0 <= i < v@.len() && (#[trigger] v@[i]).value_eq(&envelope.privacy);
            assert(v@[i] == envelope.privacy);
        }
        if v@.contains(envelope.privacy) {
            let i = choose|i: int| 0 <= i < v@.len() && v@[i] == envelope.privacy;
            assert(v@[i].value_eq(&envelope.privacy));
        }
    }
    if let EventFilterSet::Include(v) = filter.delivery_semantics {
        if filter.delivery_semantics.matches_spec(envelope.delivery_semantics) {
            let i = choose|i: int| 0 <= i < v@.len() && (#[trigger] v@[i]).value_eq(&envelope.delivery_semantics);
            assert(v@[i] == envelope.delivery_semantics);
        }
        if v@.contains(envelope.delivery_semantics) {
            let i = choose|i: int| 0 <= i < v@.len() && v@[i] == envelope.delivery_semantics;
            assert(v@[i].value_eq(&envelope.delivery_semantics));
        }
    }
}

} // verus!
