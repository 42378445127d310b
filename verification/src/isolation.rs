use vstd::prelude::*;
use crate::domain::{AgentId, ContentRefId, DestinationRef, EntityRef, PolicyRef, PrivacyClass, RetentionClass, RetryClassification, RunId, SourceRef};
use crate::effect::{EffectIntent, EffectResult};
use crate::package::{CleanupPlanRef, CleanupStatus, ExecutionEnvironmentId, IsolatedProcessRef, IsolationCapability, IsolationClass, IsolationRequirementRef, IsolationRuntimeRef, IsolationTrustField, NetworkNamespaceRef, PolicyDecisionRef, PolicyDecisionScope, PreparedEnvironmentRef, ProcessIoFrame, ProcessStatsSnapshotRef};

verus! {

/// Journal payload of the isolation feature.
#[derive(Debug)]
pub enum IsolationRecord {
    Requested(IsolationRequestedRecord),
    AdapterCapabilityReported(IsolationCapabilityReportedRecord),
    CapabilityMatch(IsolationCapabilityMatchRecord),
    DowngradeDecision(IsolationDowngradeDecisionRecord),
    EnvironmentPrepareIntent(IsolationEnvironmentPrepareIntentRecord),
    EnvironmentPrepareResult(IsolationEnvironmentPrepareResultRecord),
    ProcessStartIntent(IsolationProcessStartIntentRecord),
    ProcessStartResult(IsolationProcessStartResultRecord),
    ProcessIoFrame(ProcessIoFrame),
    ProcessStatsSnapshot(IsolationProcessStatsRecord),
    CleanupIntent(IsolationCleanupIntentRecord),
    CleanupResult(IsolationCleanupResultRecord),
    Failed(IsolationFailureRecord),
}

impl IsolationRecord {
    /// Variant-wise equality, with vectors compared by their contents.
    pub open spec fn same_as(&self, other: &Self) -> bool {
        match (*self, *other) {
            (IsolationRecord::Requested(a_v0), IsolationRecord::Requested(b_v0)) => (a_v0.same_as(&b_v0)),
            (IsolationRecord::AdapterCapabilityReported(a_v0), IsolationRecord::AdapterCapabilityReported(b_v0)) => (a_v0 == b_v0),
            (IsolationRecord::CapabilityMatch(a_v0), IsolationRecord::CapabilityMatch(b_v0)) => (a_v0.same_as(&b_v0)),
            (IsolationRecord::DowngradeDecision(a_v0), IsolationRecord::DowngradeDecision(b_v0)) => (a_v0.same_as(&b_v0)),
            (IsolationRecord::EnvironmentPrepareIntent(a_v0), IsolationRecord::EnvironmentPrepareIntent(b_v0)) => (a_v0.same_as(&b_v0)),
            (IsolationRecord::EnvironmentPrepareResult(a_v0), IsolationRecord::EnvironmentPrepareResult(b_v0)) => (a_v0.same_as(&b_v0)),
            (IsolationRecord::ProcessStartIntent(a_v0), IsolationRecord::ProcessStartIntent(b_v0)) => (a_v0.same_as(&b_v0)),
            (IsolationRecord::ProcessStartResult(a_v0), IsolationRecord::ProcessStartResult(b_v0)) => (a_v0.same_as(&b_v0)),
            (IsolationRecord::ProcessIoFrame(a_v0), IsolationRecord::ProcessIoFrame(b_v0)) => (a_v0 == b_v0),
            (IsolationRecord::ProcessStatsSnapshot(a_v0), IsolationRecord::ProcessStatsSnapshot(b_v0)) => (a_v0 == b_v0),
            (IsolationRecord::CleanupIntent(a_v0), IsolationRecord::CleanupIntent(b_v0)) => (a_v0.same_as(&b_v0)),
            (IsolationRecord::CleanupResult(a_v0), IsolationRecord::CleanupResult(b_v0)) => (a_v0.same_as(&b_v0)),
            (IsolationRecord::Failed(a_v0), IsolationRecord::Failed(b_v0)) => (a_v0 == b_v0),
            _ => false,
        }
    }
}

impl Clone for IsolationRecord {
    fn clone(&self) -> (res: Self)
        ensures
            res.same_as(self),
    {
        match self {
            IsolationRecord::Requested(v0) => { IsolationRecord::Requested(v0.clone()) }
            IsolationRecord::AdapterCapabilityReported(v0) => { IsolationRecord::AdapterCapabilityReported(v0.clone()) }
            IsolationRecord::CapabilityMatch(v0) => { IsolationRecord::CapabilityMatch(v0.clone()) }
            IsolationRecord::DowngradeDecision(v0) => { IsolationRecord::DowngradeDecision(v0.clone()) }
            IsolationRecord::EnvironmentPrepareIntent(v0) => { IsolationRecord::EnvironmentPrepareIntent(v0.clone()) }
            IsolationRecord::EnvironmentPrepareResult(v0) => { IsolationRecord::EnvironmentPrepareResult(v0.clone()) }
            IsolationRecord::ProcessStartIntent(v0) => { IsolationRecord::ProcessStartIntent(v0.clone()) }
            IsolationRecord::ProcessStartResult(v0) => { IsolationRecord::ProcessStartResult(v0.clone()) }
            IsolationRecord::ProcessIoFrame(v0) => { IsolationRecord::ProcessIoFrame(v0.clone()) }
            IsolationRecord::ProcessStatsSnapshot(v0) => { IsolationRecord::ProcessStatsSnapshot(v0.clone()) }
            IsolationRecord::CleanupIntent(v0) => { IsolationRecord::CleanupIntent(v0.clone()) }
            IsolationRecord::CleanupResult(v0) => { IsolationRecord::CleanupResult(v0.clone()) }
            IsolationRecord::Failed(v0) => { IsolationRecord::Failed(v0.clone()) }
        }
    }
}

/// Isolation was requested.
#[derive(Debug)]
pub struct IsolationRequestedRecord {
    pub environment_id: ExecutionEnvironmentId,
    pub requirement_ref: IsolationRequirementRef,
    pub requested_class: IsolationClass,
    pub source: SourceRef,
    pub destination: DestinationRef,
    pub policy_refs: Vec<PolicyRef>,
    pub redacted_summary: String,
}

impl IsolationRequestedRecord {
    /// Field-wise equality, with vectors compared by their contents.
    pub open spec fn same_as(&self, other: &Self) -> bool {
        &&& self.environment_id == other.environment_id
        &&& self.requirement_ref == other.requirement_ref
        &&& self.requested_class == other.requested_class
        &&& self.source == other.source
        &&& self.destination == other.destination
        &&& self.policy_refs@ == other.policy_refs@
        &&& self.redacted_summary == other.redacted_summary
    }
}

impl Clone for IsolationRequestedRecord {
    fn clone(&self) -> (res: Self)
        ensures
            res.same_as(self),
    {
        let policy_refs_copy = self.policy_refs.clone();
        proof { assert(policy_refs_copy@ =~= self.policy_refs@); }
        IsolationRequestedRecord {
            environment_id: self.environment_id.clone(),
            requirement_ref: self.requirement_ref.clone(),
            requested_class: self.requested_class,
            source: self.source.clone(),
            destination: self.destination.clone(),
            policy_refs: policy_refs_copy,
            redacted_summary: self.redacted_summary.clone(),
        }
    }
}

/// An adapter reported its capabilities.
#[derive(Debug)]
pub struct IsolationCapabilityReportedRecord {
    pub environment_id: ExecutionEnvironmentId,
    pub adapter_ref: IsolationRuntimeRef,
    pub capability_report_ref: String,
    pub health: String,
    pub redacted_summary: String,
}

impl Clone for IsolationCapabilityReportedRecord {
    fn clone(&self) -> (res: Self)
        ensures
            res == *self,
    {
        IsolationCapabilityReportedRecord {
            environment_id: self.environment_id.clone(),
            adapter_ref: self.adapter_ref.clone(),
            capability_report_ref: self.capability_report_ref.clone(),
            health: self.health.clone(),
            redacted_summary: self.redacted_summary.clone(),
        }
    }
}

/// Requested and selected isolation were matched.
#[derive(Debug)]
pub struct IsolationCapabilityMatchRecord {
    pub environment_id: ExecutionEnvironmentId,
    pub adapter_ref: IsolationRuntimeRef,
    pub requested_class: IsolationClass,
    pub selected_class: IsolationClass,
    pub missing_capabilities: Vec<IsolationCapability>,
    pub trust_gaps: Vec<IsolationTrustField>,
    pub redacted_summary: String,
}

impl IsolationCapabilityMatchRecord {
    /// Field-wise equality, with vectors compared by their contents.
    pub open spec fn same_as(&self, other: &Self) -> bool {
        &&& self.environment_id == other.environment_id
        &&& self.adapter_ref == other.adapter_ref
        &&& self.requested_class == other.requested_class
        &&& self.selected_class == other.selected_class
        &&& self.missing_capabilities@ == other.missing_capabilities@
        &&& self.trust_gaps@ == other.trust_gaps@
        &&& self.redacted_summary == other.redacted_summary
    }
}

impl Clone for IsolationCapabilityMatchRecord {
    fn clone(&self) -> (res: Self)
        ensures
            res.same_as(self),
    {
        let missing_capabilities_copy = self.missing_capabilities.clone();
        proof { assert(missing_capabilities_copy@ =~= self.missing_capabilities@); }
        let trust_gaps_copy = self.trust_gaps.clone();
        proof { assert(trust_gaps_copy@ =~= self.trust_gaps@); }
        IsolationCapabilityMatchRecord {
            environment_id: self.environment_id.clone(),
            adapter_ref: self.adapter_ref.clone(),
            requested_class: self.requested_class,
            selected_class: self.selected_class,
            missing_capabilities: missing_capabilities_copy,
            trust_gaps: trust_gaps_copy,
            redacted_summary: self.redacted_summary.clone(),
        }
    }
}

/// A downgrade was approved or denied.
#[derive(Debug)]
pub struct IsolationDowngradeDecisionRecord {
    pub environment_id: ExecutionEnvironmentId,
    pub adapter_ref: IsolationRuntimeRef,
    pub requested_class: IsolationClass,
    pub selected_class: IsolationClass,
    pub capability_gaps: Vec<IsolationCapability>,
    pub trust_gaps: Vec<IsolationTrustField>,
    pub approved: bool,
    pub policy_decision_scope: Option<PolicyDecisionScope>,
    pub policy_decision_refs: Vec<PolicyDecisionRef>,
    pub redacted_summary: String,
}

impl IsolationDowngradeDecisionRecord {
    /// Field-wise equality, with vectors compared by their contents.
    pub open spec fn same_as(&self, other: &Self) -> bool {
        &&& self.environment_id == other.environment_id
        &&& self.adapter_ref == other.adapter_ref
        &&& self.requested_class == other.requested_class
        &&& self.selected_class == other.selected_class
        &&& self.capability_gaps@ == other.capability_gaps@
        &&& self.trust_gaps@ == other.trust_gaps@
        &&& self.approved == other.approved
        &&& self.policy_decision_scope == other.policy_decision_scope
        &&& self.policy_decision_refs@ == other.policy_decision_refs@
        &&& self.redacted_summary == other.redacted_summary
    }
}

impl Clone for IsolationDowngradeDecisionRecord {
    fn clone(&self) -> (res: Self)
        ensures
            res.same_as(self),
    {
        let capability_gaps_copy = self.capability_gaps.clone();
        proof { assert(capability_gaps_copy@ =~= self.capability_gaps@); }
        let trust_gaps_copy = self.trust_gaps.clone();
        proof { assert(trust_gaps_copy@ =~= self.trust_gaps@); }
        let policy_decision_refs_copy = self.policy_decision_refs.clone();
        proof { assert(policy_decision_refs_copy@ =~= self.policy_decision_refs@); }
        IsolationDowngradeDecisionRecord {
            environment_id: self.environment_id.clone(),
            adapter_ref: self.adapter_ref.clone(),
            requested_class: self.requested_class,
            selected_class: self.selected_class,
            capability_gaps: capability_gaps_copy,
            trust_gaps: trust_gaps_copy,
            approved: self.approved,
            policy_decision_scope: self.policy_decision_scope.clone(),
            policy_decision_refs: policy_decision_refs_copy,
            redacted_summary: self.redacted_summary.clone(),
        }
    }
}

/// Intent to prepare an environment.
#[derive(Debug)]
pub struct IsolationEnvironmentPrepareIntentRecord {
    pub environment_id: ExecutionEnvironmentId,
    pub effect_intent: EffectIntent,
    pub redacted_summary: String,
}

impl IsolationEnvironmentPrepareIntentRecord {
    /// Field-wise equality, with vectors compared by their contents.
    pub open spec fn same_as(&self, other: &Self) -> bool {
        &&& self.environment_id == other.environment_id
        &&& self.effect_intent.same_as(&other.effect_intent)
        &&& self.redacted_summary == other.redacted_summary
    }
}

impl Clone for IsolationEnvironmentPrepareIntentRecord {
    fn clone(&self) -> (res: Self)
        ensures
            res.same_as(self),
    {
        IsolationEnvironmentPrepareIntentRecord {
            environment_id: self.environment_id.clone(),
            effect_intent: self.effect_intent.clone(),
            redacted_summary: self.redacted_summary.clone(),
        }
    }
}

/// Result of preparing an environment.
#[derive(Debug)]
pub struct IsolationEnvironmentPrepareResultRecord {
    pub environment_id: ExecutionEnvironmentId,
    pub prepared_environment_ref: PreparedEnvironmentRef,
    pub effect_result: EffectResult,
    pub redacted_summary: String,
}

impl IsolationEnvironmentPrepareResultRecord {
    /// Field-wise equality, with vectors compared by their contents.
    pub open spec fn same_as(&self, other: &Self) -> bool {
        &&& self.environment_id == other.environment_id
        &&& self.prepared_environment_ref == other.prepared_environment_ref
        &&& self.effect_result.same_as(&other.effect_result)
        &&& self.redacted_summary == other.redacted_summary
    }
}

impl Clone for IsolationEnvironmentPrepareResultRecord {
    fn clone(&self) -> (res: Self)
        ensures
            res.same_as(self),
    {
        IsolationEnvironmentPrepareResultRecord {
            environment_id: self.environment_id.clone(),
            prepared_environment_ref: self.prepared_environment_ref.clone(),
            effect_result: self.effect_result.clone(),
            redacted_summary: self.redacted_summary.clone(),
        }
    }
}

/// Intent to start an isolated process.
#[derive(Debug)]
pub struct IsolationProcessStartIntentRecord {
    pub environment_id: ExecutionEnvironmentId,
    pub process_ref: IsolatedProcessRef,
    pub effect_intent: EffectIntent,
    pub redacted_summary: String,
}

impl IsolationProcessStartIntentRecord {
    /// Field-wise equality, with vectors compared by their contents.
    pub open spec fn same_as(&self, other: &Self) -> bool {
        &&& self.environment_id == other.environment_id
        &&& self.process_ref == other.process_ref
        &&& self.effect_intent.same_as(&other.effect_intent)
        &&& self.redacted_summary == other.redacted_summary
    }
}

impl Clone for IsolationProcessStartIntentRecord {
    fn clone(&self) -> (res: Self)
        ensures
            res.same_as(self),
    {
        IsolationProcessStartIntentRecord {
            environment_id: self.environment_id.clone(),
            process_ref: self.process_ref.clone(),
            effect_intent: self.effect_intent.clone(),
            redacted_summary: self.redacted_summary.clone(),
        }
    }
}

/// Result of starting an isolated process.
#[derive(Debug)]
pub struct IsolationProcessStartResultRecord {
    pub environment_id: ExecutionEnvironmentId,
    pub process_ref: IsolatedProcessRef,
    pub effect_result: EffectResult,
    pub content_refs: Vec<ContentRefId>,
    pub redacted_summary: String,
}

impl IsolationProcessStartResultRecord {
    /// Field-wise equality, with vectors compared by their contents.
    pub open spec fn same_as(&self, other: &Self) -> bool {
        &&& self.environment_id == other.environment_id
        &&& self.process_ref == other.process_ref
        &&& self.effect_result.same_as(&other.effect_result)
        &&& self.content_refs@ == other.content_refs@
        &&& self.redacted_summary == other.redacted_summary
    }
}

impl Clone for IsolationProcessStartResultRecord {
    fn clone(&self) -> (res: Self)
        ensures
            res.same_as(self),
    {
        let content_refs_copy = self.content_refs.clone();
        proof { assert(content_refs_copy@ =~= self.content_refs@); }
        IsolationProcessStartResultRecord {
            environment_id: self.environment_id.clone(),
            process_ref: self.process_ref.clone(),
            effect_result: self.effect_result.clone(),
            content_refs: content_refs_copy,
            redacted_summary: self.redacted_summary.clone(),
        }
    }
}

/// A process statistics snapshot.
#[derive(Debug)]
pub struct IsolationProcessStatsRecord {
    pub environment_id: ExecutionEnvironmentId,
    pub snapshot_ref: ProcessStatsSnapshotRef,
    pub redacted_summary: String,
}

impl Clone for IsolationProcessStatsRecord {
    fn clone(&self) -> (res: Self)
        ensures
            res == *self,
    {
        IsolationProcessStatsRecord {
            environment_id: self.environment_id.clone(),
            snapshot_ref: self.snapshot_ref.clone(),
            redacted_summary: self.redacted_summary.clone(),
        }
    }
}

/// Intent to clean an environment up.
#[derive(Debug)]
pub struct IsolationCleanupIntentRecord {
    pub environment_id: ExecutionEnvironmentId,
    pub cleanup_plan_ref: CleanupPlanRef,
    pub effect_intent: EffectIntent,
    pub redacted_summary: String,
}

impl IsolationCleanupIntentRecord {
    /// Field-wise equality, with vectors compared by their contents.
    pub open spec fn same_as(&self, other: &Self) -> bool {
        &&& self.environment_id == other.environment_id
        &&& self.cleanup_plan_ref == other.cleanup_plan_ref
        &&& self.effect_intent.same_as(&other.effect_intent)
        &&& self.redacted_summary == other.redacted_summary
    }
}

impl Clone for IsolationCleanupIntentRecord {
    fn clone(&self) -> (res: Self)
        ensures
            res.same_as(self),
    {
        IsolationCleanupIntentRecord {
            environment_id: self.environment_id.clone(),
            cleanup_plan_ref: self.cleanup_plan_ref.clone(),
            effect_intent: self.effect_intent.clone(),
            redacted_summary: self.redacted_summary.clone(),
        }
    }
}

/// Result of a cleanup.
#[derive(Debug)]
pub struct IsolationCleanupResultRecord {
    pub environment_id: ExecutionEnvironmentId,
    pub cleanup_plan_ref: CleanupPlanRef,
    pub status: CleanupStatus,
    pub effect_result: EffectResult,
    pub redacted_summary: String,
}

impl IsolationCleanupResultRecord {
    /// Field-wise equality, with vectors compared by their contents.
    pub open spec fn same_as(&self, other: &Self) -> bool {
        &&& self.environment_id == other.environment_id
        &&& self.cleanup_plan_ref == other.cleanup_plan_ref
        &&& self.status == other.status
        &&& self.effect_result.same_as(&other.effect_result)
        &&& self.redacted_summary == other.redacted_summary
    }
}

impl Clone for IsolationCleanupResultRecord {
    fn clone(&self) -> (res: Self)
        ensures
            res.same_as(self),
    {
        IsolationCleanupResultRecord {
            environment_id: self.environment_id.clone(),
            cleanup_plan_ref: self.cleanup_plan_ref.clone(),
            status: self.status,
            effect_result: self.effect_result.clone(),
            redacted_summary: self.redacted_summary.clone(),
        }
    }
}

/// Isolation failed.
#[derive(Debug)]
pub struct IsolationFailureRecord {
    pub environment_id: ExecutionEnvironmentId,
    pub adapter_ref: Option<IsolationRuntimeRef>,
    pub reason: String,
    pub retry_classification: RetryClassification,
}

impl Clone for IsolationFailureRecord {
    fn clone(&self) -> (res: Self)
        ensures
            res == *self,
    {
        IsolationFailureRecord {
            environment_id: self.environment_id.clone(),
            adapter_ref: self.adapter_ref.clone(),
            reason: self.reason.clone(),
            retry_classification: self.retry_classification,
        }
    }
}

/// Lineage fields of an isolation event.
#[derive(Debug)]
pub struct IsolationEventBase {
    pub run_id: RunId,
    pub agent_id: AgentId,
    pub subject_ref: EntityRef,
    pub related_refs: Vec<EntityRef>,
    pub source: SourceRef,
    pub destination: DestinationRef,
    pub policy_refs: Vec<PolicyRef>,
    pub privacy: PrivacyClass,
    pub retention: RetentionClass,
    pub runtime_package_fingerprint: String,
}

impl IsolationEventBase {
    /// Field-wise equality, with vectors compared by their contents.
    pub open spec fn same_as(&self, other: &Self) -> bool {
        &&& self.run_id == other.run_id
        &&& self.agent_id == other.agent_id
        &&& self.subject_ref == other.subject_ref
        &&& self.related_refs@ == other.related_refs@
        &&& self.source == other.source
        &&& self.destination == other.destination
        &&& self.policy_refs@ == other.policy_refs@
        &&& self.privacy == other.privacy
        &&& self.retention == other.retention
        &&& self.runtime_package_fingerprint == other.runtime_package_fingerprint
    }
}

impl Clone for IsolationEventBase {
    fn clone(&self) -> (res: Self)
        ensures
            res.same_as(self),
    {
        let related_refs_copy = self.related_refs.clone();
        proof { assert(related_refs_copy@ =~= self.related_refs@); }
        let policy_refs_copy = self.policy_refs.clone();
        proof { assert(policy_refs_copy@ =~= self.policy_refs@); }
        IsolationEventBase {
            run_id: self.run_id.clone(),
            agent_id: self.agent_id.clone(),
            subject_ref: self.subject_ref.clone(),
            related_refs: related_refs_copy,
            source: self.source.clone(),
            destination: self.destination.clone(),
            policy_refs: policy_refs_copy,
            privacy: self.privacy,
            retention: self.retention,
            runtime_package_fingerprint: self.runtime_package_fingerprint.clone(),
        }
    }
}

/// An isolation event.
#[derive(Debug)]
pub struct IsolationEventRecord {
    pub schema_version: u16,
    pub run_id: RunId,
    pub agent_id: AgentId,
    pub event_kind: IsolationEventKind,
    pub subject_ref: EntityRef,
    pub related_refs: Vec<EntityRef>,
    pub source: SourceRef,
    pub destination: DestinationRef,
    pub policy_refs: Vec<PolicyRef>,
    pub privacy: PrivacyClass,
    pub retention: RetentionClass,
    pub runtime_package_fingerprint: String,
    pub redacted_summary: String,
}

impl IsolationEventRecord {
    /// Field-wise equality, with vectors compared by their contents.
    pub open spec fn same_as(&self, other: &Self) -> bool {
        &&& self.schema_version == other.schema_version
        &&& self.run_id == other.run_id
        &&& self.agent_id == other.agent_id
        &&& self.event_kind == other.event_kind
        &&& self.subject_ref == other.subject_ref
        &&& self.related_refs@ == other.related_refs@
        &&& self.source == other.source
        &&& self.destination == other.destination
        &&& self.policy_refs@ == other.policy_refs@
        &&& self.privacy == other.privacy
        &&& self.retention == other.retention
        &&& self.runtime_package_fingerprint == other.runtime_package_fingerprint
        &&& self.redacted_summary == other.redacted_summary
    }
}

impl Clone for IsolationEventRecord {
    fn clone(&self) -> (res: Self)
        ensures
            res.same_as(self),
    {
        let related_refs_copy = self.related_refs.clone();
        proof { assert(related_refs_copy@ =~= self.related_refs@); }
        let policy_refs_copy = self.policy_refs.clone();
        proof { assert(policy_refs_copy@ =~= self.policy_refs@); }
        IsolationEventRecord {
            schema_version: self.schema_version,
            run_id: self.run_id.clone(),
            agent_id: self.agent_id.clone(),
            event_kind: self.event_kind,
            subject_ref: self.subject_ref.clone(),
            related_refs: related_refs_copy,
            source: self.source.clone(),
            destination: self.destination.clone(),
            policy_refs: policy_refs_copy,
            privacy: self.privacy,
            retention: self.retention,
            runtime_package_fingerprint: self.runtime_package_fingerprint.clone(),
            redacted_summary: self.redacted_summary.clone(),
        }
    }
}

/// Kind of isolation event.
#[derive(Clone, Copy, Debug, PartialEq, Eq, Structural)]
pub enum IsolationEventKind {
    IsolationRequested,
    IsolationAdapterHealthChecked,
    IsolationCapabilityMatched,
    IsolationDowngradeDenied,
    IsolationDowngradeApproved,
    IsolationImageResolved,
    IsolationRootfsPrepared,
    IsolationSessionPrepared,
    IsolationMountsResolved,
    IsolationNetworkPrepared,
    IsolationSecretsPrepared,
    IsolationEnvironmentPrepared,
    IsolationProcessStarted,
    IsolationProcessIoCaptured,
    IsolationProcessStatsRecorded,
    IsolationProcessSignalled,
    IsolationProcessExited,
    IsolationCleanupStarted,
    IsolationCleanupCompleted,
    IsolationCleanupFailed,
    IsolationFailed,
}

impl crate::domain::ValueEq for IsolationEventKind {
    open spec fn value_eq(&self, other: &Self) -> bool {
        *self == *other
    }

    fn equals(&self, other: &Self) -> (r: bool) {
        *self == *other
    }
}

/// A network namespace was prepared.
#[derive(Debug)]
pub struct IsolationNetworkPreparedRecord {
    pub environment_id: ExecutionEnvironmentId,
    pub network_namespace_ref: NetworkNamespaceRef,
    pub redacted_summary: String,
}

impl Clone for IsolationNetworkPreparedRecord {
    fn clone(&self) -> (res: Self)
        ensures
            res == *self,
    {
        IsolationNetworkPreparedRecord {
            environment_id: self.environment_id.clone(),
            network_namespace_ref: self.network_namespace_ref.clone(),
            redacted_summary: self.redacted_summary.clone(),
        }
    }
}

/// Schema version of isolation records.
pub const ISOLATION_RECORD_SCHEMA_VERSION: u16 = 1;

impl IsolationRecord {
    /// The event kind an isolation record is published as: downgrades by approval, cleanup
    /// results by whether the cleanup completed.
    pub open spec fn event_kind_spec(&self) -> IsolationEventKind {
        match self {
            IsolationRecord::Requested(_) => IsolationEventKind::IsolationRequested,
            IsolationRecord::AdapterCapabilityReported(_) => IsolationEventKind::IsolationAdapterHealthChecked,
            IsolationRecord::CapabilityMatch(_) => IsolationEventKind::IsolationCapabilityMatched,
            IsolationRecord::DowngradeDecision(r) => if r.approved {
                IsolationEventKind::IsolationDowngradeApproved
            } else {
                IsolationEventKind::IsolationDowngradeDenied
            },
            IsolationRecord::EnvironmentPrepareIntent(_) => IsolationEventKind::IsolationEnvironmentPrepared,
            IsolationRecord::EnvironmentPrepareResult(_) => IsolationEventKind::IsolationEnvironmentPrepared,
            IsolationRecord::ProcessStartIntent(_) => IsolationEventKind::IsolationProcessStarted,
            IsolationRecord::ProcessStartResult(_) => IsolationEventKind::IsolationProcessStarted,
            IsolationRecord::ProcessIoFrame(_) => IsolationEventKind::IsolationProcessIoCaptured,
            IsolationRecord::ProcessStatsSnapshot(_) => IsolationEventKind::IsolationProcessStatsRecorded,
            IsolationRecord::CleanupIntent(_) => IsolationEventKind::IsolationCleanupStarted,
            IsolationRecord::CleanupResult(r) => if r.status == CleanupStatus::Completed {
                IsolationEventKind::IsolationCleanupCompleted
            } else {
                IsolationEventKind::IsolationCleanupFailed
            },
            IsolationRecord::Failed(_) => IsolationEventKind::IsolationFailed,
        }
    }

    /// The summary an isolation record is published with: its redacted summary, or the
    /// reason of a failure.
    pub open spec fn event_summary_spec(&self) -> String {
        match self {
            IsolationRecord::Requested(r) => r.redacted_summary,
            IsolationRecord::AdapterCapabilityReported(r) => r.redacted_summary,
            IsolationRecord::CapabilityMatch(r) => r.redacted_summary,
            IsolationRecord::DowngradeDecision(r) => r.redacted_summary,
            IsolationRecord::EnvironmentPrepareIntent(r) => r.redacted_summary,
            IsolationRecord::EnvironmentPrepareResult(r) => r.redacted_summary,
            IsolationRecord::ProcessStartIntent(r) => r.redacted_summary,
            IsolationRecord::ProcessStartResult(r) => r.redacted_summary,
            IsolationRecord::ProcessIoFrame(r) => r.redacted_summary,
            IsolationRecord::ProcessStatsSnapshot(r) => r.redacted_summary,
            IsolationRecord::CleanupIntent(r) => r.redacted_summary,
            IsolationRecord::CleanupResult(r) => r.redacted_summary,
            IsolationRecord::Failed(r) => r.reason,
        }
    }

    /// The event of this record, on the lineage of `base`.
    pub fn event_record(&self, base: IsolationEventBase) -> (res: IsolationEventRecord)
        ensures
            res.schema_version == ISOLATION_RECORD_SCHEMA_VERSION,
            res.run_id == base.run_id,
            res.agent_id == base.agent_id,
            res.event_kind == self.event_kind_spec(),
            res.subject_ref == base.subject_ref,
            res.related_refs == base.related_refs,
            res.source == base.source,
            res.destination == base.destination,
            res.policy_refs == base.policy_refs,
            res.privacy == base.privacy,
            res.retention == base.retention,
            res.runtime_package_fingerprint == base.runtime_package_fingerprint,
            res.redacted_summary == self.event_summary_spec(),
    {
        let (kind, summary) = match self {
            IsolationRecord::Requested(record) => (IsolationEventKind::IsolationRequested, record.redacted_summary.clone()),
            IsolationRecord::AdapterCapabilityReported(record) => (
                IsolationEventKind::IsolationAdapterHealthChecked,
                record.redacted_summary.clone(),
            ),
            IsolationRecord::CapabilityMatch(record) => (
                IsolationEventKind::IsolationCapabilityMatched,
                record.redacted_summary.clone(),
            ),
            IsolationRecord::DowngradeDecision(record) => if record.approved {
                (IsolationEventKind::IsolationDowngradeApproved, record.redacted_summary.clone())
            } else {
                (IsolationEventKind::IsolationDowngradeDenied, record.redacted_summary.clone())
            },
            IsolationRecord::EnvironmentPrepareIntent(record) => (
                IsolationEventKind::IsolationEnvironmentPrepared,
                record.redacted_summary.clone(),
            ),
            IsolationRecord::EnvironmentPrepareResult(record) => (
                IsolationEventKind::IsolationEnvironmentPrepared,
                record.redacted_summary.clone(),
            ),
            IsolationRecord::ProcessStartIntent(record) => (
                IsolationEventKind::IsolationProcessStarted,
                record.redacted_summary.clone(),
            ),
            IsolationRecord::ProcessStartResult(record) => (
                IsolationEventKind::IsolationProcessStarted,
                record.redacted_summary.clone(),
            ),
            IsolationRecord::ProcessIoFrame(record) => (
                IsolationEventKind::IsolationProcessIoCaptured,
                record.redacted_summary.clone(),
            ),
            IsolationRecord::ProcessStatsSnapshot(record) => (
                IsolationEventKind::IsolationProcessStatsRecorded,
                record.redacted_summary.clone(),
            ),
            IsolationRecord::CleanupIntent(record) => (
                IsolationEventKind::IsolationCleanupStarted,
                record.redacted_summary.clone(),
            ),
            IsolationRecord::CleanupResult(record) => if record.status == CleanupStatus::Completed {
                (IsolationEventKind::IsolationCleanupCompleted, record.redacted_summary.clone())
            } else {
                (IsolationEventKind::IsolationCleanupFailed, record.redacted_summary.clone())
            },
            IsolationRecord::Failed(record) => (IsolationEventKind::IsolationFailed, record.reason.clone()),
        };
        IsolationEventRecord {
            schema_version: ISOLATION_RECORD_SCHEMA_VERSION,
            run_id: base.run_id,
            agent_id: base.agent_id,
            event_kind: kind,
            subject_ref: base.subject_ref,
            related_refs: base.related_refs,
            source: base.source,
            destination: base.destination,
            policy_refs: base.policy_refs,
            privacy: base.privacy,
            retention: base.retention,
            runtime_package_fingerprint: base.runtime_package_fingerprint,
            redacted_summary: summary,
        }
    }
}

} // verus!
